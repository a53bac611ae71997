//! Decisions of the on-chain synchronisation: the reserve state code the
//! token contract carries, when the issuance restriction and address
//! freezes must be written, and the transfer activity read from logs.

use crate::domain::AssetStateCode;
use vstd::prelude::*;
use vstd::seq_lib::*;

verus! {

/// The reserve state code of the token contract for an asset state:
/// missing evidence fails closed like blocked minting.
pub open spec fn contract_state_value(state: AssetStateCode) -> u8 {
    match state {
        AssetStateCode::Active => 0,
        AssetStateCode::Warning => 1,
        _ => 2,
    }
}

/// The contract's reserve state code for `state`; wind-down is written by
/// the lifecycle call instead.
pub fn contract_reserve_state(state: AssetStateCode) -> (r: u8)
    requires
        state != AssetStateCode::WindDown,
    ensures
        r == contract_state_value(state),
{
    match state {
        AssetStateCode::Active => 0,
        AssetStateCode::Warning => 1,
        _ => 2,
    }
}

/// The reserve state code to keep on chain for `state`, `None` in
/// wind-down, which the reserve synchronisation leaves alone.
pub fn desired_reserve_state(state: AssetStateCode) -> (r: Option<u8>)
    ensures
        r == (if state == AssetStateCode::WindDown {
            None
        } else {
            Some(contract_state_value(state))
        }),
{
    if state == AssetStateCode::WindDown {
        None
    } else {
        Some(contract_reserve_state(state))
    }
}

/// The reserve state code to write, `None` when the chain already holds it.
pub fn reserve_state_write(desired: u8, on_chain: u8) -> (r: Option<u8>)
    ensures
        r == (if desired == on_chain {
            None
        } else {
            Some(desired)
        }),
{
    if desired == on_chain {
        None
    } else {
        Some(desired)
    }
}

/// `a == b` on 32-byte hashes.
pub fn same_hash(a: &[u8; 32], b: &[u8; 32]) -> (r: bool)
    ensures
        r == (*a == *b),
{
    let mut i: usize = 0;
    while i < 32
        invariant
            i <= 32,
            forall|j: int| 0 <= j < i ==> a[j] == b[j],
        decreases 32 - i,
    {
        if a[i] != b[i] {
            return false;
        }
        i = i + 1;
    }
    assert(*a =~= *b);
    true
}

/// The issuance restriction write: `Some(true)` to block, `Some(false)` to
/// unblock, both with the new evidence; `None` when the chain already holds
/// the desired flag with the same evidence hash.
pub open spec fn restriction_write_value(
    blocked: bool,
    evidence: [u8; 32],
    desired: bool,
    desired_evidence: [u8; 32],
) -> Option<bool> {
    if blocked == desired && evidence == desired_evidence {
        None
    } else {
        Some(desired)
    }
}

/// Decides the issuance restriction write from what the chain holds.
pub fn restriction_write(
    blocked: bool,
    evidence: &[u8; 32],
    desired: bool,
    desired_evidence: &[u8; 32],
) -> (r: Option<bool>)
    ensures
        r == restriction_write_value(blocked, *evidence, desired, *desired_evidence),
{
    if blocked == desired && same_hash(evidence, desired_evidence) {
        None
    } else {
        Some(desired)
    }
}

/// Synchronising the issuance restriction is idempotent: once the chain
/// holds what a write set, the same assessment asks for no further write.
pub proof fn law_restriction_sync_idempotent(
    blocked: bool,
    evidence: [u8; 32],
    desired: bool,
    desired_evidence: [u8; 32],
)
    ensures
        restriction_write_value(blocked, evidence, desired, desired_evidence) matches Some(
            written,
        ) ==> restriction_write_value(written, desired_evidence, desired, desired_evidence)
            is None,
{
}

/// The freeze flag to write for an address, `None` when it already holds.
pub fn freeze_write(frozen: bool, desired: bool) -> (r: Option<bool>)
    ensures
        r == (if frozen == desired {
            None
        } else {
            Some(desired)
        }),
{
    if frozen == desired {
        None
    } else {
        Some(desired)
    }
}

/// The distinct transaction hashes among transfer logs; logs without a
/// hash count for nothing.
pub open spec fn transaction_hashes(hashes: Seq<Option<[u8; 32]>>) -> Set<[u8; 32]> {
    Set::new(|h: [u8; 32]| exists|i: int| 0 <= i < hashes.len() && #[trigger] hashes[i] == Some(h))
}

fn contains_hash(seen: &Vec<[u8; 32]>, h: &[u8; 32]) -> (r: bool)
    ensures
        r == seen@.contains(*h),
{
    let mut i: usize = 0;
    while i < seen.len()
        invariant
            i <= seen@.len(),
            forall|j: int| 0 <= j < i ==> seen@[j] != *h,
        decreases seen@.len() - i,
    {
        if same_hash(&seen[i], h) {
            return true;
        }
        i = i + 1;
    }
    false
}

/// The number of transactions that emitted the given transfer logs: each
/// transaction counted once, logs without a hash ignored.
/// The distinct hashes are collected in a `Vec` searched linearly: std's
/// hash and B-tree sets are specified for integer keys (and B-trees for
/// tuples of them), not for 32-byte hashes.
pub fn count_unique_transaction_hashes(hashes: &Vec<Option<[u8; 32]>>) -> (r: u64)
    requires
        hashes@.len() <= u64::MAX,
    ensures
        r == transaction_hashes(hashes@).len(),
        transaction_hashes(hashes@).finite(),
{
    let mut seen: Vec<[u8; 32]> = Vec::new();
    let mut i: usize = 0;
    while i < hashes.len()
        invariant
            i <= hashes@.len(),
            seen@.no_duplicates(),
            seen@.len() <= i,
            seen@.to_set() == transaction_hashes(hashes@.take(i as int)),
        decreases hashes@.len() - i,
    {
        let ghost before = seen@;
        proof {
            let prefix = transaction_hashes(hashes@.take(i as int));
            let next = match hashes@[i as int] {
                Some(x) => prefix.insert(x),
                None => prefix,
            };
            assert forall|h: [u8; 32]| #[trigger]
                transaction_hashes(hashes@.take(i + 1)).contains(h) implies next.contains(h) by {
                let k = choose|k: int|
                    0 <= k < hashes@.take(i + 1).len() && #[trigger] hashes@.take(i + 1)[k] == Some(
                        h,
                    );
                if k < i {
                    assert(hashes@.take(i as int)[k] == Some(h));
                }
            }
            assert forall|h: [u8; 32]| #[trigger]
                next.contains(h) implies transaction_hashes(hashes@.take(i + 1)).contains(h) by {
                if hashes@[i as int] == Some(h) {
                    assert(hashes@.take(i + 1)[i as int] == Some(h));
                } else {
                    let k = choose|k: int|
                        0 <= k < hashes@.take(i as int).len() && #[trigger] hashes@.take(
                            i as int,
                        )[k] == Some(h);
                    assert(hashes@.take(i + 1)[k] == Some(h));
                }
            }
            assert(transaction_hashes(hashes@.take(i + 1)) =~= next);
        }
        match &hashes[i] {
            Some(h) => {
                if !contains_hash(&seen, h) {
                    seen.push(*h);
                    proof {
                        before.lemma_push_to_set_commute(*h);
                        assert forall|a: int, b: int|
                            0 <= a < seen@.len() && 0 <= b < seen@.len() && a != b implies seen@[a]
                            != seen@[b] by {
                            if a < before.len() && b < before.len() {
                                assert(seen@[a] == before[a] && seen@[b] == before[b]);
                            } else if a == before.len() {
                                assert(seen@[b] == before[b]);
                                assert(before.contains(before[b]));
                            } else {
                                assert(seen@[a] == before[a]);
                                assert(before.contains(before[a]));
                            }
                        }
                    }
                } else {
                    proof {
                        assert(before.to_set().insert(*h) =~= before.to_set());
                    }
                }
            },
            None => {},
        }
        i = i + 1;
    }
    proof {
        assert(hashes@.take(hashes@.len() as int) =~= hashes@);
        seen@.unique_seq_to_set();
        seq_to_set_is_finite(seen@);
    }
    seen.len() as u64
}

} // verus!
