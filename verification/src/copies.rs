//! Field-by-field copies of records, with the copy proved equal.

use crate::domain::{ReserveCoverage, TokenObservation, TokenSnapshot};
use vstd::prelude::*;

verus! {

/// A copy of an optional string.
pub fn copy_opt_string(o: &Option<String>) -> (r: Option<String>)
    ensures
        r == *o,
{
    match o {
        Some(s) => Some(s.clone()),
        None => None,
    }
}

/// A copy of a token observation.
pub fn copy_token_observation(o: &TokenObservation) -> (r: TokenObservation)
    ensures
        r == *o,
{
    TokenObservation {
        observed_at_unix_ms: o.observed_at_unix_ms,
        snapshot: TokenSnapshot {
            chain_id: o.snapshot.chain_id,
            block_number: o.snapshot.block_number,
            contract_address: o.snapshot.contract_address.clone(),
            name: o.snapshot.name.clone(),
            symbol: o.snapshot.symbol.clone(),
            decimals: o.snapshot.decimals,
            total_supply_raw: o.snapshot.total_supply_raw.clone(),
        },
    }
}

/// A copy of a reserve coverage reading.
pub fn copy_reserve_coverage(c: &ReserveCoverage) -> (r: ReserveCoverage)
    ensures
        r == *c,
{
    ReserveCoverage {
        observed_at_unix_ms: c.observed_at_unix_ms,
        bank_as_of_unix_ms: c.bank_as_of_unix_ms,
        reserve_account_id: c.reserve_account_id.clone(),
        currency: c.currency.clone(),
        reserve_balance_minor: c.reserve_balance_minor.clone(),
        reserve_balance_usd: c.reserve_balance_usd.clone(),
        token_supply_raw: c.token_supply_raw.clone(),
        liability_usd: c.liability_usd.clone(),
        surplus_usd: c.surplus_usd.clone(),
        ratio: c.ratio,
        status: c.status,
    }
}

} // verus!
