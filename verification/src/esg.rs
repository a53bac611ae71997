//! The demonstration ESG allocation: network-wide Ethereum energy and
//! emissions divided uniformly per transaction, kept in integer units.
//!
//! The per-transaction figures come from the Cambridge Centre for Alternative
//! Finance scenarios for Ethereum after the Merge, divided by an assumed 400
//! million transactions a year. They are research estimates, not
//! measurements of this token.

use crate::domain::EsgEstimate;
use crate::text::text_eq;
use vstd::prelude::*;
use vstd::string::*;

verus! {

pub const METHODOLOGY_VERSION: &'static str = "ccaf-ethereum-pos-2026-demo-v1";

pub const ANNUAL_TRANSACTIONS_ASSUMPTION: u64 = 400_000_000;

pub const LOWER_ENERGY_MILLIWH_PER_TRANSACTION: u64 = 3_150;

pub const BEST_GUESS_ENERGY_MILLIWH_PER_TRANSACTION: u64 = 19_675;

pub const UPPER_ENERGY_MILLIWH_PER_TRANSACTION: u64 = 28_725;

pub const EMISSIONS_MILLIGRAM_CO2E_PER_TRANSACTION: u64 = 5_925;

pub const RENEWABLE_PER_MILLE: u64 = 393;

pub const NUCLEAR_PER_MILLE: u64 = 170;

pub const FOSSIL_PER_MILLE: u64 = 436;

pub const SOURCE_URL: &'static str = "https://www.jbs.cam.ac.uk/wp-content/uploads/2026/07/ccaf-2026-ethereum-after-the-merge-report.pdf";

/// `a * b`, or `u64::MAX` when the product does not fit.
pub open spec fn saturating_product(a: u64, b: u64) -> u64 {
    if a * b <= u64::MAX {
        (a * b) as u64
    } else {
        u64::MAX
    }
}

fn saturating_mul(a: u64, b: u64) -> (r: u64)
    ensures
        r == saturating_product(a, b),
{
    match a.checked_mul(b) {
        Some(v) => v,
        None => u64::MAX,
    }
}

/// The estimate for `transaction_count` transactions on `date_utc`: each
/// figure is the count times the per-transaction baseline (saturating), and
/// the energy mix splits the best guess per mille.
pub fn estimate(date_utc: String, transaction_count: u64, status: &str) -> (e: EsgEstimate)
    ensures
        e.date_utc == date_utc,
        e.status@ == status@,
        e.transaction_count == transaction_count,
        e.data_origin@ == "observed"@,
        e.energy_lower_milliwh == saturating_product(
            transaction_count,
            LOWER_ENERGY_MILLIWH_PER_TRANSACTION,
        ),
        e.energy_best_guess_milliwh == saturating_product(
            transaction_count,
            BEST_GUESS_ENERGY_MILLIWH_PER_TRANSACTION,
        ),
        e.energy_upper_milliwh == saturating_product(
            transaction_count,
            UPPER_ENERGY_MILLIWH_PER_TRANSACTION,
        ),
        e.emissions_milligram_co2e == saturating_product(
            transaction_count,
            EMISSIONS_MILLIGRAM_CO2E_PER_TRANSACTION,
        ),
        e.renewable_energy_microwh == saturating_product(
            e.energy_best_guess_milliwh,
            RENEWABLE_PER_MILLE,
        ),
        e.nuclear_energy_microwh == saturating_product(e.energy_best_guess_milliwh, NUCLEAR_PER_MILLE),
        e.fossil_energy_microwh == saturating_product(e.energy_best_guess_milliwh, FOSSIL_PER_MILLE),
{
    let lower = saturating_mul(transaction_count, LOWER_ENERGY_MILLIWH_PER_TRANSACTION);
    let best = saturating_mul(transaction_count, BEST_GUESS_ENERGY_MILLIWH_PER_TRANSACTION);
    let upper = saturating_mul(transaction_count, UPPER_ENERGY_MILLIWH_PER_TRANSACTION);
    EsgEstimate {
        date_utc,
        status: String::from_str(status),
        transaction_count,
        data_origin: String::from_str("observed"),
        energy_lower_milliwh: lower,
        energy_best_guess_milliwh: best,
        energy_upper_milliwh: upper,
        emissions_milligram_co2e: saturating_mul(
            transaction_count,
            EMISSIONS_MILLIGRAM_CO2E_PER_TRANSACTION,
        ),
        renewable_energy_microwh: saturating_mul(best, RENEWABLE_PER_MILLE),
        nuclear_energy_microwh: saturating_mul(best, NUCLEAR_PER_MILLE),
        fossil_energy_microwh: saturating_mul(best, FOSSIL_PER_MILLE),
    }
}

/// The transactions that an observation at `block` adds to the day: none
/// when the checkpoint `previous` already covers that block.
pub open spec fn observation_increment_value(previous: Option<u64>, block: u64, count: u64) -> u64 {
    match previous {
        Some(p) => if p >= block {
            0
        } else {
            count
        },
        None => count,
    }
}

/// Transactions to add to the day for an observation at `block`.
pub fn observation_increment(previous: Option<u64>, block: u64, count: u64) -> (r: u64)
    ensures
        r == observation_increment_value(previous, block, count),
{
    match previous {
        Some(p) => if p >= block {
            0
        } else {
            count
        },
        None => count,
    }
}

/// The checkpoint after an observation at `block`: it never moves back.
pub fn advance_checkpoint(previous: Option<u64>, block: u64) -> (r: u64)
    ensures
        r == match previous {
            Some(p) => if p >= block {
                p
            } else {
                block
            },
            None => block,
        },
{
    match previous {
        Some(p) => if p >= block {
            p
        } else {
            block
        },
        None => block,
    }
}

/// The first block to scan after the checkpoint `previous`.
pub fn resume_block(previous: Option<u64>) -> (r: u64)
    ensures
        r == match previous {
            Some(p) => if p == u64::MAX {
                p
            } else {
                (p + 1) as u64
            },
            None => 0,
        },
{
    match previous {
        Some(p) => if p == u64::MAX {
            p
        } else {
            p + 1
        },
        None => 0,
    }
}

/// Re-observing a block that the checkpoint already covers counts nothing
/// twice: the day gains nothing and the checkpoint stays.
pub proof fn law_reobservation_counts_nothing(previous: u64, block: u64, count: u64)
    requires
        block <= previous,
    ensures
        observation_increment_value(Some(previous), block, count) == 0,
{
}

/// The status of a daily estimate: finalized once the day is closed.
pub fn estimate_status(finalized: bool) -> (s: &'static str)
    ensures
        s@ == (if finalized {
            "finalized"@
        } else {
            "provisional"@
        }),
{
    if finalized {
        "finalized"
    } else {
        "provisional"
    }
}

/// The reported origin of a stored estimate: seeded demonstration data or
/// observed activity.
pub fn data_origin_label(stored_origin: &str) -> (s: &'static str)
    ensures
        s@ == (if stored_origin@ == "demo_seed"@ {
            "demoSeed"@
        } else {
            "observed"@
        }),
{
    if text_eq(stored_origin, "demo_seed") {
        "demoSeed"
    } else {
        "observed"
    }
}

} // verus!
