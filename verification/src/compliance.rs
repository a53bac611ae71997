//! Fixed inputs of the demonstration compliance calculations.
//!
//! The EUR/USD rate is a deliberate research simplification: USD 1.00 is
//! treated as EUR 1.00 so that the quarterly threshold calculation stays
//! deterministic. It is not a market rate; a production system replaces it
//! with a dated, auditable exchange-rate source and a rounding policy.

use vstd::prelude::*;

verus! {

/// Identifies the simplified rate methodology in stored calculations.
pub const EUR_USD_RATE_VERSION: &'static str = "eur-usd-fixed-parity-demo-v1";

/// USD minor units per `EUR_MINOR_UNITS` EUR minor units.
pub const USD_MINOR_UNITS: u128 = 1;

/// EUR minor units per `USD_MINOR_UNITS` USD minor units.
pub const EUR_MINOR_UNITS: u128 = 1;

/// The EUR value, in minor units, of `value_usd_minor` USD minor units at
/// the fixed demonstration rate; `None` when the product overflows.
pub open spec fn eur_minor_of(value_usd_minor: u128) -> Option<u128> {
    if value_usd_minor * EUR_MINOR_UNITS <= u128::MAX {
        Some(((value_usd_minor * EUR_MINOR_UNITS) / USD_MINOR_UNITS as int) as u128)
    } else {
        None
    }
}

/// Converts a USD value in minor units to the EUR reporting value.
pub fn usd_minor_to_eur_minor(value_usd_minor: u128) -> (r: Option<u128>)
    ensures
        r == eur_minor_of(value_usd_minor),
{
    match value_usd_minor.checked_mul(EUR_MINOR_UNITS) {
        Some(value) => Some(value / USD_MINOR_UNITS),
        None => None,
    }
}

/// At the demonstration rate a USD value converts to the same number of
/// EUR minor units.
pub proof fn law_parity_keeps_value(value_usd_minor: u128)
    ensures
        eur_minor_of(value_usd_minor) == Some(value_usd_minor),
{
}

} // verus!
