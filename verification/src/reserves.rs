//! Reserve policy: the startup reserve target and the coverage of the token
//! supply by the fiat reserve.

use crate::clock::current_unix_ms;
use crate::domain::{BankReserve, CoverageRatio, CoverageStatus, ReserveCoverage};
use crate::errors::ReserveError;
use crate::money::{
    checked_pow10, format_decimal, format_difference, format_minor, minor_units_text,
    raw_units_text, signed_raw_units_text,
};
use crate::text::{
    decimal_string, decimal_text, lemma_pow10_monotone, parse_u128, pow10, text_eq,
    u128_text_value,
};
use vstd::prelude::*;

verus! {

/// `InvalidValue` carrying exactly `text`.
pub open spec fn is_invalid_value(e: ReserveError, text: Seq<char>) -> bool {
    e matches ReserveError::InvalidValue(m) && m@ == text
}

/// Ceiling of `a / b` for `b > 0`.
pub open spec fn div_ceil(a: nat, b: nat) -> nat {
    if a % b == 0 {
        a / b
    } else {
        a / b + 1
    }
}

/// The reserve target, in USD cents, that covers 110% of a token supply of
/// `raw` units with `decimals` decimals (one cent is `10^(decimals - 2)`
/// units), rounded up so that fractional cents never reduce coverage.
pub open spec fn reserve_target_cents(raw: nat, decimals: nat) -> nat {
    div_ceil(raw * 110, 100 * pow10((decimals - 2) as nat))
}

/// What `initial_reserve_target_minor` returns, as a predicate on its result.
pub open spec fn initial_reserve_target_result(
    supply_text: Seq<char>,
    decimals: u8,
    r: Result<u64, ReserveError>,
) -> bool {
    if decimals < 2 {
        r matches Err(e) && is_invalid_value(e, "token must expose at least two decimals"@)
    } else {
        match u128_text_value(supply_text) {
            None => r matches Err(e) && is_invalid_value(e, supply_text),
            Some(raw) => {
                let units = pow10((decimals - 2) as nat);
                if units > u128::MAX {
                    r matches Err(e) && is_invalid_value(e, "token decimals overflow"@)
                } else if raw * 110 > u128::MAX {
                    r matches Err(e) && is_invalid_value(e, "reserve target overflow"@)
                } else if 100 * units > u128::MAX {
                    r matches Err(e) && is_invalid_value(e, "reserve denominator overflow"@)
                } else if reserve_target_cents(raw as nat, decimals as nat) > u64::MAX {
                    r matches Err(e) && is_invalid_value(e, "reserve target exceeds demo range"@)
                } else {
                    r == Ok::<u64, ReserveError>(
                        reserve_target_cents(raw as nat, decimals as nat) as u64,
                    )
                }
            },
        }
    }
}

/// The reserve target is the least number of cents that covers 110% of the
/// supply: rounding up never leaves coverage short, and one cent less would.
pub proof fn law_reserve_target_is_least_covering(raw: nat, decimals: nat)
    requires
        decimals >= 2,
    ensures
        reserve_target_cents(raw, decimals) * (100 * pow10((decimals - 2) as nat)) >= raw * 110,
        reserve_target_cents(raw, decimals) == 0 || (reserve_target_cents(raw, decimals) - 1) * (100
            * pow10((decimals - 2) as nat)) < raw * 110,
{
    lemma_pow10_monotone(0, (decimals - 2) as nat);
    let a = raw * 110;
    let b = 100 * pow10((decimals - 2) as nat);
    assert(b > 0);
    let q = a / b;
    let r = a % b;
    assert(a == q * b + r && 0 <= r < b) by (nonlinear_arith)
        requires
            b > 0,
            q == a / b,
            r == a % b,
    ;
    if r == 0 {
        assert(reserve_target_cents(raw, decimals) == q);
        assert((q - 1) * b == q * b - b) by (nonlinear_arith);
    } else {
        assert(reserve_target_cents(raw, decimals) == q + 1);
        assert((q + 1) * b == q * b + b) by (nonlinear_arith);
    }
}

fn invalid_value(text: &str) -> (e: ReserveError)
    ensures
        is_invalid_value(e, text@),
{
    ReserveError::InvalidValue(String::from_str(text))
}

/// Returns the USD-cent reserve target for the explicit 110% demo policy.
/// Rounding is always upward so fractional cents never reduce coverage.
pub fn initial_reserve_target_minor(total_supply_raw: &str, decimals: u8) -> (r: Result<
    u64,
    ReserveError,
>)
    ensures
        initial_reserve_target_result(total_supply_raw@, decimals, r),
{
    if decimals < 2 {
        return Err(invalid_value("token must expose at least two decimals"));
    }
    let raw = match parse_u128(total_supply_raw) {
        Some(v) => v,
        None => return Err(invalid_value(total_supply_raw)),
    };
    let units_per_cent = match checked_pow10((decimals - 2) as u32) {
        Some(v) => v,
        None => return Err(invalid_value("token decimals overflow")),
    };
    let numerator = match raw.checked_mul(110) {
        Some(v) => v,
        None => return Err(invalid_value("reserve target overflow")),
    };
    let denominator = match 100u128.checked_mul(units_per_cent) {
        Some(v) => v,
        None => return Err(invalid_value("reserve denominator overflow")),
    };
    proof {
        lemma_pow10_monotone(0, (decimals - 2) as nat);
    }
    let quotient = numerator / denominator;
    let target = if numerator % denominator == 0 {
        quotient
    } else {
        quotient + 1
    };
    if target > u64::MAX as u128 {
        return Err(invalid_value("reserve target exceeds demo range"));
    }
    Ok(target as u64)
}

/// Raw token units held in reserve: `balance_minor` cents at `scale` raw
/// units per whole token.
pub open spec fn reserve_raw_units(balance_minor: nat, scale: nat) -> nat {
    balance_minor * scale / 100
}

/// The coverage fields computed from the parsed inputs.
pub open spec fn coverage_fields_hold(
    c: ReserveCoverage,
    supply_text: Seq<char>,
    decimals: u8,
    reserve: BankReserve,
    supply: nat,
    balance: nat,
) -> bool {
    let scale = pow10(decimals as nat);
    let reserve_raw = reserve_raw_units(balance, scale);
    &&& c.bank_as_of_unix_ms == reserve.as_of_unix_ms
    &&& c.reserve_account_id@ == reserve.account_id@
    &&& c.currency@ == reserve.currency@
    &&& c.reserve_balance_minor@ == decimal_text(balance)
    &&& c.reserve_balance_usd@ == minor_units_text(balance)
    &&& c.token_supply_raw@ == supply_text
    &&& c.liability_usd@ == raw_units_text(supply, decimals as nat)
    &&& c.surplus_usd@ == signed_raw_units_text(reserve_raw - supply, decimals as nat)
    &&& c.ratio == (if supply == 0 {
        None
    } else {
        Some(CoverageRatio { reserve_raw: reserve_raw as u128, supply_raw: supply as u128 })
    })
    &&& c.status == (if reserve_raw >= supply {
        CoverageStatus::Covered
    } else {
        CoverageStatus::Undercollateralized
    })
}

/// What `calculate_coverage` returns, apart from the observation time.
pub open spec fn coverage_result(
    supply_text: Seq<char>,
    decimals: u8,
    reserve: BankReserve,
    r: Result<ReserveCoverage, ReserveError>,
) -> bool {
    if reserve.currency@ != "USD"@ {
        r matches Err(ReserveError::Currency(m)) && m@ == reserve.currency@
    } else {
        match (u128_text_value(supply_text), u128_text_value(reserve.balance_minor@)) {
            (None, _) => r matches Err(e) && is_invalid_value(e, supply_text),
            (Some(_), None) => r matches Err(e) && is_invalid_value(e, reserve.balance_minor@),
            (Some(supply), Some(balance)) => {
                let scale = pow10(decimals as nat);
                if scale > u128::MAX {
                    r matches Err(e) && is_invalid_value(e, "token decimals overflow"@)
                } else if balance * scale > u128::MAX {
                    r matches Err(e) && is_invalid_value(e, "reserve conversion overflow"@)
                } else {
                    r matches Ok(c) && coverage_fields_hold(
                        c,
                        supply_text,
                        decimals,
                        reserve,
                        supply as nat,
                        balance as nat,
                    )
                }
            },
        }
    }
}

/// Computes reserve coverage observed at `observed_at_unix_ms`.
pub fn calculate_coverage_at(
    supply_raw: &str,
    decimals: u8,
    reserve: BankReserve,
    observed_at_unix_ms: u64,
) -> (r: Result<ReserveCoverage, ReserveError>)
    ensures
        coverage_result(supply_raw@, decimals, reserve, r),
        r matches Ok(c) ==> c.observed_at_unix_ms == observed_at_unix_ms,
{
    proof {
        reveal_strlit("USD");
    }
    if !text_eq(reserve.currency.as_str(), "USD") {
        return Err(ReserveError::Currency(reserve.currency));
    }
    let supply = match parse_u128(supply_raw) {
        Some(v) => v,
        None => return Err(invalid_value(supply_raw)),
    };
    let balance_minor = match parse_u128(reserve.balance_minor.as_str()) {
        Some(v) => v,
        None => return Err(invalid_value(reserve.balance_minor.as_str())),
    };
    let scale = match checked_pow10(decimals as u32) {
        Some(v) => v,
        None => return Err(invalid_value("token decimals overflow")),
    };
    let reserve_raw = match balance_minor.checked_mul(scale) {
        Some(v) => v / 100,
        None => return Err(invalid_value("reserve conversion overflow")),
    };
    let ratio = if supply == 0 {
        None
    } else {
        Some(CoverageRatio { reserve_raw, supply_raw: supply })
    };
    let status = if reserve_raw >= supply {
        CoverageStatus::Covered
    } else {
        CoverageStatus::Undercollateralized
    };
    let coverage = ReserveCoverage {
        observed_at_unix_ms,
        bank_as_of_unix_ms: reserve.as_of_unix_ms,
        reserve_account_id: reserve.account_id,
        currency: reserve.currency,
        reserve_balance_minor: decimal_string(balance_minor),
        reserve_balance_usd: format_minor(balance_minor),
        token_supply_raw: String::from_str(supply_raw),
        liability_usd: format_decimal(supply, scale, decimals as u32),
        surplus_usd: format_difference(reserve_raw, supply, scale, decimals as u32),
        ratio,
        status,
    };
    Ok(coverage)
}

/// Computes reserve coverage now.
pub fn calculate_coverage(supply_raw: &str, decimals: u8, reserve: BankReserve) -> (r: Result<
    ReserveCoverage,
    ReserveError,
>)
    ensures
        coverage_result(supply_raw@, decimals, reserve, r),
{
    calculate_coverage_at(supply_raw, decimals, reserve, current_unix_ms())
}

} // verus!
