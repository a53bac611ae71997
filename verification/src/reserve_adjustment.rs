//! Manual reserve adjustments: the checks on an operator's request before
//! the bank is asked to move reserve funds.


use crate::errors::ReserveAdjustmentError;
use crate::issuance::valid_operation_id;
use crate::text::{
    all_digits, digit_value, digits_in, digits_value, is_digit, parse_u64, trim, trimmed,
};
use vstd::prelude::*;
use vstd::string::*;

verus! {

/// Whether reserve funds are added or taken out.
#[derive(Debug, Clone, Copy, PartialEq, Eq)]
pub enum ReserveAdjustmentDirection {
    Deposit,
    Withdrawal,
}

/// An operator's request to adjust the fiat reserve.
#[derive(Debug, Clone)]
pub struct AdjustReserve {
    pub operation_id: String,
    pub direction: ReserveAdjustmentDirection,
    pub amount_usd: String,
    pub reason: String,
}

/// A checked reserve adjustment, as it is handed to the bank.
#[derive(Debug, Clone)]
pub struct ReserveAdjustment {
    pub operation_id: String,
    pub direction: ReserveAdjustmentDirection,
    pub amount_minor: u64,
    pub reason: String,
}

/// A reason after trimming: 1 to 500 characters.
pub open spec fn valid_adjustment_reason(reason: Seq<char>) -> bool {
    reason.len() > 0 && reason.len() <= 500
}

/// The amount in cents that a trimmed text writes in dollars: digits,
/// optionally followed by a point and one or two more digits.
pub open spec fn dollar_text_cents(t: Seq<char>) -> Option<nat> {
    let n = t.len() as int;
    if n > 0 && all_digits(t) {
        Some(digits_value(t) * 100)
    } else if n >= 3 && t[n - 2] == '.' && all_digits(t.take(n - 2)) && is_digit(t[n - 1]) {
        Some(digits_value(t.take(n - 2)) * 100 + digit_value(t[n - 1]) * 10)
    } else if n >= 4 && t[n - 3] == '.' && all_digits(t.take(n - 3)) && is_digit(t[n - 2])
        && is_digit(t[n - 1]) {
        Some(digits_value(t.take(n - 3)) * 100 + digit_value(t[n - 2]) * 10 + digit_value(t[n - 1]))
    } else {
        None
    }
}

/// The positive amount in cents, fitting in a `u64`, that `text` writes
/// in dollars with at most two fractional digits, ignoring surrounding
/// whitespace.
pub open spec fn usd_minor_value(text: Seq<char>) -> Option<u64> {
    match dollar_text_cents(trimmed(text)) {
        Some(v) => if 0 < v <= u64::MAX {
            Some(v as u64)
        } else {
            None
        },
        None => None,
    }
}

/// `Invalid` carrying exactly `text`.
pub open spec fn is_invalid_adjustment(e: ReserveAdjustmentError, text: Seq<char>) -> bool {
    e matches ReserveAdjustmentError::Invalid(m) && m@ == text
}

/// The message of the amount error.
pub open spec fn invalid_amount_text() -> Seq<char> {
    "amountUsd must be a positive decimal with at most two fractional digits"@
}

fn invalid_amount() -> (e: ReserveAdjustmentError)
    ensures
        is_invalid_adjustment(e, invalid_amount_text()),
{
    ReserveAdjustmentError::Invalid(
        String::from_str("amountUsd must be a positive decimal with at most two fractional digits"),
    )
}

/// Reads a USD amount with at most two fractional digits as a positive
/// number of cents.
pub fn parse_usd_minor(value: &str) -> (r: Result<u64, ReserveAdjustmentError>)
    ensures
        match r {
            Ok(v) => usd_minor_value(value@) == Some(v),
            Err(e) => usd_minor_value(value@) is None && is_invalid_adjustment(
                e,
                invalid_amount_text(),
            ),
        },
{
    let t = trim(value);
    let n = t.unicode_len();
    let ghost tv = t@;
    let (whole_len, cents): (usize, u64) = if n > 0 && digits_in(t, 0, n) {
        assert(tv.subrange(0, n as int) =~= tv);
        (n, 0)
    } else if n >= 3 && t.get_char(n - 2) == '.' && digits_in(t, 0, n - 2) && digits_in(
        t,
        n - 1,
        n,
    ) {
        assert(tv.subrange(0, n - 2) =~= tv.take(n - 2));
        assert(tv.subrange(n - 1, n as int)[0] == tv[n - 1]);
        let c = t.get_char(n - 1);
        (n - 2, (c as u32 - '0' as u32) as u64 * 10)
    } else if n >= 4 && t.get_char(n - 3) == '.' && digits_in(t, 0, n - 3) && digits_in(
        t,
        n - 2,
        n,
    ) {
        assert(tv.subrange(0, n - 3) =~= tv.take(n - 3));
        assert(tv.subrange(n - 2, n as int)[0] == tv[n - 2]);
        assert(tv.subrange(n - 2, n as int)[1] == tv[n - 1]);
        let c1 = t.get_char(n - 2);
        let c2 = t.get_char(n - 1);
        (n - 3, (c1 as u32 - '0' as u32) as u64 * 10 + (c2 as u32 - '0' as u32) as u64)
    } else {
        proof {
            if n >= 3 && tv[n - 2] == '.' && all_digits(tv.take(n - 2)) {
                assert(tv.take(n - 2) =~= tv.subrange(0, n - 2));
                assert(!is_digit(tv[n - 1])) by {
                    assert(!all_digits(tv.subrange(n - 1, n as int)));
                    let j = choose|j: int|
                        0 <= j < 1 && !is_digit(#[trigger] tv.subrange(n - 1, n as int)[j]);
                    assert(tv.subrange(n - 1, n as int)[j] == tv[n - 1]);
                }
            }
            if n >= 4 && tv[n - 3] == '.' && all_digits(tv.take(n - 3)) {
                assert(tv.take(n - 3) =~= tv.subrange(0, n - 3));
                if is_digit(tv[n - 2]) && is_digit(tv[n - 1]) {
                    assert(all_digits(tv.subrange(n - 2, n as int))) by {
                        assert forall|j: int| 0 <= j < 2 implies is_digit(
                            #[trigger] tv.subrange(n - 2, n as int)[j],
                        ) by {
                            assert(tv.subrange(n - 2, n as int)[j] == tv[n - 2 + j]);
                        }
                    }
                }
            }
            if n > 0 {
                assert(tv.subrange(0, n as int) =~= tv);
            }
        }
        return Err(invalid_amount());
    };
    let whole = t.substring_char(0, whole_len);
    assert(whole@ =~= tv.take(whole_len as int));
    let dollars = match parse_u64(whole) {
        Some(d) => d,
        None => {
            assert(digits_value(whole@) > u64::MAX);
            return Err(invalid_amount());
        },
    };
    assert(dollars == digits_value(whole@));
    let amount = match dollars.checked_mul(100) {
        Some(v) => v.checked_add(cents),
        None => None,
    };
    match amount {
        Some(v) => if v > 0 {
            Ok(v)
        } else {
            Err(invalid_amount())
        },
        None => Err(invalid_amount()),
    }
}

/// The message of the `Invalid` error that rejects a reserve adjustment
/// request, `None` for a valid request.
pub open spec fn adjustment_request_error(command: AdjustReserve) -> Option<Seq<char>> {
    if !valid_operation_id(trimmed(command.operation_id@)) {
        Some("operationId must contain 1-128 characters"@)
    } else if !valid_adjustment_reason(trimmed(command.reason@)) {
        Some("reason must contain 1-500 characters"@)
    } else if usd_minor_value(command.amount_usd@) is None {
        Some(invalid_amount_text())
    } else {
        None
    }
}

/// Reserve adjustments through a bank gateway.
pub struct ReserveAdjustmentService<G> {
    pub gateway: G,
}

impl<G> ReserveAdjustmentService<G> {
    pub fn new(gateway: G) -> (service: Self)
        ensures
            service.gateway == gateway,
    {
        ReserveAdjustmentService { gateway }
    }

    /// Checks a request and turns it into the adjustment that the bank is
    /// asked to make: trimmed identifier and reason, amount in cents.
    pub fn prepare(&self, command: &AdjustReserve) -> (r: Result<
        ReserveAdjustment,
        ReserveAdjustmentError,
    >)
        ensures
            match r {
                Ok(adjustment) => {
                    &&& adjustment_request_error(*command) is None
                    &&& adjustment.operation_id@ == trimmed(command.operation_id@)
                    &&& adjustment.direction == command.direction
                    &&& usd_minor_value(command.amount_usd@) == Some(adjustment.amount_minor)
                    &&& adjustment.reason@ == trimmed(command.reason@)
                },
                Err(e) => adjustment_request_error(*command) matches Some(m) && is_invalid_adjustment(
                    e,
                    m,
                ),
            },
    {
        let operation_id = trim(command.operation_id.as_str());
        if operation_id.unicode_len() == 0 || operation_id.unicode_len() > 128 {
            return Err(
                ReserveAdjustmentError::Invalid(
                    String::from_str("operationId must contain 1-128 characters"),
                ),
            );
        }
        let reason = trim(command.reason.as_str());
        if reason.unicode_len() == 0 || reason.unicode_len() > 500 {
            return Err(
                ReserveAdjustmentError::Invalid(String::from_str("reason must contain 1-500 characters")),
            );
        }
        let amount_minor = match parse_usd_minor(command.amount_usd.as_str()) {
            Ok(v) => v,
            Err(e) => {
                return Err(e);
            },
        };
        Ok(ReserveAdjustment {
            operation_id: String::from_str(operation_id),
            direction: command.direction,
            amount_minor,
            reason: String::from_str(reason),
        })
    }
}

} // verus!
