//! The HTTP API's own rules: request validation and the mapping of service
//! errors to HTTP answers. Routing and serialisation live with the server.

use crate::address::{normalize_address, normalized_address};
use crate::casp_reporting::is_date_shape;
use crate::copies::copy_opt_string;
use crate::monitors::PollingStatus;
use crate::errors::{
    casp_reporting_error_text, issuance_error_text, prefixed, redemption_error_text,
    reserve_adjustment_error_text, CaspReportingError, IssuanceError, RedemptionError,
    ReserveAdjustmentError,
};
use crate::text::{append_decimal, decimal_text, is_digit, parse_u64, trim, trimmed, u64_text_value};
use vstd::prelude::*;
use vstd::string::*;

verus! {

/// A request that failed validation, with the message for the client.
#[derive(Debug, Clone, PartialEq, Eq)]
pub struct ValidationError(pub String);

/// A positive integer amount in minor units, written in decimal.
pub open spec fn is_positive_minor_amount(value: Seq<char>) -> bool {
    u64_text_value(value) matches Some(v) && v > 0
}

/// Accepts a positive integer amount in minor units.
pub fn validate_minor_amount(name: &str, value: &str) -> (r: Result<(), ValidationError>)
    ensures
        r is Ok <==> is_positive_minor_amount(value@),
        r matches Err(e) ==> e.0@ == name@ + " musi być dodatnią liczbą całkowitą"@,
{
    match parse_u64(value) {
        Some(v) => if v > 0 {
            return Ok(());
        },
        None => {},
    }
    Err(ValidationError(prefixed_name(name, " musi być dodatnią liczbą całkowitą")))
}

fn prefixed_name(name: &str, rest: &str) -> (s: String)
    ensures
        s@ == name@ + rest@,
{
    prefixed(name, rest)
}

/// Accepts a `YYYY-MM-DD` shaped date.
pub fn validate_iso_date(field: &str, value: &str) -> (r: Result<(), ValidationError>)
    ensures
        r is Ok <==> is_date_shape(value@),
        r matches Err(e) ==> e.0@ == field@ + " musi mieć format RRRR-MM-DD"@,
{
    let n = value.unicode_len();
    let mut ok = n == 10;
    if ok {
        let mut i: usize = 0;
        while i < 10
            invariant
                n == value@.len(),
                n == 10,
                i <= 10,
                ok == (forall|j: int| 0 <= j < i ==> (if j == 4 || j == 7 {
                    value@[j] == '-'
                } else {
                    is_digit(value@[j])
                })),
            decreases 10 - i,
        {
            let c = value.get_char(i);
            let good = if i == 4 || i == 7 {
                c == '-'
            } else {
                '0' <= c && c <= '9'
            };
            ok = ok && good;
            i = i + 1;
        }
        assert(ok == is_date_shape(value@)) by {
            if ok {
                assert(value@[4] == '-');
                assert(value@[7] == '-');
            } else {
                let j = choose|j: int|
                    0 <= j < 10 && !(if j == 4 || j == 7 {
                        value@[j] == '-'
                    } else {
                        is_digit(value@[j])
                    });
                if j != 4 && j != 7 {
                    assert(!is_digit(value@[j]));
                }
            }
        }
    }
    if ok {
        Ok(())
    } else {
        Err(ValidationError(prefixed_name(field, " musi mieć format RRRR-MM-DD")))
    }
}

/// A reporting range query.
#[derive(Debug, Clone)]
pub struct CaspRangeQuery {
    pub from: String,
    pub to: String,
}

impl CaspRangeQuery {
    /// Both dates must be `YYYY-MM-DD` shaped; `from` is checked first.
    pub fn validate(&self) -> (r: Result<(), ValidationError>)
        ensures
            r is Ok <==> is_date_shape(self.from@) && is_date_shape(self.to@),
            r matches Err(e) ==> (if !is_date_shape(self.from@) {
                e.0@ == "from"@ + " musi mieć format RRRR-MM-DD"@
            } else {
                e.0@ == "to"@ + " musi mieć format RRRR-MM-DD"@
            }),
    {
        match validate_iso_date("from", self.from.as_str()) {
            Ok(()) => {},
            Err(e) => {
                return Err(e);
            },
        }
        validate_iso_date("to", self.to.as_str())
    }
}

/// A quarterly report query.
#[derive(Debug, Clone)]
pub struct QuarterQuery {
    pub year: i32,
    pub quarter: u8,
}

impl QuarterQuery {
    /// The quarter must be 1 to 4.
    pub fn validate(&self) -> (r: Result<(), ValidationError>)
        ensures
            r is Ok <==> 1 <= self.quarter <= 4,
            r matches Err(e) ==> e.0@ == "quarter musi należeć do zakresu 1–4"@,
    {
        if 1 <= self.quarter && self.quarter <= 4 {
            Ok(())
        } else {
            Err(ValidationError(String::from_str("quarter musi należeć do zakresu 1–4")))
        }
    }
}

/// A trimmed text field of 1 to `max_chars` characters.
pub struct ValidatedText {
    value: String,
}

impl View for ValidatedText {
    type V = Seq<char>;

    closed spec fn view(&self) -> Seq<char> {
        self.value@
    }
}

/// The message that rejects a text field.
pub open spec fn text_rule_message(field: Seq<char>, max_chars: nat) -> Seq<char> {
    field + " musi zawierać od 1 do "@ + decimal_text(max_chars) + " znaków"@
}

impl ValidatedText {
    /// Trims `value` and accepts it when it has 1 to `max_chars` characters
    /// (not bytes).
    pub fn parse(value: String, field: &str, max_chars: usize) -> (r: Result<ValidatedText, String>)
        ensures
            match r {
                Ok(t) => t@ == trimmed(value@) && 1 <= trimmed(value@).len() <= max_chars,
                Err(m) => !(1 <= trimmed(value@).len() <= max_chars) && m@ == text_rule_message(
                    field@,
                    max_chars as nat,
                ),
            },
    {
        let t = trim(value.as_str());
        let length = t.unicode_len();
        if length == 0 || length > max_chars {
            let mut m = String::from_str(field);
            m.append(" musi zawierać od 1 do ");
            append_decimal(&mut m, max_chars as u128);
            m.append(" znaków");
            proof {
                reveal_strlit(" musi zawierać od 1 do ");
                reveal_strlit(" znaków");
            }
            assert(m@ =~= text_rule_message(field@, max_chars as nat));
            return Err(m);
        }
        Ok(ValidatedText { value: String::from_str(t) })
    }

    /// The accepted text.
    pub fn as_str(&self) -> (s: &str)
        ensures
            s@ == self@,
    {
        self.value.as_str()
    }

    /// The accepted text, owned.
    pub fn into_string(self) -> (s: String)
        ensures
            s@ == self@,
    {
        self.value
    }
}

/// Field name and length limit of identifiers.
pub const GENERIC_ID_FIELD: &'static str = "identifier";

pub const GENERIC_ID_MAX_CHARS: usize = 128;

/// Field name and length limit of reasons.
pub const REASON_FIELD: &'static str = "reason";

pub const REASON_MAX_CHARS: usize = 500;

/// An identifier field: 1 to 128 characters after trimming.
pub fn parse_generic_id(value: String) -> (r: Result<ValidatedText, String>)
    ensures
        match r {
            Ok(t) => t@ == trimmed(value@) && 1 <= trimmed(value@).len() <= 128,
            Err(m) => !(1 <= trimmed(value@).len() <= 128) && m@ == text_rule_message(
                "identifier"@,
                128,
            ),
        },
{
    ValidatedText::parse(value, GENERIC_ID_FIELD, GENERIC_ID_MAX_CHARS)
}

/// A reason field: 1 to 500 characters after trimming.
pub fn parse_reason(value: String) -> (r: Result<ValidatedText, String>)
    ensures
        match r {
            Ok(t) => t@ == trimmed(value@) && 1 <= trimmed(value@).len() <= 500,
            Err(m) => !(1 <= trimmed(value@).len() <= 500) && m@ == text_rule_message("reason"@, 500),
        },
{
    ValidatedText::parse(value, REASON_FIELD, REASON_MAX_CHARS)
}

/// An Ethereum address field: the trimmed text must be an address; it is
/// kept in its checksum form.
pub fn parse_evm_address(value: String) -> (r: Result<String, String>)
    ensures
        match r {
            Ok(s) => normalized_address(trimmed(value@)) == Some(s@),
            Err(m) => normalized_address(trimmed(value@)) is None && m@
                == "adres musi być poprawnym adresem Ethereum"@,
        },
{
    match normalize_address(trim(value.as_str())) {
        Some(s) => Ok(s),
        None => Err(String::from_str("adres musi być poprawnym adresem Ethereum")),
    }
}

/// The kinds of HTTP error answer.
#[derive(Debug, Clone, PartialEq, Eq)]
pub enum ApiError {
    BadRequest(String),
    NotFound(String),
    Conflict(String),
    IssuanceBlocked(String),
    Unavailable(String),
    Internal(String),
}

/// The HTTP status of an error answer.
pub open spec fn api_status(e: ApiError) -> u16 {
    match e {
        ApiError::BadRequest(_) => 400,
        ApiError::NotFound(_) => 404,
        ApiError::Conflict(_) => 409,
        ApiError::IssuanceBlocked(_) => 409,
        ApiError::Unavailable(_) => 503,
        ApiError::Internal(_) => 500,
    }
}

impl ApiError {
    /// The HTTP status code.
    pub fn status_code(&self) -> (s: u16)
        ensures
            s == api_status(*self),
    {
        match self {
            ApiError::BadRequest(_) => 400,
            ApiError::NotFound(_) => 404,
            ApiError::Conflict(_) => 409,
            ApiError::IssuanceBlocked(_) => 409,
            ApiError::Unavailable(_) => 503,
            ApiError::Internal(_) => 500,
        }
    }

    /// The machine-readable error code.
    pub fn code(&self) -> (s: &'static str)
        ensures
            s@ == match *self {
                ApiError::BadRequest(_) => "bad_request"@,
                ApiError::NotFound(_) => "not_found"@,
                ApiError::Conflict(_) => "conflict"@,
                ApiError::IssuanceBlocked(_) => "issuance_blocked"@,
                ApiError::Unavailable(_) => "service_unavailable"@,
                ApiError::Internal(_) => "internal_error"@,
            },
    {
        match self {
            ApiError::BadRequest(_) => "bad_request",
            ApiError::NotFound(_) => "not_found",
            ApiError::Conflict(_) => "conflict",
            ApiError::IssuanceBlocked(_) => "issuance_blocked",
            ApiError::Unavailable(_) => "service_unavailable",
            ApiError::Internal(_) => "internal_error",
        }
    }

    /// The message shown to end users, only for blocked issuance.
    pub fn user_message(&self) -> (s: Option<&'static str>)
        ensures
            match *self {
                ApiError::IssuanceBlocked(_) => s matches Some(m) && m@
                    == "Emisja rUSD jest obecnie zablokowana przez emitenta."@,
                _ => s is None,
            },
    {
        match self {
            ApiError::IssuanceBlocked(_) => Some("Emisja rUSD jest obecnie zablokowana przez emitenta."),
            _ => None,
        }
    }

    /// The error text of the answer.
    pub fn message(&self) -> (s: &str)
        ensures
            s@ == match *self {
                ApiError::BadRequest(m) => m@,
                ApiError::NotFound(m) => m@,
                ApiError::Conflict(m) => m@,
                ApiError::IssuanceBlocked(m) => m@,
                ApiError::Unavailable(m) => m@,
                ApiError::Internal(m) => m@,
            },
    {
        match self {
            ApiError::BadRequest(m) => m.as_str(),
            ApiError::NotFound(m) => m.as_str(),
            ApiError::Conflict(m) => m.as_str(),
            ApiError::IssuanceBlocked(m) => m.as_str(),
            ApiError::Unavailable(m) => m.as_str(),
            ApiError::Internal(m) => m.as_str(),
        }
    }
}

/// The HTTP answer kind of an issuance failure.
pub open spec fn issuance_api_kind(e: IssuanceError) -> u16 {
    match e {
        IssuanceError::Invalid(_) => 400,
        IssuanceError::NotFound => 404,
        IssuanceError::IssuanceBlocked(_) => 409,
        IssuanceError::IdempotencyConflict | IssuanceError::FiatNotConfirmed
        | IssuanceError::BankMismatch | IssuanceError::SettlementInProgress => 409,
        IssuanceError::Bank(_) => 503,
        _ => 500,
    }
}

/// The HTTP answer to an issuance failure, carrying the failure's message.
pub fn api_error_from_issuance(e: IssuanceError) -> (r: ApiError)
    ensures
        api_status(r) == issuance_api_kind(e),
        (r is IssuanceBlocked) == (e is IssuanceBlocked),
        r.message_text() == issuance_error_text(e),
{
    let m = e.message();
    match e {
        IssuanceError::Invalid(_) => ApiError::BadRequest(m),
        IssuanceError::NotFound => ApiError::NotFound(m),
        IssuanceError::IssuanceBlocked(_) => ApiError::IssuanceBlocked(m),
        IssuanceError::IdempotencyConflict | IssuanceError::FiatNotConfirmed
        | IssuanceError::BankMismatch | IssuanceError::SettlementInProgress => ApiError::Conflict(m),
        IssuanceError::Bank(_) => ApiError::Unavailable(m),
        _ => ApiError::Internal(m),
    }
}

impl ApiError {
    /// The error text of the answer.
    pub open spec fn message_text(self) -> Seq<char> {
        match self {
            ApiError::BadRequest(m) => m@,
            ApiError::NotFound(m) => m@,
            ApiError::Conflict(m) => m@,
            ApiError::IssuanceBlocked(m) => m@,
            ApiError::Unavailable(m) => m@,
            ApiError::Internal(m) => m@,
        }
    }
}

/// The HTTP answer to a redemption failure, carrying the failure's message.
pub fn api_error_from_redemption(e: RedemptionError) -> (r: ApiError)
    ensures
        api_status(r) == match e {
            RedemptionError::Invalid(_) => 400u16,
            RedemptionError::NotFound => 404,
            RedemptionError::IdempotencyConflict => 409,
            _ => 500,
        },
        !(r is IssuanceBlocked),
        r.message_text() == redemption_error_text(e),
{
    let m = e.message();
    match e {
        RedemptionError::Invalid(_) => ApiError::BadRequest(m),
        RedemptionError::NotFound => ApiError::NotFound(m),
        RedemptionError::IdempotencyConflict => ApiError::Conflict(m),
        _ => ApiError::Internal(m),
    }
}

/// The HTTP answer to a reserve adjustment failure.
pub fn api_error_from_reserve_adjustment(e: ReserveAdjustmentError) -> (r: ApiError)
    ensures
        api_status(r) == match e {
            ReserveAdjustmentError::Invalid(_) => 400u16,
            ReserveAdjustmentError::Bank(_) => 503,
        },
        !(r is IssuanceBlocked),
        r.message_text() == reserve_adjustment_error_text(e),
{
    let m = e.message();
    match e {
        ReserveAdjustmentError::Invalid(_) => ApiError::BadRequest(m),
        ReserveAdjustmentError::Bank(_) => ApiError::Unavailable(m),
    }
}

/// The HTTP answer to a CASP reporting failure.
pub fn api_error_from_casp_reporting(e: CaspReportingError) -> (r: ApiError)
    ensures
        api_status(r) == match e {
            CaspReportingError::InvalidRange | CaspReportingError::SourceContract(_) => 400u16,
            CaspReportingError::Source(_) => 503,
            _ => 500,
        },
        !(r is IssuanceBlocked),
        r.message_text() == casp_reporting_error_text(e),
{
    let m = e.message();
    match e {
        CaspReportingError::InvalidRange | CaspReportingError::SourceContract(_) => ApiError::BadRequest(m),
        CaspReportingError::Source(_) => ApiError::Unavailable(m),
        _ => ApiError::Internal(m),
    }
}

/// The health answer: the time of the last successful poll while the
/// polling is healthy, else 503 with the polling error.
pub fn health_check(status: &PollingStatus) -> (r: Result<Option<u64>, ApiError>)
    ensures
        status.is_healthy ==> r == Ok::<Option<u64>, ApiError>(status.last_success_at_unix_ms),
        !status.is_healthy ==> (r matches Err(ApiError::Unavailable(m)) && m@ == match status.last_error {
            Some(e) => e@,
            None => "poller has no recent successful read"@,
        }),
{
    if status.is_healthy {
        return Ok(status.last_success_at_unix_ms);
    }
    match copy_opt_string(&status.last_error) {
        Some(e) => Err(ApiError::Unavailable(e)),
        None => Err(ApiError::Unavailable(String::from_str("poller has no recent successful read"))),
    }
}

} // verus!
