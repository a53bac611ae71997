//! CASP activity reporting: calendar dates and quarters, the import contract
//! for daily aggregates, and the quarterly threshold assessment.

use crate::domain::{
    CaspDailyAggregate, CaspDailyReport, ClassificationAggregate, QuarterlyTransactionAssessment,
};
use crate::errors::{prefixed, CaspReportingError};
use crate::text::{
    all_digits, append_padded_decimal, decimal_string, decimal_text, digit_value, digits_value,
    digits_value_at, is_digit, lemma_padded_decimal_digits, padded_decimal_text, parse_u64, pow10,
    text_eq, text_less, text_lt, u64_text_value, law_decimal_round_trip, lemma_text_less_irreflexive,
    lemma_text_less_skip,
};
use vstd::prelude::*;
use vstd::string::*;

verus! {

/// Version tag of the quarterly threshold methodology.
pub const QUARTERLY_METHODOLOGY_VERSION: &'static str = "issuer-casp-quarterly-threshold-v1";

/// Average daily number of means-of-exchange transactions above which the
/// quarterly threshold is exceeded.
pub const DAILY_TRANSACTION_THRESHOLD: u64 = 1_000_000;

/// Average daily means-of-exchange value, in EUR cents, above which the
/// quarterly threshold is exceeded.
pub const DAILY_VALUE_THRESHOLD_EUR_MINOR: u64 = 20_000_000_000;

// ---------------------------------------------------------------------------
// Calendar dates
// ---------------------------------------------------------------------------

/// Gregorian leap year (also for years before zero).
pub open spec fn is_leap_year(year: int) -> bool {
    let a = if year < 0 {
        -year
    } else {
        year
    };
    a % 4 == 0 && (a % 100 != 0 || a % 400 == 0)
}

/// Number of days of `month` (1 to 12) in `year`; zero for any other month.
pub open spec fn days_in_month(year: int, month: int) -> int {
    if month == 1 || month == 3 || month == 5 || month == 7 || month == 8 || month == 10 || month
        == 12 {
        31
    } else if month == 4 || month == 6 || month == 9 || month == 11 {
        30
    } else if month == 2 {
        if is_leap_year(year) {
            29
        } else {
            28
        }
    } else {
        0
    }
}

/// `YYYY-MM-DD` made of ASCII digits and two hyphens.
pub open spec fn is_date_shape(s: Seq<char>) -> bool {
    &&& s.len() == 10
    &&& s[4] == '-'
    &&& s[7] == '-'
    &&& forall|i: int| 0 <= i < 10 && i != 4 && i != 7 ==> is_digit(#[trigger] s[i])
}

/// A `YYYY-MM-DD` text naming a day that exists in the Gregorian calendar.
pub open spec fn is_calendar_date(s: Seq<char>) -> bool {
    is_date_shape(s) && {
        let year = digits_value(s.subrange(0, 4)) as int;
        let month = digits_value(s.subrange(5, 7)) as int;
        let day = digits_value(s.subrange(8, 10)) as int;
        1 <= day <= days_in_month(year, month)
    }
}

fn leap_year(year_abs: u64) -> (r: bool)
    ensures
        r == is_leap_year(year_abs as int),
{
    year_abs % 4 == 0 && (year_abs % 100 != 0 || year_abs % 400 == 0)
}

fn month_length(year_abs: u64, month: u64) -> (r: u64)
    ensures
        r == days_in_month(year_abs as int, month as int),
{
    if month == 1 || month == 3 || month == 5 || month == 7 || month == 8 || month == 10 || month
        == 12 {
        31
    } else if month == 4 || month == 6 || month == 9 || month == 11 {
        30
    } else if month == 2 {
        if leap_year(year_abs) {
            29
        } else {
            28
        }
    } else {
        0
    }
}

/// `value` is a `YYYY-MM-DD` date that exists in the calendar.
pub fn valid_date(value: &str) -> (r: bool)
    ensures
        r == is_calendar_date(value@),
{
    let n = value.unicode_len();
    if n != 10 {
        return false;
    }
    let mut i: usize = 0;
    while i < 10
        invariant
            n == value@.len(),
            n == 10,
            i <= 10,
            forall|j: int| 0 <= j < i && j != 4 && j != 7 ==> is_digit(#[trigger] value@[j]),
        decreases 10 - i,
    {
        if i != 4 && i != 7 {
            let c = value.get_char(i);
            if !('0' <= c && c <= '9') {
                assert(!is_date_shape(value@));
                return false;
            }
        }
        i = i + 1;
    }
    if value.get_char(4) != '-' || value.get_char(7) != '-' {
        return false;
    }
    assert(is_date_shape(value@));
    assert(all_digits(value@.subrange(0, 4)));
    assert(all_digits(value@.subrange(5, 7)));
    assert(all_digits(value@.subrange(8, 10)));
    let year = digits_value_at(value, 0, 4);
    let month = digits_value_at(value, 5, 2);
    let day = digits_value_at(value, 8, 2);
    let maximum = month_length(year, month);
    day > 0 && day <= maximum
}

/// The range checked before any CASP call: two calendar dates, `from`
/// not after `to`.
pub open spec fn is_valid_range(from: Seq<char>, to: Seq<char>) -> bool {
    is_calendar_date(from) && is_calendar_date(to) && !text_less(to, from)
}

/// Accepts a reporting range of two calendar dates in order.
pub fn validate_range(from: &str, to: &str) -> (r: Result<(), CaspReportingError>)
    ensures
        r is Ok <==> is_valid_range(from@, to@),
        r is Err ==> r == Err::<(), CaspReportingError>(CaspReportingError::InvalidRange),
{
    if valid_date(from) && valid_date(to) && !text_lt(to, from) {
        Ok(())
    } else {
        Err(CaspReportingError::InvalidRange)
    }
}

// ---------------------------------------------------------------------------
// Quarters
// ---------------------------------------------------------------------------

/// `year` as `{:04}` writes it: zero-padded to four characters, a minus
/// sign counted among them.
pub open spec fn year_text(year: int) -> Seq<char> {
    if year >= 0 {
        padded_decimal_text(year as nat, 4)
    } else {
        seq!['-'] + padded_decimal_text((-year) as nat, 3)
    }
}

/// `-MM-DD`.
pub open spec fn month_day_text(month: nat, day: nat) -> Seq<char> {
    seq!['-'] + padded_decimal_text(month, 2) + seq!['-'] + padded_decimal_text(day, 2)
}

/// First month of quarter `q`.
pub open spec fn quarter_first_month(q: int) -> int {
    3 * q - 2
}

/// Last month of quarter `q`.
pub open spec fn quarter_last_month(q: int) -> int {
    3 * q
}

/// The first day of quarter `q` of `year`, as `YYYY-MM-DD`.
pub open spec fn quarter_start_text(year: int, q: int) -> Seq<char> {
    year_text(year) + month_day_text(quarter_first_month(q) as nat, 1)
}

/// The last day of quarter `q` of `year`, as `YYYY-MM-DD`.
pub open spec fn quarter_end_text(year: int, q: int) -> Seq<char> {
    year_text(year) + month_day_text(
        quarter_last_month(q) as nat,
        days_in_month(year, quarter_last_month(q)) as nat,
    )
}

/// Number of calendar days of quarter `q` of `year`.
pub open spec fn quarter_days(year: int, q: int) -> int {
    days_in_month(year, 3 * q - 2) + days_in_month(year, 3 * q - 1) + days_in_month(year, 3 * q)
}

fn append_year(out: &mut String, year: i32)
    ensures
        final(out)@ == old(out)@ + year_text(year as int),
{
    if year >= 0 {
        append_padded_decimal(out, year as u128, 4);
    } else {
        out.append("-");
        proof {
            reveal_strlit("-");
        }
        let magnitude = (0i64 - year as i64) as u128;
        append_padded_decimal(out, magnitude, 3);
        assert(final(out)@ =~= old(out)@ + year_text(year as int));
    }
}

fn append_month_day(out: &mut String, month: u64, day: u64)
    ensures
        final(out)@ == old(out)@ + month_day_text(month as nat, day as nat),
{
    proof {
        reveal_strlit("-");
    }
    out.append("-");
    append_padded_decimal(out, month as u128, 2);
    out.append("-");
    append_padded_decimal(out, day as u128, 2);
    assert(final(out)@ =~= old(out)@ + month_day_text(month as nat, day as nat));
}

fn year_magnitude(year: i32) -> (a: u64)
    ensures
        a as int == (if year < 0 {
            -(year as int)
        } else {
            year as int
        }),
{
    if year < 0 {
        (0i64 - year as i64) as u64
    } else {
        year as u64
    }
}

/// The first day, the last day and the number of days of quarter
/// `quarter` of `year`.
pub fn quarter_range(year: i32, quarter: u8) -> (r: Result<(String, String, u64), CaspReportingError>)
    ensures
        match r {
            Ok((from, to, days)) => {
                &&& 1 <= quarter <= 4
                &&& from@ == quarter_start_text(year as int, quarter as int)
                &&& to@ == quarter_end_text(year as int, quarter as int)
                &&& days == quarter_days(year as int, quarter as int)
            },
            Err(e) => !(1 <= quarter <= 4) && e == CaspReportingError::InvalidRange,
        },
{
    if quarter < 1 || quarter > 4 {
        return Err(CaspReportingError::InvalidRange);
    }
    let a = year_magnitude(year);
    let q = quarter as u64;
    let first_month = 3 * q - 2;
    let last_month = 3 * q;
    proof {
        assert(is_leap_year(year as int) == is_leap_year(a as int));
    }
    let mut from = String::new();
    append_year(&mut from, year);
    append_month_day(&mut from, first_month, 1);
    let last_day = month_length(a, last_month);
    let mut to = String::new();
    append_year(&mut to, year);
    append_month_day(&mut to, last_month, last_day);
    let days = month_length(a, first_month) + month_length(a, first_month + 1) + last_day;
    assert(from@ =~= quarter_start_text(year as int, quarter as int));
    assert(to@ =~= quarter_end_text(year as int, quarter as int));
    Ok((from, to, days))
}

/// `from` and `to` are the first and last day of quarter `q` of `year`,
/// for a year that `{:04}` writes in four characters.
pub open spec fn is_quarter_range(from: Seq<char>, to: Seq<char>, year: int, q: int) -> bool {
    &&& -999 <= year <= 9999
    &&& 1 <= q <= 4
    &&& from == quarter_start_text(year, q)
    &&& to == quarter_end_text(year, q)
}

proof fn lemma_year_text(year: int)
    requires
        -999 <= year <= 9999,
    ensures
        year_text(year).len() == 4,
        year >= 0 ==> all_digits(year_text(year)) && digits_value(year_text(year)) == year,
        year < 0 ==> year_text(year)[0] == '-' && all_digits(year_text(year).subrange(1, 4))
            && digits_value(year_text(year).subrange(1, 4)) == -year,
{
    reveal_with_fuel(pow10, 5);
    if year >= 0 {
        lemma_padded_decimal_digits(year as nat, 4);
    } else {
        lemma_padded_decimal_digits((-year) as nat, 3);
        assert(year_text(year).subrange(1, 4) =~= padded_decimal_text((-year) as nat, 3));
    }
}

/// The year that the first four characters of `text` write, when they are
/// four digits or a minus sign and three digits.
fn leading_year(text: &str) -> (r: Option<i32>)
    ensures
        forall|y: int|
            -999 <= y <= 9999 && text@.len() >= 4 && #[trigger] year_text(y) == text@.subrange(0, 4)
                ==> r == Some(y as i32),
        r matches Some(y) ==> -999 <= y <= 9999,
{
    let n = text.unicode_len();
    if n < 4 {
        return None;
    }
    let first = text.get_char(0);
    let ghost head = text@.subrange(0, 4);
    if first == '-' {
        let mut i: usize = 1;
        while i < 4
            invariant
                n == text@.len(),
                n >= 4,
                1 <= i <= 4,
                text@[0] == '-',
                head == text@.subrange(0, 4),
                forall|j: int| 1 <= j < i ==> is_digit(#[trigger] text@[j]),
            decreases 4 - i,
        {
            let c = text.get_char(i);
            if !('0' <= c && c <= '9') {
                proof {
                    assert forall|y: int|
                        -999 <= y <= 9999 && #[trigger] year_text(y) == head implies false by {
                        lemma_year_text(y);
                        assert(head[0] == text@[0]);
                        if y >= 0 {
                            assert(is_digit(year_text(y)[0]));
                        } else {
                            assert(year_text(y).subrange(1, 4)[i - 1] == head[i as int]);
                            assert(is_digit(year_text(y).subrange(1, 4)[i - 1]));
                            assert(head[i as int] == text@[i as int]);
                        }
                    }
                }
                return None;
            }
            i = i + 1;
        }
        assert(all_digits(text@.subrange(1, 4)));
        let magnitude = digits_value_at(text, 1, 3);
        proof {
            reveal_with_fuel(pow10, 4);
            assert(magnitude < 1000) by {
                crate::text::lemma_digits_value_below_pow10(text@.subrange(1, 4));
            }
            assert forall|y: int|
                -999 <= y <= 9999 && #[trigger] year_text(y) == head implies y == -(
                magnitude as int) by {
                lemma_year_text(y);
                if y >= 0 {
                    assert(is_digit(year_text(y)[0]));
                } else {
                    assert(year_text(y).subrange(1, 4) =~= text@.subrange(1, 4));
                }
            }
        }
        Some(0i32 - magnitude as i32)
    } else {
        let mut i: usize = 0;
        while i < 4
            invariant
                n == text@.len(),
                n >= 4,
                i <= 4,
                text@[0] != '-',
                head == text@.subrange(0, 4),
                forall|j: int| 0 <= j < i ==> is_digit(#[trigger] text@[j]),
            decreases 4 - i,
        {
            let c = text.get_char(i);
            if !('0' <= c && c <= '9') {
                proof {
                    assert forall|y: int|
                        -999 <= y <= 9999 && #[trigger] year_text(y) == head implies false by {
                        lemma_year_text(y);
                        assert(head[i as int] == text@[i as int]);
                        assert(head[0] == text@[0]);
                        if y >= 0 {
                            assert(is_digit(year_text(y)[i as int]));
                        } else {
                            assert(year_text(y)[0] == head[0]);
                        }
                    }
                }
                return None;
            }
            i = i + 1;
        }
        assert(all_digits(text@.subrange(0, 4)));
        let value = digits_value_at(text, 0, 4);
        proof {
            reveal_with_fuel(pow10, 5);
            assert(value < 10000) by {
                crate::text::lemma_digits_value_below_pow10(text@.subrange(0, 4));
            }
            assert forall|y: int|
                -999 <= y <= 9999 && #[trigger] year_text(y) == head implies y == value as int by {
                lemma_year_text(y);
                if y < 0 {
                    assert(year_text(y)[0] == head[0]);
                }
            }
        }
        Some(value as i32)
    }
}

/// The year and quarter whose first and last day `from` and `to` are.
pub fn exact_quarter(from: &str, to: &str) -> (r: Option<(i32, u8)>)
    ensures
        match r {
            Some((year, q)) => is_quarter_range(from@, to@, year as int, q as int),
            None => forall|year: int, q: int| !is_quarter_range(from@, to@, year, q),
        },
{
    let year = match leading_year(from) {
        Some(y) => y,
        None => {
            proof {
                assert forall|y: int, q: int| !is_quarter_range(from@, to@, y, q) by {
                    if is_quarter_range(from@, to@, y, q) {
                        lemma_year_text(y);
                        assert(from@.subrange(0, 4) =~= year_text(y));
                    }
                }
            }
            return None;
        },
    };
    let mut q: u8 = 1;
    while q <= 4
        invariant
            1 <= q <= 5,
            -999 <= year <= 9999,
            forall|y: int|
                -999 <= y <= 9999 && from@.len() >= 4 && #[trigger] year_text(y) == from@.subrange(0, 4)
                    ==> year == y,
            forall|p: int| 1 <= p < q ==> !is_quarter_range(from@, to@, year as int, p),
        decreases 5 - q,
    {
        match quarter_range(year, q) {
            Ok((start, end, _)) => {
                if text_eq(start.as_str(), from) && text_eq(end.as_str(), to) {
                    return Some((year, q));
                }
            },
            Err(_) => {},
        }
        q = q + 1;
    }
    proof {
        assert forall|y: int, p: int| !is_quarter_range(from@, to@, y, p) by {
            if is_quarter_range(from@, to@, y, p) {
                lemma_year_text(y);
                assert(from@.subrange(0, 4) =~= year_text(y));
                assert(y == year);
            }
        }
    }
    None
}

// ---------------------------------------------------------------------------
// Quarterly assessment
// ---------------------------------------------------------------------------

/// Total means-of-exchange transaction count of `days`.
pub open spec fn count_total(days: Seq<CaspDailyAggregate>) -> nat
    decreases days.len(),
{
    if days.len() == 0 {
        0
    } else {
        count_total(days.drop_last()) + days.last().means_of_exchange_count as nat
    }
}

/// The outcome of adding up the EUR values of a run of days in order.
#[derive(Debug, Clone, Copy, PartialEq, Eq)]
pub enum EurSum {
    /// Every value is a decimal `u64` and the sum fits in a `u64`.
    Total(u64),
    /// A value is not a decimal `u64`, before the sum overflowed.
    InvalidValue,
    /// The running sum overflowed a `u64` before any invalid value.
    Overflow,
}

/// Adding up `means_of_exchange_value_eur_minor` day by day, stopping at
/// the first invalid value or overflow.
pub open spec fn eur_sum(days: Seq<CaspDailyAggregate>) -> EurSum
    decreases days.len(),
{
    if days.len() == 0 {
        EurSum::Total(0)
    } else {
        match eur_sum(days.drop_last()) {
            EurSum::Total(sum) => match u64_text_value(
                days.last().means_of_exchange_value_eur_minor@,
            ) {
                None => EurSum::InvalidValue,
                Some(v) => if sum + v > u64::MAX {
                    EurSum::Overflow
                } else {
                    EurSum::Total((sum + v) as u64)
                },
            },
            failure => failure,
        }
    }
}

/// Both quarterly thresholds are exceeded on average over `calendar_days`:
/// more than `DAILY_TRANSACTION_THRESHOLD` transactions and more than
/// `DAILY_VALUE_THRESHOLD_EUR_MINOR` EUR cents a day.
pub open spec fn thresholds_exceeded(count: int, value_eur_minor: int, calendar_days: int) -> bool {
    &&& count > DAILY_TRANSACTION_THRESHOLD * calendar_days
    &&& value_eur_minor > DAILY_VALUE_THRESHOLD_EUR_MINOR * calendar_days
}

/// The fields of the assessment of quarter `quarter` of `year` from `days`
/// and the completeness of the imported range, for EUR total `value`.
pub open spec fn assessment_fields(
    a: QuarterlyTransactionAssessment,
    year: i32,
    quarter: u8,
    days: Seq<CaspDailyAggregate>,
    complete: bool,
    value: u64,
) -> bool {
    let calendar_days = quarter_days(year as int, quarter as int);
    let count = count_total(days);
    let breached = thresholds_exceeded(count as int, value as int, calendar_days);
    &&& a.year == year
    &&& a.quarter == quarter
    &&& a.from_date_utc@ == quarter_start_text(year as int, quarter as int)
    &&& a.to_date_utc@ == quarter_end_text(year as int, quarter as int)
    &&& a.calendar_day_count == calendar_days
    &&& a.imported_activity_day_count == days.len()
    &&& a.complete_source_range == complete
    &&& a.means_of_exchange_operation_count == count
    &&& a.means_of_exchange_value_eur_minor@ == decimal_text(value as nat)
    &&& a.transaction_count_threshold == DAILY_TRANSACTION_THRESHOLD
    &&& a.transaction_value_threshold_eur@ == decimal_text((DAILY_VALUE_THRESHOLD_EUR_MINOR / 100) as nat)
    &&& a.threshold_breached == breached
    &&& a.threshold_enforceable == (complete && breached)
    &&& a.methodology_version@ == QUARTERLY_METHODOLOGY_VERSION@
}

/// What assessing quarter `quarter` of `year` gives from the imported
/// `days` and the completeness of the imported range.
pub open spec fn quarter_assessment(
    r: Result<QuarterlyTransactionAssessment, CaspReportingError>,
    year: i32,
    quarter: u8,
    days: Seq<CaspDailyAggregate>,
    complete: bool,
) -> bool {
    if !(1 <= quarter <= 4) {
        r == Err::<QuarterlyTransactionAssessment, CaspReportingError>(
            CaspReportingError::InvalidRange,
        )
    } else if count_total(days) > u64::MAX {
        r == Err::<QuarterlyTransactionAssessment, CaspReportingError>(CaspReportingError::Overflow)
    } else {
        match eur_sum(days) {
            EurSum::InvalidValue => r matches Err(CaspReportingError::SourceContract(m)) && m@
                == "invalid EUR value"@,
            EurSum::Overflow => r == Err::<QuarterlyTransactionAssessment, CaspReportingError>(
                CaspReportingError::Overflow,
            ),
            EurSum::Total(value) => r matches Ok(a) && assessment_fields(
                a,
                year,
                quarter,
                days,
                complete,
                value,
            ),
        }
    }
}

/// A quarter is breached only when, averaged over its calendar days, both
/// the transaction count and the EUR value exceed their daily thresholds;
/// either one alone is no breach. Only a complete range makes a breach
/// enforceable.
pub proof fn law_breach_needs_both_thresholds(
    a: QuarterlyTransactionAssessment,
    year: i32,
    quarter: u8,
    days: Seq<CaspDailyAggregate>,
    complete: bool,
)
    requires
        quarter_assessment(
            Ok::<QuarterlyTransactionAssessment, CaspReportingError>(a),
            year,
            quarter,
            days,
            complete,
        ),
    ensures
        eur_sum(days) is Total,
        a.threshold_breached <==> (count_total(days) > DAILY_TRANSACTION_THRESHOLD * quarter_days(
            year as int,
            quarter as int,
        ) && eur_sum(days)->Total_0 > DAILY_VALUE_THRESHOLD_EUR_MINOR * quarter_days(
            year as int,
            quarter as int,
        )),
        a.threshold_enforceable <==> (complete && a.threshold_breached),
{
}

proof fn lemma_count_total_prefix(days: Seq<CaspDailyAggregate>, i: int)
    requires
        0 <= i <= days.len(),
    ensures
        count_total(days.take(i)) <= count_total(days),
    decreases days.len() - i,
{
    if i < days.len() {
        lemma_count_total_prefix(days, i + 1);
        assert(days.take(i + 1).drop_last() =~= days.take(i));
    } else {
        assert(days.take(i) =~= days);
    }
}

/// The total means-of-exchange count, `None` when it overflows a `u64`.
fn sum_counts(days: &Vec<CaspDailyAggregate>) -> (r: Option<u64>)
    ensures
        match r {
            Some(c) => c == count_total(days@),
            None => count_total(days@) > u64::MAX,
        },
{
    let mut total: u64 = 0;
    let mut i: usize = 0;
    while i < days.len()
        invariant
            i <= days@.len(),
            total == count_total(days@.take(i as int)),
        decreases days@.len() - i,
    {
        assert(days@.take(i + 1).drop_last() =~= days@.take(i as int));
        match total.checked_add(days[i].means_of_exchange_count) {
            Some(t) => {
                total = t;
            },
            None => {
                proof {
                    lemma_count_total_prefix(days@, i + 1);
                }
                return None;
            },
        }
        i = i + 1;
    }
    assert(days@.take(days@.len() as int) =~= days@);
    Some(total)
}

proof fn lemma_eur_sum_stops(days: Seq<CaspDailyAggregate>, i: int)
    requires
        0 <= i <= days.len(),
        !(eur_sum(days.take(i)) is Total),
    ensures
        eur_sum(days) == eur_sum(days.take(i)),
    decreases days.len() - i,
{
    if i < days.len() {
        assert(days.take(i + 1).drop_last() =~= days.take(i));
        lemma_eur_sum_stops(days, i + 1);
    } else {
        assert(days.take(i) =~= days);
    }
}

/// Adds up the EUR values of `days` in order.
fn sum_eur_values(days: &Vec<CaspDailyAggregate>) -> (r: EurSum)
    ensures
        r == eur_sum(days@),
{
    let mut total: u64 = 0;
    let mut i: usize = 0;
    while i < days.len()
        invariant
            i <= days@.len(),
            eur_sum(days@.take(i as int)) == EurSum::Total(total),
        decreases days@.len() - i,
    {
        assert(days@.take(i + 1).drop_last() =~= days@.take(i as int));
        assert(days@.take(i + 1).last() == days@[i as int]);
        let step = match parse_u64(days[i].means_of_exchange_value_eur_minor.as_str()) {
            None => EurSum::InvalidValue,
            Some(v) => match total.checked_add(v) {
                Some(t) => EurSum::Total(t),
                None => EurSum::Overflow,
            },
        };
        match step {
            EurSum::Total(t) => {
                total = t;
            },
            _ => {
                proof {
                    lemma_eur_sum_stops(days@, i + 1);
                }
                return step;
            },
        }
        i = i + 1;
    }
    assert(days@.take(days@.len() as int) =~= days@);
    EurSum::Total(total)
}

/// The quarterly threshold assessment of quarter `quarter` of `year` from
/// the days imported for it and whether the whole quarter was imported.
pub fn assess_quarter(
    year: i32,
    quarter: u8,
    days: &Vec<CaspDailyAggregate>,
    complete: bool,
) -> (r: Result<QuarterlyTransactionAssessment, CaspReportingError>)
    ensures
        quarter_assessment(r, year, quarter, days@, complete),
{
    let (from, to, calendar_days) = match quarter_range(year, quarter) {
        Ok(range) => range,
        Err(e) => {
            return Err(e);
        },
    };
    let count = match sum_counts(days) {
        Some(c) => c,
        None => {
            return Err(CaspReportingError::Overflow);
        },
    };
    let value = match sum_eur_values(days) {
        EurSum::Total(v) => v,
        EurSum::InvalidValue => {
            return Err(CaspReportingError::SourceContract(String::from_str("invalid EUR value")));
        },
        EurSum::Overflow => {
            return Err(CaspReportingError::Overflow);
        },
    };
    let breached = count as u128 > DAILY_TRANSACTION_THRESHOLD as u128 * calendar_days as u128
        && value as u128 > DAILY_VALUE_THRESHOLD_EUR_MINOR as u128 * calendar_days as u128;
    Ok(QuarterlyTransactionAssessment {
        year,
        quarter,
        from_date_utc: from,
        to_date_utc: to,
        calendar_day_count: calendar_days,
        imported_activity_day_count: days.len() as u64,
        complete_source_range: complete,
        means_of_exchange_operation_count: count,
        means_of_exchange_value_eur_minor: decimal_string(value as u128),
        transaction_count_threshold: DAILY_TRANSACTION_THRESHOLD,
        transaction_value_threshold_eur: decimal_string((DAILY_VALUE_THRESHOLD_EUR_MINOR / 100) as u128),
        threshold_breached: breached,
        threshold_enforceable: complete && breached,
        methodology_version: String::from_str(QUARTERLY_METHODOLOGY_VERSION),
    })
}

/// A quarter assessed on incomplete evidence never restricts issuance.
pub proof fn law_incomplete_range_not_enforceable(
    r: Result<QuarterlyTransactionAssessment, CaspReportingError>,
    year: i32,
    quarter: u8,
    days: Seq<CaspDailyAggregate>,
)
    requires
        quarter_assessment(r, year, quarter, days, false),
    ensures
        r matches Ok(a) ==> !a.threshold_enforceable,
{
}

// ---------------------------------------------------------------------------
// Import contract
// ---------------------------------------------------------------------------

/// A daily aggregate that the rUSD reporting contract admits into the range
/// `from`..=`to`.
pub open spec fn day_meets_contract(day: CaspDailyAggregate, from: Seq<char>, to: Seq<char>) -> bool {
    &&& day.asset_symbol@ == "rUSD"@
    &&& day.currency_area@ == "USD"@
    &&& day.conversion_methodology@ == "demo-usd-eur-parity-v1"@
    &&& !text_less(day.date_utc@, from)
    &&& !text_less(to, day.date_utc@)
}

/// Every aggregate of `days` meets the reporting contract for the range.
pub open spec fn days_meet_contract(days: Seq<CaspDailyAggregate>, from: Seq<char>, to: Seq<char>) -> bool {
    forall|i: int| 0 <= i < days.len() ==> day_meets_contract(#[trigger] days[i], from, to)
}

/// `SourceContract` carrying exactly `text`.
pub open spec fn is_source_contract(e: CaspReportingError, text: Seq<char>) -> bool {
    e matches CaspReportingError::SourceContract(m) && m@ == text
}

/// Checks every aggregate of a report against the rUSD reporting contract.
pub fn check_report_days(from: &str, to: &str, days: &Vec<CaspDailyAggregate>) -> (r: Result<
    (),
    CaspReportingError,
>)
    ensures
        r is Ok <==> days_meet_contract(days@, from@, to@),
        r matches Err(e) ==> is_source_contract(
            e,
            "CASP aggregate violates the rUSD reporting contract"@,
        ),
{
    let mut i: usize = 0;
    while i < days.len()
        invariant
            i <= days@.len(),
            forall|j: int| 0 <= j < i ==> day_meets_contract(#[trigger] days@[j], from@, to@),
        decreases days@.len() - i,
    {
        let day = &days[i];
        if !text_eq(day.asset_symbol.as_str(), "rUSD") || !text_eq(day.currency_area.as_str(), "USD")
            || !text_eq(day.conversion_methodology.as_str(), "demo-usd-eur-parity-v1") || text_lt(
            day.date_utc.as_str(),
            from,
        ) || text_lt(to, day.date_utc.as_str()) {
            assert(!day_meets_contract(days@[i as int], from@, to@));
            return Err(
                CaspReportingError::SourceContract(
                    String::from_str("CASP aggregate violates the rUSD reporting contract"),
                ),
            );
        }
        i = i + 1;
    }
    Ok(())
}

// ---------------------------------------------------------------------------
// Demonstration threshold breach
// ---------------------------------------------------------------------------

/// The synthetic quarter-total aggregate of the demonstration: one day
/// dated `date` carrying `count` transactions worth `value_minor` cents
/// (`raw` token units), all used as a means of exchange.
pub open spec fn is_demo_day(
    day: CaspDailyAggregate,
    date: Seq<char>,
    count: int,
    value_minor: int,
    raw: int,
) -> bool {
    &&& day.date_utc@ == date
    &&& day.asset_symbol@ == "rUSD"@
    &&& day.currency_area@ == "USD"@
    &&& day.total_operation_count == count
    &&& day.total_value_raw@ == decimal_text(raw as nat)
    &&& day.total_value_usd_minor@ == decimal_text(value_minor as nat)
    &&& day.means_of_exchange_count == count
    &&& day.means_of_exchange_value_raw@ == decimal_text(raw as nat)
    &&& day.means_of_exchange_value_usd_minor@ == decimal_text(value_minor as nat)
    &&& day.means_of_exchange_value_eur_minor@ == decimal_text(value_minor as nat)
    &&& day.excluded_operation_count == 0
    &&& day.known_onchain_overlap_count == 0
    &&& day.known_onchain_overlap_value_raw@ == decimal_text(0)
    &&& day.classifications@.len() == 1
    &&& day.classifications@[0].classification@ == "goods_or_services"@
    &&& day.classifications@[0].operation_count == count
    &&& day.classifications@[0].value_raw@ == decimal_text(raw as nat)
    &&& day.methodology_version@ == "casp-daily-activity-v1-demo-threshold-seed"@
    &&& day.conversion_methodology@ == "demo-usd-eur-parity-v1"@
}

/// The demonstration report for quarter `quarter` of `year`: one aggregate
/// exceeding both daily thresholds by one unit on every calendar day.
pub open spec fn is_demo_threshold_report(report: CaspDailyReport, year: int, quarter: int) -> bool {
    let days = quarter_days(year, quarter);
    let count = (DAILY_TRANSACTION_THRESHOLD + 1) * days;
    let value_minor = (DAILY_VALUE_THRESHOLD_EUR_MINOR + 1) * days;
    &&& report.from_date_utc@ == quarter_start_text(year, quarter)
    &&& report.to_date_utc@ == quarter_end_text(year, quarter)
    &&& report.days@.len() == 1
    &&& is_demo_day(
        report.days@[0],
        quarter_start_text(year, quarter),
        count,
        value_minor,
        value_minor * 10_000,
    )
}

/// The report with which the demonstration exceeds both thresholds in
/// quarter `quarter` of `year`.
pub fn demo_threshold_report(year: i32, quarter: u8) -> (r: Result<CaspDailyReport, CaspReportingError>)
    ensures
        match r {
            Ok(report) => 1 <= quarter <= 4 && is_demo_threshold_report(
                report,
                year as int,
                quarter as int,
            ),
            Err(e) => !(1 <= quarter <= 4) && e == CaspReportingError::InvalidRange,
        },
{
    let (from, to, calendar_days) = match quarter_range(year, quarter) {
        Ok(range) => range,
        Err(e) => {
            return Err(e);
        },
    };
    assert(calendar_days <= 93);
    assert(DAILY_TRANSACTION_THRESHOLD == 1_000_000);
    assert(DAILY_VALUE_THRESHOLD_EUR_MINOR == 20_000_000_000);
    assert(1_000_001 * calendar_days <= 1_000_001 * 93) by (nonlinear_arith)
        requires
            calendar_days <= 93,
    ;
    assert(20_000_000_001 * calendar_days <= 20_000_000_001 * 93) by (nonlinear_arith)
        requires
            calendar_days <= 93,
    ;
    let count: u64 = (DAILY_TRANSACTION_THRESHOLD + 1) * calendar_days;
    let value_minor: u64 = (DAILY_VALUE_THRESHOLD_EUR_MINOR + 1) * calendar_days;
    assert(value_minor <= 20_000_000_001u64 * 93);
    let value_raw: u64 = value_minor * 10_000;
    let date = from.clone();
    let classification = ClassificationAggregate {
        classification: String::from_str("goods_or_services"),
        operation_count: count,
        value_raw: decimal_string(value_raw as u128),
    };
    let mut classifications: Vec<ClassificationAggregate> = Vec::new();
    classifications.push(classification);
    let day = CaspDailyAggregate {
        date_utc: date,
        asset_symbol: String::from_str("rUSD"),
        currency_area: String::from_str("USD"),
        total_operation_count: count,
        total_value_raw: decimal_string(value_raw as u128),
        total_value_usd_minor: decimal_string(value_minor as u128),
        means_of_exchange_count: count,
        means_of_exchange_value_raw: decimal_string(value_raw as u128),
        means_of_exchange_value_usd_minor: decimal_string(value_minor as u128),
        means_of_exchange_value_eur_minor: decimal_string(value_minor as u128),
        excluded_operation_count: 0,
        known_onchain_overlap_count: 0,
        known_onchain_overlap_value_raw: decimal_string(0),
        classifications,
        methodology_version: String::from_str("casp-daily-activity-v1-demo-threshold-seed"),
        conversion_methodology: String::from_str("demo-usd-eur-parity-v1"),
    };
    let mut days: Vec<CaspDailyAggregate> = Vec::new();
    days.push(day);
    Ok(CaspDailyReport { from_date_utc: from, to_date_utc: to, days })
}

// ---------------------------------------------------------------------------
// The reporting service
// ---------------------------------------------------------------------------

/// The text of a signed year as it is displayed: a minus sign before the
/// decimal digits of a negative year.
pub open spec fn year_display_text(year: int) -> Seq<char> {
    if year < 0 {
        "-"@ + decimal_text((-year) as nat)
    } else {
        decimal_text(year as nat)
    }
}

fn year_display(year: i32) -> (s: String)
    ensures
        s@ == year_display_text(year as int),
{
    if year < 0 {
        let magnitude: i64 = 0i64 - (year as i64);
        let digits = decimal_string(magnitude as u128);
        prefixed("-", digits.as_str())
    } else {
        decimal_string(year as u128)
    }
}

/// The reason recorded with the standing issuance block that an
/// enforceable breach in quarter `quarter` of `year` sets.
pub open spec fn standing_block_reason(year: int, quarter: int) -> Seq<char> {
    "issuance is blocked because complete Q"@ + decimal_text(quarter as nat) + " "@
        + year_display_text(year) + " evidence exceeds both Article 23 demo thresholds"@
}

/// The standing issuance restriction that a saved assessment leaves: a
/// block with its reason when the threshold breach is enforceable, and no
/// block (a lifted one) otherwise.
pub fn standing_issuance_block(assessment: &QuarterlyTransactionAssessment) -> (r: Option<String>)
    ensures
        assessment.threshold_enforceable ==> (r matches Some(m) && m@ == standing_block_reason(
            assessment.year as int,
            assessment.quarter as int,
        )),
        !assessment.threshold_enforceable ==> r is None,
{
    if assessment.threshold_enforceable {
        let mut reason = prefixed(
            "issuance is blocked because complete Q",
            decimal_string(assessment.quarter as u128).as_str(),
        );
        reason.append(" ");
        let year = year_display(assessment.year);
        reason.append(year.as_str());
        reason.append(" evidence exceeds both Article 23 demo thresholds");
        Some(reason)
    } else {
        None
    }
}

/// Persistence of imported CASP aggregates and quarterly assessments.
pub trait CaspReportStore {
    fn import(&self, report: &CaspDailyReport) -> Result<(), CaspReportingError>;

    fn daily(&self, from: &str, to: &str) -> Result<Vec<CaspDailyAggregate>, CaspReportingError>;

    fn range_was_imported(&self, from: &str, to: &str) -> Result<bool, CaspReportingError>;

    fn save_assessment(&self, assessment: &QuarterlyTransactionAssessment) -> Result<
        (),
        CaspReportingError,
    >;
}

/// An imported report, with the assessment of the quarter when the report
/// covered exactly one calendar quarter; that assessment is what the
/// issuance restriction is synchronised with.
#[derive(Debug, Clone)]
pub struct ImportedReport {
    pub report: CaspDailyReport,
    pub assessment: Option<QuarterlyTransactionAssessment>,
}

/// The assessment that importing the range `from`..=`to` yields: none
/// unless the range is exactly one quarter, else an assessment of that
/// quarter from the imported days and range completeness.
pub open spec fn range_assessment(
    assessment: Option<QuarterlyTransactionAssessment>,
    from: Seq<char>,
    to: Seq<char>,
) -> bool {
    match assessment {
        None => forall|year: int, q: int| !is_quarter_range(from, to, year, q),
        Some(a) => {
            &&& is_quarter_range(from, to, a.year as int, a.quarter as int)
            &&& exists|days: Seq<CaspDailyAggregate>, complete: bool|
                quarter_assessment(
                    Ok::<QuarterlyTransactionAssessment, CaspReportingError>(a),
                    a.year,
                    a.quarter,
                    days,
                    complete,
                )
        },
    }
}

/// What importing `report` for `from`..=`to` answers: a contract violation
/// exactly when an aggregate breaks the contract, else (unless the store
/// fails) the report itself and the assessment of its quarter.
pub open spec fn import_result(
    r: Result<ImportedReport, CaspReportingError>,
    from: Seq<char>,
    to: Seq<char>,
    report: CaspDailyReport,
) -> bool {
    &&& !days_meet_contract(report.days@, from, to) ==> (r matches Err(e) && is_source_contract(
        e,
        "CASP aggregate violates the rUSD reporting contract"@,
    ))
    &&& r matches Ok(out) ==> {
        &&& out.report == report
        &&& days_meet_contract(report.days@, from, to)
        &&& range_assessment(out.assessment, from, to)
    }
}

/// Ingestion, queries and quarterly assessment of CASP activity reports.
pub struct CaspReportingService<S> {
    pub store: S,
}

impl<S: CaspReportStore> CaspReportingService<S> {
    /// The store took `out`: its report was imported, and its assessment,
    /// if any, was saved.
    pub open spec fn recorded_import(&self, out: ImportedReport) -> bool {
        &&& call_ensures(
            S::import,
            (&self.store, &out.report),
            Ok::<(), CaspReportingError>(()),
        )
        &&& out.assessment matches Some(a) ==> {
            &&& call_ensures(
                S::save_assessment,
                (&self.store, &a),
                Ok::<(), CaspReportingError>(()),
            )
            &&& self.assessed_from_store(
                a.year,
                a.quarter,
                Ok::<QuarterlyTransactionAssessment, CaspReportingError>(a),
            )
        }
    }

    /// `r` is the assessment of quarter `quarter` of `year` from what the
    /// store answered for the quarter's dates: the imported days, and
    /// whether the whole range was imported.
    pub open spec fn assessed_from_store(
        &self,
        year: i32,
        quarter: u8,
        r: Result<QuarterlyTransactionAssessment, CaspReportingError>,
    ) -> bool {
        exists|from: &str, to: &str, days: Vec<CaspDailyAggregate>, complete: bool|
            #![trigger call_ensures(S::daily, (&self.store, from, to), Ok::<Vec<CaspDailyAggregate>, CaspReportingError>(days)), call_ensures(S::range_was_imported, (&self.store, from, to), Ok::<bool, CaspReportingError>(complete))]
            {
                &&& from@ == quarter_start_text(year as int, quarter as int)
                &&& to@ == quarter_end_text(year as int, quarter as int)
                &&& call_ensures(
                    S::daily,
                    (&self.store, from, to),
                    Ok::<Vec<CaspDailyAggregate>, CaspReportingError>(days),
                )
                &&& call_ensures(
                    S::range_was_imported,
                    (&self.store, from, to),
                    Ok::<bool, CaspReportingError>(complete),
                )
                &&& quarter_assessment(r, year, quarter, days@, complete)
            }
    }

    /// Assessing quarter `quarter` of `year` after an import failed with
    /// `e`: reading the store failed, the store's days could not be assessed,
    /// or the store refused to save the assessment.
    pub open spec fn assessment_failed(&self, year: i32, quarter: u8, e: CaspReportingError) -> bool {
        ||| self.store_read_failed(year, quarter, e)
        ||| self.assessed_from_store(
            year,
            quarter,
            Err::<QuarterlyTransactionAssessment, CaspReportingError>(e),
        )
        ||| exists|a: QuarterlyTransactionAssessment|
            #![trigger call_ensures(S::save_assessment, (&self.store, &a), Err::<(), CaspReportingError>(e))]
            {
                &&& self.assessed_from_store(
                    year,
                    quarter,
                    Ok::<QuarterlyTransactionAssessment, CaspReportingError>(a),
                )
                &&& call_ensures(
                    S::save_assessment,
                    (&self.store, &a),
                    Err::<(), CaspReportingError>(e),
                )
            }
    }

    /// Importing `report` for `from`..=`to` failed with `e`: an aggregate
    /// breaks the reporting contract, or (only for a report that meets it)
    /// the store refused the import, or, when the range is one quarter and
    /// the import was accepted, assessing that quarter failed.
    pub open spec fn import_failed(
        &self,
        from: Seq<char>,
        to: Seq<char>,
        report: CaspDailyReport,
        e: CaspReportingError,
    ) -> bool {
        if !days_meet_contract(report.days@, from, to) {
            is_source_contract(e, "CASP aggregate violates the rUSD reporting contract"@)
        } else {
            ||| call_ensures(S::import, (&self.store, &report), Err::<(), CaspReportingError>(e))
            ||| call_ensures(S::import, (&self.store, &report), Ok::<(), CaspReportingError>(()))
                && exists|year: i32, quarter: u8|
                #![trigger self.assessment_failed(year, quarter, e), quarter_start_text(year as int, quarter as int)]
                {
                    &&& is_quarter_range(from, to, year as int, quarter as int)
                    &&& self.assessment_failed(year, quarter, e)
                }
        }
    }

    /// Reading the quarter's dates from the store failed with `e`: the
    /// imported days could not be read, or whether the range was imported.
    pub open spec fn store_read_failed(&self, year: i32, quarter: u8, e: CaspReportingError) -> bool {
        exists|from: &str, to: &str|
            #![trigger call_ensures(S::daily, (&self.store, from, to), Err::<Vec<CaspDailyAggregate>, CaspReportingError>(e))]
            #![trigger call_ensures(S::range_was_imported, (&self.store, from, to), Err::<bool, CaspReportingError>(e))]
            {
                &&& from@ == quarter_start_text(year as int, quarter as int)
                &&& to@ == quarter_end_text(year as int, quarter as int)
                &&& {
                    ||| call_ensures(
                        S::daily,
                        (&self.store, from, to),
                        Err::<Vec<CaspDailyAggregate>, CaspReportingError>(e),
                    )
                    ||| call_ensures(
                        S::range_was_imported,
                        (&self.store, from, to),
                        Err::<bool, CaspReportingError>(e),
                    )
                }
            }
    }

    pub fn new(store: S) -> (service: Self)
        ensures
            service.store == store,
    {
        CaspReportingService { store }
    }

    /// The imported aggregates of `from`..=`to`, as the store answers for a
    /// valid range.
    pub fn daily(&self, from: &str, to: &str) -> (r: Result<
        Vec<CaspDailyAggregate>,
        CaspReportingError,
    >)
        ensures
            !is_valid_range(from@, to@) ==> r == Err::<Vec<CaspDailyAggregate>, CaspReportingError>(
                CaspReportingError::InvalidRange,
            ),
            is_valid_range(from@, to@) ==> call_ensures(S::daily, (&self.store, from, to), r),
    {
        match validate_range(from, to) {
            Ok(()) => {},
            Err(e) => {
                return Err(e);
            },
        }
        self.store.daily(from, to)
    }

    /// The threshold assessment of quarter `quarter` of `year` from the
    /// aggregates imported for it and whether its whole range was imported.
    pub fn quarterly(&self, year: i32, quarter: u8) -> (r: Result<
        QuarterlyTransactionAssessment,
        CaspReportingError,
    >)
        ensures
            !(1 <= quarter <= 4) ==> r == Err::<QuarterlyTransactionAssessment, CaspReportingError>(
                CaspReportingError::InvalidRange,
            ),
            1 <= quarter <= 4 ==> {
                ||| self.assessed_from_store(year, quarter, r)
                ||| r matches Err(e) && self.store_read_failed(year, quarter, e)
            },
    {
        let (from, to, _) = match quarter_range(year, quarter) {
            Ok(range) => range,
            Err(e) => {
                return Err(e);
            },
        };
        let from_text = from.as_str();
        let to_text = to.as_str();
        let read = self.store.daily(from_text, to_text);
        let days = match read {
            Ok(days) => days,
            Err(e) => {
                assert(self.store_read_failed(year, quarter, e));
                return Err(e);
            },
        };
        let imported = self.store.range_was_imported(from_text, to_text);
        let complete = match imported {
            Ok(c) => c,
            Err(e) => {
                assert(self.store_read_failed(year, quarter, e));
                return Err(e);
            },
        };
        let r = assess_quarter(year, quarter, &days, complete);
        assert(self.assessed_from_store(year, quarter, r));
        r
    }

    /// Imports a report for `from`..=`to`: every aggregate must meet the
    /// reporting contract; a report of exactly one quarter is then assessed
    /// and the assessment saved.
    pub fn import_report(&self, from: &str, to: &str, report: CaspDailyReport) -> (r: Result<
        ImportedReport,
        CaspReportingError,
    >)
        ensures
            import_result(r, from@, to@, report),
            r matches Ok(out) ==> self.recorded_import(out),
            r matches Err(e) ==> self.import_failed(from@, to@, report, e),
    {
        match check_report_days(from, to, &report.days) {
            Ok(()) => {},
            Err(e) => {
                return Err(e);
            },
        }
        let imported = self.store.import(&report);
        match imported {
            Ok(_u) => {
                assert(imported == Ok::<(), CaspReportingError>(()));
            },
            Err(e) => {
                return Err(e);
            },
        }
        let assessment = match exact_quarter(from, to) {
            None => None,
            Some((year, quarter)) => {
                let a = match self.quarterly(year, quarter) {
                    Ok(a) => a,
                    Err(e) => {
                        assert(self.assessment_failed(year, quarter, e));
                        assert(quarter_start_text(year as int, quarter as int) == from@);
                        return Err(e);
                    },
                };
                let saved = self.store.save_assessment(&a);
                match saved {
                    Ok(_u) => {
                        assert(saved == Ok::<(), CaspReportingError>(()));
                    },
                    Err(e) => {
                        assert(self.assessment_failed(year, quarter, e));
                        assert(quarter_start_text(year as int, quarter as int) == from@);
                        return Err(e);
                    },
                }
                proof {
                    let w = choose|days: Seq<CaspDailyAggregate>, complete: bool|
                        quarter_assessment(
                            Ok::<QuarterlyTransactionAssessment, CaspReportingError>(a),
                            year,
                            quarter,
                            days,
                            complete,
                        );
                    assert(quarter_assessment(
                        Ok::<QuarterlyTransactionAssessment, CaspReportingError>(a),
                        a.year,
                        a.quarter,
                        w.0,
                        w.1,
                    ));
                }
                Some(a)
            },
        };
        Ok(ImportedReport { report, assessment })
    }

    /// Imports a report fetched from the CASP for `from`..=`to`: the range
    /// must be valid and the report must cover exactly that range.
    pub fn ingest_fetched(&self, from: &str, to: &str, report: CaspDailyReport) -> (r: Result<
        ImportedReport,
        CaspReportingError,
    >)
        ensures
            !is_valid_range(from@, to@) ==> r == Err::<ImportedReport, CaspReportingError>(
                CaspReportingError::InvalidRange,
            ),
            is_valid_range(from@, to@) && (report.from_date_utc@ != from@ || report.to_date_utc@
                != to@) ==> (r matches Err(e) && is_source_contract(
                e,
                "CASP returned a different date range"@,
            )),
            is_valid_range(from@, to@) && report.from_date_utc@ == from@ && report.to_date_utc@
                == to@ ==> import_result(r, from@, to@, report),
            is_valid_range(from@, to@) && report.from_date_utc@ == from@ && report.to_date_utc@
                == to@ ==> (r matches Err(e) ==> self.import_failed(from@, to@, report, e)),
            r matches Ok(out) ==> self.recorded_import(out),
    {
        match validate_range(from, to) {
            Ok(()) => {},
            Err(e) => {
                return Err(e);
            },
        }
        if !text_eq(report.from_date_utc.as_str(), from) || !text_eq(report.to_date_utc.as_str(), to) {
            return Err(
                CaspReportingError::SourceContract(
                    String::from_str("CASP returned a different date range"),
                ),
            );
        }
        self.import_report(from, to, report)
    }

    /// Imports the demonstration report that exceeds both thresholds in
    /// quarter `quarter` of `year`.
    pub fn import_demo_threshold_breach(&self, year: i32, quarter: u8) -> (r: Result<
        ImportedReport,
        CaspReportingError,
    >)
        ensures
            !(1 <= quarter <= 4) ==> r == Err::<ImportedReport, CaspReportingError>(
                CaspReportingError::InvalidRange,
            ),
            r matches Ok(out) ==> {
                &&& is_demo_threshold_report(out.report, year as int, quarter as int)
                &&& range_assessment(
                    out.assessment,
                    quarter_start_text(year as int, quarter as int),
                    quarter_end_text(year as int, quarter as int),
                )
                &&& self.recorded_import(out)
            },
            1 <= quarter <= 4 ==> (r matches Err(e) ==> exists|report: CaspDailyReport|
                #![trigger is_demo_threshold_report(report, year as int, quarter as int)]
                {
                    &&& is_demo_threshold_report(report, year as int, quarter as int)
                    &&& self.import_failed(
                        quarter_start_text(year as int, quarter as int),
                        quarter_end_text(year as int, quarter as int),
                        report,
                        e,
                    )
                }),
    {
        let report = match demo_threshold_report(year, quarter) {
            Ok(report) => report,
            Err(e) => {
                return Err(e);
            },
        };
        let from = report.from_date_utc.clone();
        let to = report.to_date_utc.clone();
        let ghost demo = report;
        let r = self.import_report(from.as_str(), to.as_str(), report);
        assert(is_demo_threshold_report(demo, year as int, quarter as int));
        r
    }
}

// ---------------------------------------------------------------------------
// Laws
// ---------------------------------------------------------------------------

proof fn lemma_quarter_month_days_order(q: int, last: int)
    requires
        1 <= q <= 4,
        28 <= last <= 31,
    ensures
        !text_less(
            month_day_text(quarter_last_month(q) as nat, last as nat),
            month_day_text(quarter_first_month(q) as nat, 1),
        ),
{
    let a = month_day_text(quarter_last_month(q) as nat, last as nat);
    let b = month_day_text(quarter_first_month(q) as nat, 1);
    reveal_with_fuel(pow10, 3);
    lemma_padded_decimal_digits(quarter_last_month(q) as nat, 2);
    lemma_padded_decimal_digits(quarter_first_month(q) as nat, 2);
    lemma_padded_decimal_digits(last as nat, 2);
    lemma_padded_decimal_digits(1, 2);
    let ma = padded_decimal_text(quarter_last_month(q) as nat, 2);
    let mb = padded_decimal_text(quarter_first_month(q) as nat, 2);
    assert(digits_value(ma) == digits_value(ma.drop_last()) * 10 + digit_value(ma[1]));
    assert(digits_value(ma.drop_last()) == digit_value(ma[0])) by {
        assert(ma.drop_last().drop_last() =~= Seq::<char>::empty());
    }
    assert(digits_value(mb) == digits_value(mb.drop_last()) * 10 + digit_value(mb[1]));
    assert(digits_value(mb.drop_last()) == digit_value(mb[0])) by {
        assert(mb.drop_last().drop_last() =~= Seq::<char>::empty());
    }
    assert(is_digit(ma[0]) && is_digit(ma[1]) && is_digit(mb[0]) && is_digit(mb[1]));
    assert(a[0] == '-' && b[0] == '-');
    assert(a[1] == ma[0] && a[2] == ma[1]);
    assert(b[1] == mb[0] && b[2] == mb[1]);
    if ma[0] == mb[0] {
        assert(ma[1] > mb[1]);
        assert(!text_less(a, b)) by {
            lemma_text_less_skip(a, b, 2);
            assert(a.skip(2)[0] == a[2]);
            assert(b.skip(2)[0] == b[2]);
        }
    } else {
        assert(ma[0] > mb[0]);
        assert(!text_less(a, b)) by {
            lemma_text_less_skip(a, b, 1);
            assert(a.skip(1)[0] == a[1]);
            assert(b.skip(1)[0] == b[1]);
        }
    }
}

/// A calendar quarter ends on or after the day it starts, in the order in
/// which dates are compared.
pub proof fn law_quarter_start_not_after_end(year: int, q: int)
    requires
        1 <= q <= 4,
    ensures
        !text_less(quarter_end_text(year, q), quarter_start_text(year, q)),
{
    let y = year_text(year);
    let last = days_in_month(year, quarter_last_month(q));
    let a = quarter_end_text(year, q);
    let b = quarter_start_text(year, q);
    assert forall|j: int| 0 <= j < y.len() implies a[j] == b[j] by {
        assert(a[j] == y[j]);
        assert(b[j] == y[j]);
    }
    lemma_text_less_skip(a, b, y.len() as int);
    assert(a.skip(y.len() as int) =~= month_day_text(quarter_last_month(q) as nat, last as nat));
    assert(b.skip(y.len() as int) =~= month_day_text(quarter_first_month(q) as nat, 1));
    lemma_quarter_month_days_order(q, last);
}

/// The demonstration report always meets the import contract for its
/// quarter, so importing it is never refused as a contract violation.
pub proof fn law_demo_report_meets_contract(report: CaspDailyReport, year: int, quarter: int)
    requires
        1 <= quarter <= 4,
        is_demo_threshold_report(report, year, quarter),
    ensures
        days_meet_contract(
            report.days@,
            quarter_start_text(year, quarter),
            quarter_end_text(year, quarter),
        ),
{
    lemma_text_less_irreflexive(quarter_start_text(year, quarter));
    law_quarter_start_not_after_end(year, quarter);
    assert(day_meets_contract(
        report.days@[0],
        quarter_start_text(year, quarter),
        quarter_end_text(year, quarter),
    ));
}

/// Assessed as a completely imported quarter, the demonstration report
/// exceeds both thresholds and makes the restriction enforceable.
pub proof fn law_demo_report_breaches_thresholds(
    report: CaspDailyReport,
    year: i32,
    quarter: u8,
    r: Result<QuarterlyTransactionAssessment, CaspReportingError>,
)
    requires
        1 <= quarter <= 4,
        is_demo_threshold_report(report, year as int, quarter as int),
        quarter_assessment(r, year, quarter, report.days@, true),
    ensures
        r matches Ok(a) && a.threshold_breached && a.threshold_enforceable,
{
    let days = report.days@;
    let d = quarter_days(year as int, quarter as int);
    assert(90 <= d <= 92);
    let vm = (DAILY_VALUE_THRESHOLD_EUR_MINOR + 1) * d;
    assert(days.drop_last() =~= Seq::<CaspDailyAggregate>::empty());
    assert(days.last() == days[0]);
    assert(count_total(days.drop_last()) == 0);
    assert(eur_sum(days.drop_last()) == EurSum::Total(0));
    assert(1_000_001 * d <= 1_000_001 * 92) by (nonlinear_arith)
        requires
            d <= 92,
    ;
    assert(20_000_000_001 * d <= 20_000_000_001 * 92) by (nonlinear_arith)
        requires
            d <= 92,
    ;
    assert(count_total(days) == (DAILY_TRANSACTION_THRESHOLD + 1) * d);
    law_decimal_round_trip(vm as nat);
    assert(eur_sum(days) == EurSum::Total(vm as u64));
}

/// A range is the range of at most one quarter: its first day names the
/// year and the quarter.
pub proof fn law_quarter_range_names_one_quarter(
    from: Seq<char>,
    to: Seq<char>,
    y1: int,
    q1: int,
    y2: int,
    q2: int,
)
    requires
        is_quarter_range(from, to, y1, q1),
        is_quarter_range(from, to, y2, q2),
    ensures
        y1 == y2,
        q1 == q2,
{
    lemma_year_text(y1);
    lemma_year_text(y2);
    assert(from.subrange(0, 4) =~= year_text(y1));
    assert(from.subrange(0, 4) =~= year_text(y2));
    if y1 >= 0 && y2 < 0 {
        assert(is_digit(year_text(y1)[0]));
    } else if y1 < 0 && y2 >= 0 {
        assert(is_digit(year_text(y2)[0]));
    } else if y1 < 0 && y2 < 0 {
        assert(year_text(y1).subrange(1, 4) =~= year_text(y2).subrange(1, 4));
    }
    assert(y1 == y2);
    reveal_with_fuel(pow10, 3);
    lemma_padded_decimal_digits(quarter_first_month(q1) as nat, 2);
    lemma_padded_decimal_digits(quarter_first_month(q2) as nat, 2);
    let m1 = padded_decimal_text(quarter_first_month(q1) as nat, 2);
    let m2 = padded_decimal_text(quarter_first_month(q2) as nat, 2);
    assert(from.subrange(5, 7) =~= m1);
    assert(from.subrange(5, 7) =~= m2);
}

} // verus!
