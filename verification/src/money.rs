//! Integer money arithmetic and the decimal texts that display it.

use crate::text::{
    all_digits, append_decimal, append_padded_decimal, decimal_text, digits_value, is_digit,
    lemma_decimal_text_digits, lemma_digits_value_concat, lemma_digits_value_zeros,
    lemma_padded_decimal_digits, lemma_pow10_monotone, padded_decimal_text, pow10, zeros,
};
use vstd::prelude::*;
use vstd::string::*;

verus! {

/// `10^k` when it fits in a `u128`.
pub open spec fn checked_pow10_value(k: nat) -> Option<u128> {
    if pow10(k) <= u128::MAX {
        Some(pow10(k) as u128)
    } else {
        None
    }
}

/// `10_u128.checked_pow(k)`.
pub fn checked_pow10(k: u32) -> (r: Option<u128>)
    ensures
        r == checked_pow10_value(k as nat),
{
    let mut acc: u128 = 1;
    let mut i: u32 = 0;
    while i < k
        invariant
            i <= k,
            acc == pow10(i as nat),
        decreases k - i,
    {
        match acc.checked_mul(10) {
            Some(v) => {
                acc = v;
            },
            None => {
                proof {
                    lemma_pow10_monotone((i + 1) as nat, k as nat);
                }
                return None;
            },
        }
        i = i + 1;
    }
    Some(acc)
}

/// `s` with every trailing `c` removed, as `str::trim_end_matches(c)`.
pub open spec fn trim_end_char(s: Seq<char>, c: char) -> Seq<char>
    decreases s.len(),
{
    if s.len() > 0 && s.last() == c {
        trim_end_char(s.drop_last(), c)
    } else {
        s
    }
}

/// Removes every trailing `c` from `s`.
pub fn trim_end_matches_char(s: &str, c: char) -> (r: &str)
    ensures
        r@ == trim_end_char(s@, c),
{
    let mut end = s.unicode_len();
    assert(s@.take(end as int) =~= s@);
    while end > 0 && s.get_char(end - 1) == c
        invariant
            end <= s@.len(),
            trim_end_char(s@.take(end as int), c) == trim_end_char(s@, c),
        decreases end,
    {
        assert(s@.take(end as int).drop_last() =~= s@.take(end - 1));
        end = end - 1;
    }
    proof {
        let t = s@.take(end as int);
        if end > 0 {
            assert(t.last() == s@[end - 1]);
        }
        assert(trim_end_char(t, c) == t);
    }
    assert(s@.take(end as int) =~= s@.subrange(0, end as int));
    s.substring_char(0, end)
}

/// `format!("{}.{:02}", v / 100, v % 100)`: an amount of cents in units.
pub open spec fn minor_units_text(v: nat) -> Seq<char> {
    decimal_text(v / 100) + seq!['.'] + padded_decimal_text(v % 100, 2)
}

/// `format!("{}.{:0d$}", v / 10^d, v % 10^d)` without trailing zeros and
/// then without a trailing point: `v` raw units shown in whole tokens.
pub open spec fn raw_units_text(v: nat, d: nat) -> Seq<char> {
    trim_end_char(
        trim_end_char(
            decimal_text(v / pow10(d)) + seq!['.'] + padded_decimal_text(v % pow10(d), d),
            '0',
        ),
        '.',
    )
}

/// `t` reads as `v` units of `10^-d` of a whole token: whole digits, then
/// either nothing or a point and at most `d` fraction digits without a
/// trailing zero.
pub open spec fn reads_as_fixed_point(t: Seq<char>, d: nat, v: nat) -> bool {
    exists|whole: Seq<char>, frac: Seq<char>|
        {
            &&& whole.len() >= 1
            &&& all_digits(whole)
            &&& all_digits(frac)
            &&& frac.len() <= d
            &&& (frac.len() == 0 ==> t == whole)
            &&& (frac.len() > 0 ==> t == whole + seq!['.'] + frac && frac.last() != '0')
            &&& digits_value(whole) * pow10(d) + digits_value(frac) * pow10((d - frac.len()) as nat)
                == v
        }
}

/// Removing trailing `c` ignores any run of `c` appended at the end.
proof fn lemma_trim_end_appended(a: Seq<char>, b: Seq<char>, c: char)
    requires
        forall|i: int| 0 <= i < b.len() ==> b[i] == c,
    ensures
        trim_end_char(a + b, c) == trim_end_char(a, c),
    decreases b.len(),
{
    if b.len() == 0 {
        assert(a + b =~= a);
    } else {
        assert((a + b).drop_last() =~= a + b.drop_last());
        assert((a + b).last() == b[b.len() - 1]);
        lemma_trim_end_appended(a, b.drop_last(), c);
    }
}

/// Removing trailing `c` leaves a prefix that does not end in `c`, and
/// everything removed is `c`.
proof fn lemma_trim_end_shape(s: Seq<char>, c: char)
    ensures
        trim_end_char(s, c).len() <= s.len(),
        trim_end_char(s, c) == s.take(trim_end_char(s, c).len() as int),
        forall|i: int| trim_end_char(s, c).len() <= i < s.len() ==> s[i] == c,
        trim_end_char(s, c).len() == 0 || trim_end_char(s, c).last() != c,
    decreases s.len(),
{
    if s.len() > 0 && s.last() == c {
        lemma_trim_end_shape(s.drop_last(), c);
        let t = trim_end_char(s.drop_last(), c);
        assert(s.drop_last().take(t.len() as int) =~= s.take(t.len() as int));
        assert forall|i: int| t.len() <= i < s.len() implies s[i] == c by {
            if i < s.len() - 1 {
                assert(s.drop_last()[i] == s[i]);
            }
        }
    } else {
        assert(s.take(s.len() as int) =~= s);
    }
}

/// A text that shows raw units in whole tokens reads back as exactly those
/// raw units: the fraction keeps its leading zeros (it is padded to the
/// token's decimals) and loses only its trailing ones.
pub proof fn law_raw_units_text_reads_back(v: nat, d: nat)
    ensures
        reads_as_fixed_point(raw_units_text(v, d), d, v),
{
    lemma_pow10_monotone(0, d);
    let p = pow10(d);
    let q = v / p;
    let r = v % p;
    assert(v == q * p + r) by (nonlinear_arith)
        requires
            p >= 1,
            q == v / p,
            r == v % p,
    ;
    let whole = decimal_text(q);
    lemma_decimal_text_digits(q);
    let f = padded_decimal_text(r, d);
    if d >= 1 {
        lemma_padded_decimal_digits(r, d);
    } else {
        lemma_decimal_text_digits(r);
        assert(r == 0);
        assert(f =~= seq!['0']);
    }
    let t = trim_end_char(f, '0');
    lemma_trim_end_shape(f, '0');
    let k = (f.len() - t.len()) as nat;
    let z = f.skip(t.len() as int);
    assert(f =~= t + z);
    assert(z =~= zeros(k));
    lemma_digits_value_zeros(k);
    lemma_digits_value_concat(t, z);
    assert(all_digits(t)) by {
        assert forall|i: int| 0 <= i < t.len() implies is_digit(#[trigger] t[i]) by {
            assert(t[i] == f[i]);
        }
    }
    let head = whole + seq!['.'] + t;
    assert(whole + seq!['.'] + f =~= head + z);
    lemma_trim_end_appended(head, z, '0');
    if t.len() > 0 {
        assert(head.last() == t.last());
        assert(trim_end_char(head, '0') == head);
        assert(is_digit(t[t.len() - 1]));
        assert(trim_end_char(head, '.') == head);
        assert(d >= 1) by {
            if d == 0 {
                assert(f.len() == 1 && f[0] == '0');
                assert(t.len() <= 1);
                assert(t.last() == f[0]);
            }
        }
        assert(f.len() == d);
        assert(raw_units_text(v, d) == head);
        assert(digits_value(f) == digits_value(t) * pow10(k));
        assert(digits_value(whole) * pow10(d) + digits_value(t) * pow10((d - t.len()) as nat) == v);
    } else {
        let dot = seq!['.'];
        assert(head =~= whole + dot);
        assert(head.last() == '.');
        assert(trim_end_char(head, '0') == head);
        lemma_trim_end_appended(whole, dot, '.');
        assert(is_digit(whole[whole.len() - 1]));
        assert(trim_end_char(whole, '.') == whole);
        assert(raw_units_text(v, d) == whole);
        assert(t =~= Seq::<char>::empty());
        assert(digits_value(t) == 0);
        assert(r == 0);
        assert(digits_value(whole) * pow10(d) + digits_value(t) * pow10((d - t.len()) as nat) == v);
    }
}

/// A signed amount of raw units shown in whole tokens, `-` before a
/// negative amount.
pub open spec fn signed_raw_units_text(v: int, d: nat) -> Seq<char> {
    if v < 0 {
        seq!['-'] + raw_units_text((-v) as nat, d)
    } else {
        raw_units_text(v as nat, d)
    }
}

/// Formats cents as units with two decimals.
pub fn format_minor(value: u128) -> (s: String)
    ensures
        s@ == minor_units_text(value as nat),
{
    let mut s = String::new();
    append_decimal(&mut s, value / 100);
    proof {
        reveal_strlit(".");
    }
    s.append(".");
    append_padded_decimal(&mut s, value % 100, 2);
    assert(s@ =~= minor_units_text(value as nat));
    s
}

/// Formats raw units (`scale == 10^decimals` per whole token) as whole
/// tokens without superfluous zeros.
pub fn format_decimal(value: u128, scale: u128, decimals: u32) -> (s: String)
    requires
        scale == pow10(decimals as nat),
    ensures
        s@ == raw_units_text(value as nat, decimals as nat),
{
    proof {
        lemma_pow10_monotone(0, decimals as nat);
    }
    let mut s = String::new();
    append_decimal(&mut s, value / scale);
    proof {
        reveal_strlit(".");
    }
    s.append(".");
    append_padded_decimal(&mut s, value % scale, decimals as usize);
    assert(s@ =~= decimal_text((value / scale) as nat) + seq!['.'] + padded_decimal_text(
        (value % scale) as nat,
        decimals as nat,
    ));
    let without_zeros = trim_end_matches_char(s.as_str(), '0');
    let trimmed = trim_end_matches_char(without_zeros, '.');
    String::from_str(trimmed)
}

/// Formats the signed difference `minuend - subtrahend` of raw units.
pub fn format_difference(minuend: u128, subtrahend: u128, scale: u128, decimals: u32) -> (s:
    String)
    requires
        scale == pow10(decimals as nat),
    ensures
        s@ == signed_raw_units_text(minuend - subtrahend, decimals as nat),
{
    if minuend >= subtrahend {
        format_decimal(minuend - subtrahend, scale, decimals)
    } else {
        let magnitude = format_decimal(subtrahend - minuend, scale, decimals);
        proof {
            reveal_strlit("-");
        }
        let mut s = String::from_str("-");
        s.append(magnitude.as_str());
        s
    }
}

} // verus!
