//! Ethereum addresses: parsing hexadecimal text and the EIP-55 checksum form
//! under which the backend stores every address.

use vstd::prelude::*;

verus! {

/// A hexadecimal digit, either case.
pub open spec fn is_hex_digit(c: char) -> bool {
    ('0' <= c && c <= '9') || ('a' <= c && c <= 'f') || ('A' <= c && c <= 'F')
}

/// Value of a hexadecimal digit.
pub open spec fn hex_value(c: char) -> int {
    if '0' <= c && c <= '9' {
        (c as int) - ('0' as int)
    } else if 'a' <= c && c <= 'f' {
        (c as int) - ('a' as int) + 10
    } else {
        (c as int) - ('A' as int) + 10
    }
}

/// The hexadecimal part of an address text: without a leading `0x` or `0X`.
pub open spec fn address_digits(text: Seq<char>) -> Seq<char> {
    if text.len() >= 2 && text[0] == '0' && (text[1] == 'x' || text[1] == 'X') {
        text.skip(2)
    } else {
        text
    }
}

/// The twenty bytes that an address text denotes: forty hexadecimal digits,
/// optionally after `0x` or `0X`; `None` for any other text.
pub open spec fn address_text_bytes(text: Seq<char>) -> Option<Seq<u8>> {
    let d = address_digits(text);
    if d.len() == 40 && (forall|i: int| 0 <= i < 40 ==> is_hex_digit(#[trigger] d[i])) {
        Some(Seq::new(20, |i: int| (hex_value(d[2 * i]) * 16 + hex_value(d[2 * i + 1])) as u8))
    } else {
        None
    }
}

/// The `i`-th hexadecimal digit (nibble) of `bytes`, high nibble first.
pub open spec fn nibble(bytes: Seq<u8>, i: int) -> int {
    if i % 2 == 0 {
        bytes[i / 2] as int / 16
    } else {
        bytes[i / 2] as int % 16
    }
}

/// Lower-case hexadecimal digit of `v < 16`.
pub open spec fn lower_hex_char(v: int) -> char {
    if v < 10 {
        ((('0' as int) + v) as char)
    } else {
        ((('a' as int) + v - 10) as char)
    }
}

/// ASCII lower case of a character.
pub open spec fn ascii_lower(c: char) -> char {
    if 'A' <= c && c <= 'Z' {
        (((c as int) + 32) as char)
    } else {
        c
    }
}

/// The EIP-55 checksum text of a 20-byte address, as alloy's
/// `Address::to_checksum(None)` writes it; its letter case depends on the
/// Keccak-256 hash of the lower-case hex digits.
pub uninterp spec fn eip55_checksum(bytes: Seq<u8>) -> Seq<char>;

/// Parses an address with alloy (`<Address as FromStr>::from_str`, which
/// decodes hex with `const_hex`): the contract states the accepted grammar,
/// forty hex digits after an optional `0x`/`0X`, and the decoded bytes.
#[verifier::external_body]
fn alloy_parse_address(text: &str) -> (r: Option<Vec<u8>>)
    ensures
        match r {
            Some(b) => address_text_bytes(text@) == Some(b@),
            None => address_text_bytes(text@) is None,
        },
{
    match text.parse::<alloy::primitives::Address>() {
        Ok(address) => Some(address.to_vec()),
        Err(_) => None,
    }
}

/// Writes the EIP-55 checksum text of an address with alloy
/// (`Address::from_slice`, which panics unless given 20 bytes, then
/// `Address::to_checksum(None)`). The contract names the result and states
/// what the source shows of its shape: `0x`, then the forty hex digits of the
/// bytes, some letters upper-cased.
#[verifier::external_body]
fn alloy_checksum_address(bytes: &Vec<u8>) -> (s: String)
    requires
        bytes@.len() == 20,
    ensures
        s@ == eip55_checksum(bytes@),
        s@.len() == 42,
        s@[0] == '0',
        s@[1] == 'x',
        forall|i: int| 0 <= i < 40 ==> ascii_lower(#[trigger] s@[2 + i]) == lower_hex_char(nibble(bytes@, i)),
{
    alloy::primitives::Address::from_slice(bytes.as_slice()).to_checksum(None)
}

/// The normalised (EIP-55) form of an address text, `None` when the text is
/// not an address.
pub open spec fn normalized_address(text: Seq<char>) -> Option<Seq<char>> {
    match address_text_bytes(text) {
        Some(b) => Some(eip55_checksum(b)),
        None => None,
    }
}

/// Parses an address text into its twenty bytes.
pub fn parse_address(text: &str) -> (r: Option<Vec<u8>>)
    ensures
        match r {
            Some(b) => address_text_bytes(text@) == Some(b@) && b@.len() == 20,
            None => address_text_bytes(text@) is None,
        },
{
    alloy_parse_address(text)
}

/// The checksum text of a 20-byte address.
pub fn checksum_address(bytes: &Vec<u8>) -> (s: String)
    requires
        bytes@.len() == 20,
    ensures
        s@ == eip55_checksum(bytes@),
        address_text_bytes(s@) == Some(bytes@),
{
    let s = alloy_checksum_address(bytes);
    proof {
        lemma_checksum_parses_back(bytes@, s@);
    }
    s
}

/// `text.parse::<Address>()` followed by `to_checksum(None)`.
pub fn normalize_address(text: &str) -> (r: Option<String>)
    ensures
        match r {
            Some(s) => {
                &&& normalized_address(text@) == Some(s@)
                &&& normalized_address(s@) == Some(s@)
                &&& address_text_bytes(s@) == address_text_bytes(text@)
            },
            None => normalized_address(text@) is None,
        },
{
    match parse_address(text) {
        Some(bytes) => Some(checksum_address(&bytes)),
        None => None,
    }
}

proof fn lemma_hex_char_value(c: char, v: int)
    requires
        0 <= v < 16,
        ascii_lower(c) == lower_hex_char(v),
    ensures
        is_hex_digit(c),
        hex_value(c) == v,
{
}

proof fn lemma_checksum_parses_back(b: Seq<u8>, s: Seq<char>)
    requires
        b.len() == 20,
        s.len() == 42,
        s[0] == '0',
        s[1] == 'x',
        forall|i: int| 0 <= i < 40 ==> ascii_lower(#[trigger] s[2 + i]) == lower_hex_char(nibble(b, i)),
    ensures
        address_text_bytes(s) == Some(b),
{
    let d = address_digits(s);
    assert(d =~= s.skip(2));
    assert forall|i: int| 0 <= i < 40 implies is_hex_digit(#[trigger] d[i]) && hex_value(d[i])
        == nibble(b, i) by {
        assert(d[i] == s[2 + i]);
        assert(0 <= nibble(b, i) < 16);
        lemma_hex_char_value(s[2 + i], nibble(b, i));
    }
    let decoded = Seq::new(20, |i: int| (hex_value(d[2 * i]) * 16 + hex_value(d[2 * i + 1])) as u8);
    assert forall|i: int| 0 <= i < 20 implies decoded[i] == b[i] by {
        assert(hex_value(d[2 * i]) == nibble(b, 2 * i));
        assert(hex_value(d[2 * i + 1]) == nibble(b, 2 * i + 1));
        assert((2 * i) % 2 == 0);
        assert((2 * i + 1) % 2 == 1);
        assert((2 * i) / 2 == i);
        assert((2 * i + 1) / 2 == i);
        let x = b[i] as int;
        assert(x / 16 * 16 + x % 16 == x);
    }
    assert(decoded =~= b);
}

} // verus!
