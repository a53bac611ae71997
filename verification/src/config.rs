//! Checks on the service configuration read from the environment.

use crate::address::{address_text_bytes, ascii_lower, parse_address};
use crate::errors::ConfigError;
use crate::text::{parse_u64, u64_text_value};
use vstd::prelude::*;
use vstd::string::*;

verus! {

pub const DEFAULT_RPC_URL: &'static str = "http://127.0.0.1:8545";

pub const DEFAULT_HTTP_ADDRESS: &'static str = "127.0.0.1:3000";

pub const DEFAULT_POLL_INTERVAL_SECONDS: u64 = 10;

pub const MAX_POLL_INTERVAL_SECONDS: u64 = 10;

pub const CACHE_RETENTION_SECONDS: u64 = 86_400;

pub const DEFAULT_DATABASE_PATH: &'static str = "data/backend-usd.sqlite";

pub const DEFAULT_MOCK_BANK_URL: &'static str = "http://127.0.0.1:3100";

/// The token contract address, which must be set and valid.
pub fn token_address_setting(raw: Option<String>) -> (r: Result<Vec<u8>, ConfigError>)
    ensures
        match raw {
            None => r == Err::<Vec<u8>, ConfigError>(ConfigError::MissingTokenAddress),
            Some(text) => match address_text_bytes(text@) {
                Some(bytes) => r matches Ok(b) && b@ == bytes,
                None => r == Err::<Vec<u8>, ConfigError>(ConfigError::InvalidTokenAddress(text)),
            },
        },
{
    match raw {
        None => Err(ConfigError::MissingTokenAddress),
        Some(text) => match parse_address(text.as_str()) {
            Some(bytes) => Ok(bytes),
            None => Err(ConfigError::InvalidTokenAddress(text)),
        },
    }
}

/// The polling interval in whole seconds, from 1 to
/// `MAX_POLL_INTERVAL_SECONDS`; the default when unset.
pub open spec fn poll_interval_value(raw: Seq<char>) -> Option<u64> {
    match u64_text_value(raw) {
        Some(v) => if 1 <= v <= MAX_POLL_INTERVAL_SECONDS {
            Some(v)
        } else {
            None
        },
        None => None,
    }
}

/// The polling interval in seconds; `raw` is the variable's value, `None`
/// when it is unset.
pub fn poll_interval_setting(raw: Option<String>) -> (r: Result<u64, ConfigError>)
    ensures
        match raw {
            None => r == Ok::<u64, ConfigError>(DEFAULT_POLL_INTERVAL_SECONDS),
            Some(text) => match poll_interval_value(text@) {
                Some(v) => r == Ok::<u64, ConfigError>(v),
                None => r == Err::<u64, ConfigError>(ConfigError::InvalidPollInterval(text)),
            },
        },
{
    match raw {
        None => Ok(DEFAULT_POLL_INTERVAL_SECONDS),
        Some(text) => match parse_u64(text.as_str()) {
            Some(v) => if 1 <= v && v <= MAX_POLL_INTERVAL_SECONDS {
                Ok(v)
            } else {
                Err(ConfigError::InvalidPollInterval(text))
            },
            None => Err(ConfigError::InvalidPollInterval(text)),
        },
    }
}

/// How long a successful poll keeps the polling healthy: three intervals.
pub fn polling_max_staleness_seconds(poll_interval_seconds: u64) -> (r: u64)
    ensures
        r == (if poll_interval_seconds * 3 <= u64::MAX {
            poll_interval_seconds * 3
        } else {
            u64::MAX as int
        }),
{
    match poll_interval_seconds.checked_mul(3) {
        Some(v) => v,
        None => u64::MAX,
    }
}

/// The issuer's signing key, which must be set.
pub fn issuer_key_setting(raw: Option<String>) -> (r: Result<String, ConfigError>)
    ensures
        match raw {
            None => r == Err::<String, ConfigError>(ConfigError::MissingIssuerPrivateKey),
            Some(key) => r == Ok::<String, ConfigError>(key),
        },
{
    match raw {
        None => Err(ConfigError::MissingIssuerPrivateKey),
        Some(key) => Ok(key),
    }
}

/// `text` in ASCII lower case equals `word`.
pub open spec fn lower_equals(text: Seq<char>, word: Seq<char>) -> bool {
    text.map_values(|c: char| ascii_lower(c)) == word
}

fn lower_char(c: char) -> (r: char)
    ensures
        r == ascii_lower(c),
{
    if 'A' <= c && c <= 'Z' {
        ((c as u8) + 32) as char
    } else {
        c
    }
}

fn equals_ignoring_ascii_case(text: &str, word: &str) -> (r: bool)
    ensures
        r == lower_equals(text@, word@),
{
    let n = text.unicode_len();
    if n != word.unicode_len() {
        assert(text@.map_values(|c: char| ascii_lower(c)).len() == n);
        return false;
    }
    let mut i: usize = 0;
    while i < n
        invariant
            n == text@.len(),
            n == word@.len(),
            i <= n,
            forall|j: int| 0 <= j < i ==> ascii_lower(#[trigger] text@[j]) == word@[j],
        decreases n - i,
    {
        if lower_char(text.get_char(i)) != word.get_char(i) {
            assert(text@.map_values(|c: char| ascii_lower(c))[i as int] != word@[i as int]);
            return false;
        }
        i = i + 1;
    }
    assert(text@.map_values(|c: char| ascii_lower(c)) =~= word@);
    true
}

/// A boolean flag as written in the environment, in any ASCII case.
pub open spec fn flag_value(raw: Seq<char>) -> Option<bool> {
    if lower_equals(raw, "true"@) || lower_equals(raw, "1"@) || lower_equals(raw, "yes"@) {
        Some(true)
    } else if lower_equals(raw, "false"@) || lower_equals(raw, "0"@) || lower_equals(raw, "no"@) {
        Some(false)
    } else {
        None
    }
}

/// Whether the reserve is initialised at startup; on when unset.
pub fn reserve_initialization_setting(raw: Option<String>) -> (r: Result<bool, ConfigError>)
    ensures
        match raw {
            None => r == Ok::<bool, ConfigError>(true),
            Some(text) => match flag_value(text@) {
                Some(b) => r == Ok::<bool, ConfigError>(b),
                None => r == Err::<bool, ConfigError>(
                    ConfigError::InvalidReserveInitializationFlag(text),
                ),
            },
        },
{
    match raw {
        None => Ok(true),
        Some(text) => {
            let t = text.as_str();
            if equals_ignoring_ascii_case(t, "true") || equals_ignoring_ascii_case(t, "1")
                || equals_ignoring_ascii_case(t, "yes") {
                Ok(true)
            } else if equals_ignoring_ascii_case(t, "false") || equals_ignoring_ascii_case(t, "0")
                || equals_ignoring_ascii_case(t, "no") {
                Ok(false)
            } else {
                Err(ConfigError::InvalidReserveInitializationFlag(text))
            }
        },
    }
}

} // verus!
