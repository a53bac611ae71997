//! The wall clock, read in Unix milliseconds.

use vstd::prelude::*;

verus! {

/// Reads the system clock: milliseconds since the Unix epoch, `0` when the
/// clock stands before the epoch (`SystemTime::now`, `duration_since`,
/// `as_millis`). Nothing is promised of the value: it is the time.
#[verifier::external_body]
pub(crate) fn current_unix_ms() -> u64 {
    std::time::SystemTime::now().duration_since(std::time::UNIX_EPOCH).unwrap_or_default().as_millis() as u64
}

} // verus!
