//! The wall clock.

use vstd::prelude::*;

verus! {

/// Calls `SystemTime::now().duration_since(UNIX_EPOCH)` and takes whole
/// seconds (0 for a clock set before the epoch). Nothing is claimed of the
/// result: it is the time.
#[verifier::external_body]
pub(crate) fn unix_seconds() -> u64 {
    match std::time::SystemTime::now().duration_since(std::time::UNIX_EPOCH) {
        Ok(d) => d.as_secs(),
        Err(_) => 0,
    }
}

/// Converts `SystemTime::now()` with chrono's `DateTime::<Utc>::from` and
/// takes `timestamp_millis`: the time in milliseconds since the Unix epoch
/// (negative for a clock set before it; the conversion handles that case).
/// Nothing is claimed of the result: it is the time.
#[verifier::external_body]
pub(crate) fn now_millis() -> i64 {
    chrono::DateTime::<chrono::Utc>::from(std::time::SystemTime::now()).timestamp_millis()
}

/// Converts `SystemTime::now()` with chrono's `DateTime::<Utc>::from` and
/// takes `timestamp`: whole seconds since the Unix epoch. Nothing is
/// claimed of the result: it is the time.
#[verifier::external_body]
pub(crate) fn now_seconds() -> i64 {
    chrono::DateTime::<chrono::Utc>::from(std::time::SystemTime::now()).timestamp()
}

} // verus!
