//! The one place where the library touches the wall clock.

use vstd::prelude::*;
use std::time::SystemTime;
use std::time::UNIX_EPOCH;

verus! {

/// Relies on std::time::SystemTime::now to read the wall clock, reported as
/// whole milliseconds since the Unix epoch. Nothing is promised of the
/// value: wall time may move forwards or backwards between calls, so every
/// caller must hold for any reading whatsoever.
#[verifier::external_body]
pub(crate) fn now_millis() -> u64 {
    match SystemTime::now().duration_since(UNIX_EPOCH) {
        Ok(since_epoch) => u64::try_from(since_epoch.as_millis()).unwrap_or(u64::MAX),
        Err(_) => 0,
    }
}

} // verus!
