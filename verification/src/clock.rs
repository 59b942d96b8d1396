//! Wall-clock access. The timer engine itself never reads a clock: its
//! operations take the current reading as an argument, so callers decide
//! where time comes from and tests can drive it deterministically.

use vstd::prelude::*;

verus! {

/// Relies on chrono::Local::now().timestamp(): the current wall-clock
/// time as Unix seconds. Nothing is promised of the value; it depends on
/// the moment of the call.
#[verifier::external_body]
pub(crate) fn epoch_seconds_now() -> i64 {
    chrono::Local::now().timestamp()
}

/// System clock reading real time.
#[derive(Debug, Clone, Copy)]
pub struct SystemClock;

impl SystemClock {
    /// The current Unix timestamp in seconds.
    pub fn now_timestamp(&self) -> i64 {
        epoch_seconds_now()
    }
}

} // verus!
