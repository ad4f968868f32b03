//! The wall clock, as the pipeline sees it.

use chrono::Utc;
use vstd::prelude::*;

verus! {

/// A point in time: whole seconds since the Unix epoch, and the nanoseconds
/// past that second.
#[derive(Clone, Copy, Debug, PartialEq, Eq)]
pub struct Timestamp {
    pub seconds: i64,
    pub nanos: u32,
}

/// Reads the clock through `chrono::Utc::now` and keeps the reading's
/// `timestamp` and `timestamp_subsec_nanos`. Nothing is claimed of the value:
/// two readings may differ in any way. `Utc::now` panics on a machine whose
/// clock stands before the Unix epoch; no argument can rule that out.
#[verifier::external_body]
pub(crate) fn current_time() -> (now: Timestamp) {
    let now = Utc::now();
    Timestamp { seconds: now.timestamp(), nanos: now.timestamp_subsec_nanos() }
}

} // verus!
