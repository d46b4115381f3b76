//! Points in time.
use vstd::prelude::*;

verus! {

/// A UTC point in time: whole seconds since the Unix epoch and the
/// nanoseconds after them.
#[derive(Debug, Clone, Copy, PartialEq, Eq, Structural)]
pub struct Timestamp {
    pub secs: i64,
    pub nanos: u32,
}

/// The current UTC time.
///
/// Trusted: calls `chrono::Utc::now`. Its source reads the system clock as
/// a duration since the epoch (it panics if the clock is before the epoch)
/// and builds the time from the whole seconds and `subsec_nanos`, so the
/// seconds are not negative and the nanoseconds are below one second.
/// Which time comes back is not stated.
#[verifier::external_body]
pub(crate) fn utc_now() -> (t: Timestamp)
    ensures
        t.secs >= 0,
        t.nanos < 1_000_000_000,
{
    let now = chrono::Utc::now();
    Timestamp { secs: now.timestamp(), nanos: now.timestamp_subsec_nanos() }
}

} // verus!
