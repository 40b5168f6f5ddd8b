use vstd::prelude::*;

verus! {

/// A point in time in UTC, as seconds since the Unix epoch and the
/// nanoseconds past that second.
#[derive(Copy, Clone, Debug, PartialEq, Eq)]
pub struct Timestamp {
    pub secs: i64,
    pub nanos: u32,
}

/// Calls `chrono::Utc::now()` and returns its `timestamp()` and
/// `timestamp_subsec_nanos()`. The source builds the instant from the system
/// clock's duration since the epoch (it panics on a clock set before the
/// epoch), so the seconds are not negative and the nanoseconds stay below one
/// second; which instant comes back is the machine's clock.
#[verifier::external_body]
fn utc_now_parts() -> (r: (i64, u32))
    ensures
        r.0 >= 0,
        r.1 < 1_000_000_000,
{
    let now = chrono::Utc::now();
    (now.timestamp(), now.timestamp_subsec_nanos())
}

impl Timestamp {
    /// The current time.
    pub fn now() -> (t: Timestamp)
        ensures
            t.secs >= 0,
            t.nanos < 1_000_000_000,
    {
        let (secs, nanos) = utc_now_parts();
        Timestamp { secs, nanos }
    }
}

} // verus!
