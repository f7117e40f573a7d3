//! Points in time, held as plain values.
//!
//! A timestamp is carried as seconds since the Unix epoch plus a
//! sub-second nanosecond part, so that contracts can speak about it
//! directly. Only reading the current time goes through the `time` crate.

use vstd::prelude::*;

verus! {

/// One point in time: whole seconds since the Unix epoch, plus the
/// nanoseconds into that second.
#[derive(Clone, Copy, Debug, Hash, PartialEq, Eq, Structural)]
pub struct DateTime {
    pub unix_seconds: i64,
    pub nanosecond: u32,
}

impl DateTime {
    /// A timestamp is well formed when its sub-second part names a
    /// nanosecond of one second.
    pub open spec fn wf(&self) -> bool {
        self.nanosecond < 1_000_000_000
    }

    /// Build a timestamp from its parts.
    pub fn new(unix_seconds: i64, nanosecond: u32) -> (r: Self)
        requires
            nanosecond < 1_000_000_000,
        ensures
            r == (DateTime { unix_seconds, nanosecond }),
            r.wf(),
    {
        DateTime { unix_seconds, nanosecond }
    }
}

/// Relies on `time::OffsetDateTime::now_utc` for the current wall-clock
/// time, `unix_timestamp` for its seconds since the Unix epoch, and
/// `nanosecond`, whose documentation bounds the result below one second.
#[verifier::external_body]
pub fn date_time_now() -> (r: DateTime)
    ensures
        r.wf(),
{
    let t = time::OffsetDateTime::now_utc();
    DateTime { unix_seconds: t.unix_timestamp(), nanosecond: t.nanosecond() }
}

/// A half-open window of time that an analytics query covers.
#[derive(Clone, Copy, Debug, Hash, PartialEq, Eq, Structural)]
pub struct TimeRange {
    /// Start of the window.
    pub start_time: DateTime,
    /// End of the window; an open window has none.
    pub end_time: Option<DateTime>,
}

} // verus!
