//! Lengths of time and the wall clock.

use vstd::prelude::*;
use std::time::Duration;
use std::time::SystemTime;

verus! {

/// A length of time: whole seconds and the nanoseconds past them.
#[derive(Debug, Clone, Copy, PartialEq, Eq, Structural)]
pub struct TimeSpan {
    pub secs: u64,
    /// Always below one billion.
    pub nanos: u32,
}

impl TimeSpan {
    /// A span of whole seconds.
    pub fn from_secs(secs: u64) -> (r: TimeSpan)
        ensures
            r.secs == secs,
            r.nanos == 0,
    {
        TimeSpan { secs, nanos: 0 }
    }

    /// The whole seconds of the span.
    pub fn as_secs(&self) -> (r: u64)
        ensures
            r == self.secs,
    {
        self.secs
    }
}

#[verifier::external_type_specification]
#[verifier::external_body]
pub struct ExSystemTime(SystemTime);

/// Calls `SystemTime::now`; the current time is not described.
#[verifier::external_body]
fn system_time_now() -> SystemTime {
    SystemTime::now()
}

/// Calls `SystemTime::duration_since(UNIX_EPOCH)`, `None` when the clock is
/// before the epoch; the duration is not described.
#[verifier::external_body]
fn duration_since_epoch(t: &SystemTime) -> Option<Duration> {
    t.duration_since(std::time::UNIX_EPOCH).ok()
}

/// Calls `Duration::as_secs` (the whole seconds of a duration); Verus sees
/// nothing inside a `Duration`, so the result is not described.
#[verifier::external_body]
fn duration_whole_secs(d: &Duration) -> u64 {
    d.as_secs()
}

/// Seconds since the Unix epoch (0 when the clock is before it).
/// The clock may read any time, so every `u64` is a possible result and
/// no `ensures` clause is given.
pub fn unix_time() -> u64 {
    match duration_since_epoch(&system_time_now()) {
        Some(d) => duration_whole_secs(&d),
        None => 0,
    }
}

} // verus!
