//! Instants and spans of a monotonic clock, counted in nanoseconds.

use vstd::prelude::*;

verus! {

pub const NANOS_PER_MILLI: u64 = 1_000_000;

pub const NANOS_PER_SEC: u64 = 1_000_000_000;

/// A point on a monotonic clock, counted from that clock's origin.
#[derive(Clone, Copy, Debug, PartialEq, Eq, Hash, Structural)]
pub struct Instant {
    pub nanos: u64,
}

/// A span of time.
#[derive(Clone, Copy, Debug, PartialEq, Eq, Hash, Structural)]
pub struct Duration {
    pub nanos: u64,
}

impl Duration {
    pub fn from_nanos(nanos: u64) -> (r: Duration)
        ensures
            r.nanos == nanos,
    {
        Duration { nanos }
    }

    pub fn from_millis(millis: u64) -> (r: Duration)
        requires
            millis * NANOS_PER_MILLI <= u64::MAX,
        ensures
            r.nanos == millis * NANOS_PER_MILLI,
    {
        Duration { nanos: millis * NANOS_PER_MILLI }
    }

    pub fn from_secs(secs: u64) -> (r: Duration)
        requires
            secs * NANOS_PER_SEC <= u64::MAX,
        ensures
            r.nanos == secs * NANOS_PER_SEC,
    {
        Duration { nanos: secs * NANOS_PER_SEC }
    }
}

impl Instant {
    pub open spec fn reaches(self, d: Duration) -> bool {
        self.nanos + d.nanos <= u64::MAX
    }

    /// The span from `earlier` to here, zero where `earlier` lies ahead.
    pub open spec fn since(self, earlier: Instant) -> int {
        if self.nanos >= earlier.nanos {
            self.nanos - earlier.nanos
        } else {
            0
        }
    }

    pub fn from_nanos(nanos: u64) -> (r: Instant)
        ensures
            r.nanos == nanos,
    {
        Instant { nanos }
    }

    /// The instant that lies `d` ahead.
    pub fn after(self, d: Duration) -> (r: Instant)
        requires
            self.reaches(d),
        ensures
            r.nanos == self.nanos + d.nanos,
    {
        Instant { nanos: self.nanos + d.nanos }
    }

    /// The span from `earlier` to here, zero where `earlier` lies ahead.
    pub fn duration_since(self, earlier: Instant) -> (r: Duration)
        ensures
            r.nanos == self.since(earlier),
    {
        if self.nanos >= earlier.nanos {
            Duration { nanos: self.nanos - earlier.nanos }
        } else {
            Duration { nanos: 0 }
        }
    }
}

/// Waiting a span and looking back gives the span; looking ahead gives none.
pub proof fn spans_are_measured_back(at: Instant, d: Duration, later: Instant)
    ensures
        at.reaches(d) <==> at.nanos + d.nanos < 0x1_0000_0000_0000_0000,
        later.nanos == at.nanos + d.nanos ==> later.since(at) == d.nanos,
        later.nanos <= at.nanos ==> later.since(at) == 0,
        NANOS_PER_SEC == 1_000 * NANOS_PER_MILLI,
        NANOS_PER_MILLI == 1_000_000,
{
}

/// Seconds and milliseconds measure one time: a second is as long as a thousand
/// milliseconds and as a billion nanoseconds, and what lies a span ahead was
/// that span ago once it is reached.
pub proof fn units_measure_one_time(
    secs: u64,
    millis: u64,
    nanos: u64,
    in_secs: Duration,
    in_millis: Duration,
    in_nanos: Duration,
    at: Instant,
    later: Instant,
    back: Duration,
)
    requires
        call_ensures(Duration::from_secs, (secs,), in_secs),
        call_ensures(Duration::from_millis, (millis,), in_millis),
        call_ensures(Duration::from_nanos, (nanos,), in_nanos),
        call_ensures(Instant::after, (at, in_millis), later),
        call_ensures(Instant::duration_since, (later, at), back),
    ensures
        millis == 1_000 * secs ==> in_millis == in_secs,
        nanos == 1_000_000 * millis ==> in_nanos == in_millis,
        in_nanos.nanos == nanos,
        back == in_millis,
        later.nanos - at.nanos == 1_000_000 * millis,
{
}

/// An instant is as many nanoseconds along as it was made with.
pub proof fn instants_are_counted_in_nanoseconds(nanos: u64, at: Instant)
    requires
        call_ensures(Instant::from_nanos, (nanos,), at),
    ensures
        at.nanos == nanos,
{
}

} // verus!
