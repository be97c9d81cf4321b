//! Points in time and durations, counted in nanoseconds.

use vstd::prelude::*;

verus! {

/// Nanoseconds in one millisecond.
pub const NS_PER_MS: u64 = 1_000_000;

/// A point in time or a duration, in nanoseconds.
#[derive(Debug, Clone, Copy, PartialEq, Eq, Structural)]
pub struct ClockTime {
    pub ns: u64,
}

/// The later of two points in time.
pub open spec fn later(a: ClockTime, b: ClockTime) -> ClockTime {
    if a.ns >= b.ns {
        a
    } else {
        b
    }
}

impl ClockTime {
    /// Whether `mseconds` milliseconds can be counted in nanoseconds.
    pub open spec fn fits_mseconds(mseconds: int) -> bool {
        mseconds * NS_PER_MS <= u64::MAX
    }

    /// `mseconds` milliseconds.
    pub fn from_mseconds(mseconds: u64) -> (r: ClockTime)
        requires
            Self::fits_mseconds(mseconds as int),
        ensures
            r.ns == mseconds * NS_PER_MS,
    {
        ClockTime { ns: mseconds * NS_PER_MS }
    }

    /// The time zero.
    pub fn zero() -> (r: ClockTime)
        ensures
            r.ns == 0,
    {
        ClockTime { ns: 0 }
    }

    /// The whole milliseconds in this time.
    pub fn mseconds(self) -> (r: u64)
        ensures
            r == self.ns as int / NS_PER_MS as int,
    {
        self.ns / NS_PER_MS
    }

    /// The sum of two times.
    pub fn plus(self, other: ClockTime) -> (r: ClockTime)
        requires
            self.ns + other.ns <= u64::MAX,
        ensures
            r.ns == self.ns + other.ns,
    {
        ClockTime { ns: self.ns + other.ns }
    }

    /// The difference of two times, zero where `other` is the later one.
    pub fn saturating_sub(self, other: ClockTime) -> (r: ClockTime)
        ensures
            r.ns == if self.ns >= other.ns {
                self.ns - other.ns
            } else {
                0
            },
    {
        if self.ns >= other.ns {
            ClockTime { ns: self.ns - other.ns }
        } else {
            ClockTime { ns: 0 }
        }
    }

    /// The difference of two times, `None` where `other` is the later one.
    pub fn checked_sub(self, other: ClockTime) -> (r: Option<ClockTime>)
        ensures
            r == if self.ns >= other.ns {
                Some(ClockTime { ns: (self.ns - other.ns) as u64 })
            } else {
                None
            },
    {
        if self.ns >= other.ns {
            Some(ClockTime { ns: self.ns - other.ns })
        } else {
            None
        }
    }

    /// The later of two times.
    pub fn max(self, other: ClockTime) -> (r: ClockTime)
        ensures
            r == later(self, other),
    {
        if self.ns >= other.ns {
            self
        } else {
            other
        }
    }
}

/// The later of two times is one of them, and neither is after it.
pub proof fn law_later(a: ClockTime, b: ClockTime)
    ensures
        later(a, b) == a || later(a, b) == b,
        a.ns <= later(a, b).ns,
        b.ns <= later(a, b).ns,
{
}

/// Times are counted, added and taken from each other in nanoseconds; a time
/// is never less than zero.
pub proof fn law_times(
    a: ClockTime,
    b: ClockTime,
    ms: u64,
    sum: ClockTime,
    rest: ClockTime,
    left: Option<ClockTime>,
    whole: u64,
    counted: ClockTime,
)
    requires
        a.ns + b.ns <= u64::MAX,
        ms * 1_000_000 <= u64::MAX,
        call_ensures(ClockTime::plus, (a, b), sum),
        call_ensures(ClockTime::saturating_sub, (a, b), rest),
        call_ensures(ClockTime::checked_sub, (a, b), left),
        call_ensures(ClockTime::mseconds, (a,), whole),
        call_ensures(ClockTime::from_mseconds, (ms,), counted),
    ensures
        sum.ns == a.ns + b.ns,
        a.ns >= b.ns ==> rest.ns + b.ns == a.ns,
        a.ns < b.ns ==> rest.ns == 0,
        left is Some <==> a.ns >= b.ns,
        left is Some ==> left->0.ns + b.ns == a.ns,
        1_000_000 * whole <= a.ns < 1_000_000 * (whole + 1),
        counted.ns == 1_000_000 * ms,
{
}

} // verus!
