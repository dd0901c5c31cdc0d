//! Points in time and spans between them, counted in nanoseconds.

use vstd::prelude::*;

verus! {

/// A reading of a monotonic clock: nanoseconds since the clock's origin.
#[derive(Debug, Clone, Copy, PartialEq, Eq, PartialOrd, Ord, Structural)]
pub struct TimePoint {
    pub nanos: u128,
}

/// A length of time in nanoseconds.
#[derive(Debug, Clone, Copy, PartialEq, Eq, PartialOrd, Ord, Structural)]
pub struct TimeSpan {
    pub nanos: u128,
}

/// How many nanoseconds a millisecond has.
pub const NANOS_PER_MILLI: u128 = 1_000_000;

/// How many nanoseconds a second has.
pub const NANOS_PER_SEC: u128 = 1_000_000_000;

/// `ms` milliseconds in nanoseconds.
pub open spec fn millis(ms: nat) -> nat {
    ms * NANOS_PER_MILLI as nat
}

/// The span between two readings, nothing where `later` is the earlier one.
pub open spec fn elapsed_nanos(earlier: TimePoint, later: TimePoint) -> nat {
    if later.nanos >= earlier.nanos {
        (later.nanos - earlier.nanos) as nat
    } else {
        0
    }
}

impl TimeSpan {
    /// The empty span.
    pub fn zero() -> (r: TimeSpan)
        ensures
            r.nanos == 0,
    {
        TimeSpan { nanos: 0 }
    }

    /// A span of `ms` milliseconds.
    pub fn from_millis(ms: u64) -> (r: TimeSpan)
        ensures
            r.nanos == millis(ms as nat),
    {
        TimeSpan { nanos: ms as u128 * NANOS_PER_MILLI }
    }

    /// A span of `s` seconds.
    pub fn from_secs(s: u64) -> (r: TimeSpan)
        ensures
            r.nanos == s * NANOS_PER_SEC,
    {
        TimeSpan { nanos: s as u128 * NANOS_PER_SEC }
    }

    /// The whole milliseconds of the span.
    pub fn as_millis(self) -> (r: u128)
        ensures
            r == self.nanos / NANOS_PER_MILLI,
    {
        self.nanos / NANOS_PER_MILLI
    }

    /// Whether the span is empty.
    pub fn is_zero(self) -> (r: bool)
        ensures
            r == (self.nanos == 0),
    {
        self.nanos == 0
    }

    /// Both spans after each other.
    pub fn plus(self, other: TimeSpan) -> (r: TimeSpan)
        requires
            self.nanos + other.nanos <= u128::MAX,
        ensures
            r.nanos == self.nanos + other.nanos,
    {
        TimeSpan { nanos: self.nanos + other.nanos }
    }
}

impl TimePoint {
    /// The reading one `span` later.
    pub fn plus(self, span: TimeSpan) -> (r: TimePoint)
        requires
            self.nanos + span.nanos <= u128::MAX,
        ensures
            r.nanos == self.nanos + span.nanos,
    {
        TimePoint { nanos: self.nanos + span.nanos }
    }

    /// The reading one `span` earlier, where the clock had started by that time.
    pub fn checked_sub(self, span: TimeSpan) -> (r: Option<TimePoint>)
        ensures
            r == if self.nanos >= span.nanos {
                Some(TimePoint { nanos: (self.nanos - span.nanos) as u128 })
            } else {
                None::<TimePoint>
            },
    {
        if self.nanos >= span.nanos {
            Some(TimePoint { nanos: self.nanos - span.nanos })
        } else {
            None
        }
    }

    /// The span since `earlier`, where `earlier` is not after this reading.
    pub fn checked_duration_since(self, earlier: TimePoint) -> (r: Option<TimeSpan>)
        ensures
            r == if self.nanos >= earlier.nanos {
                Some(TimeSpan { nanos: (self.nanos - earlier.nanos) as u128 })
            } else {
                None::<TimeSpan>
            },
    {
        if self.nanos >= earlier.nanos {
            Some(TimeSpan { nanos: self.nanos - earlier.nanos })
        } else {
            None
        }
    }

    /// The span since `earlier`, nothing where `earlier` is after this reading.
    pub fn duration_since(self, earlier: TimePoint) -> (r: TimeSpan)
        ensures
            r.nanos == elapsed_nanos(earlier, self),
    {
        match self.checked_duration_since(earlier) {
            Some(span) => span,
            None => TimeSpan::zero(),
        }
    }

    /// Whether this reading is after `other`.
    pub fn is_after(self, other: TimePoint) -> (r: bool)
        ensures
            r == (self.nanos > other.nanos),
    {
        self.nanos > other.nanos
    }
}

} // verus!
