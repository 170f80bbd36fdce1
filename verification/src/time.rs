//! Normalised spans of time and clock-relative time points.
//!
//! A [`Duration`] wraps the wire-level [`sys::Duration`] and keeps the
//! nanosecond part below one second; every operation here states its result
//! as a total count of nanoseconds.

use crate::sys::time as sys;
use crate::sys::time::NANOS_PER_SECOND;
use crate::uuid::Uuid;
use core::marker::PhantomData;
use vstd::prelude::*;

verus! {

/// The total span of a wire duration, as a count of nanoseconds.
pub open spec fn spec_total_nanos(d: sys::Duration) -> int {
    d.seconds * (NANOS_PER_SECOND as int) + d.nanos_of_second
}

/// A span of time whose nanosecond part is below one second.
#[derive(Copy, Clone, Debug, Hash, PartialEq, Eq, PartialOrd, Ord, Structural)]
pub struct Duration(pub sys::Duration);

impl Duration {
    /// The nanosecond part stays below one second.
    pub open spec fn wf(self) -> bool {
        self.0.nanos_of_second < NANOS_PER_SECOND
    }

    /// The whole span, as a count of nanoseconds.
    pub open spec fn as_nanos(self) -> int {
        spec_total_nanos(self.0)
    }

    /// The zero-length span.
    pub fn zero() -> (r: Duration)
        ensures
            r.wf(),
            r.as_nanos() == 0,
    {
        Duration(sys::Duration { seconds: 0, nanos_of_second: 0 })
    }

    /// A whole number of seconds.
    pub fn from_seconds(seconds: i64) -> (r: Duration)
        ensures
            r.wf(),
            r.as_nanos() == seconds * (NANOS_PER_SECOND as int),
    {
        Duration(sys::Duration { seconds, nanos_of_second: 0 })
    }

    /// Seconds plus nanoseconds, carrying whole seconds out of the
    /// nanosecond part.
    pub fn from_seconds_and_nanos(seconds: i64, nanos: u32) -> (r: Duration)
        requires
            seconds + nanos / NANOS_PER_SECOND <= i64::MAX,
        ensures
            r.wf(),
            r.as_nanos() == seconds * (NANOS_PER_SECOND as int) + nanos,
    {
        let mut seconds = seconds;
        let mut nanos = nanos;
        let ghost total = seconds * (NANOS_PER_SECOND as int) + nanos;
        while nanos >= NANOS_PER_SECOND
            invariant
                seconds * (NANOS_PER_SECOND as int) + nanos == total,
                seconds + nanos / NANOS_PER_SECOND <= i64::MAX,
            decreases nanos,
        {
            nanos = nanos - NANOS_PER_SECOND;
            seconds = seconds + 1;
        }
        Duration(sys::Duration { seconds, nanos_of_second: nanos })
    }

    /// Normalises a wire duration.
    pub fn from_system(dur: sys::Duration) -> (r: Duration)
        requires
            dur.seconds + dur.nanos_of_second / NANOS_PER_SECOND <= i64::MAX,
        ensures
            r.wf(),
            r.as_nanos() == spec_total_nanos(dur),
    {
        Self::from_seconds_and_nanos(dur.seconds, dur.nanos_of_second)
    }

    /// The wire form.
    pub fn into_system(self) -> (r: sys::Duration)
        ensures
            r == self.0,
    {
        self.0
    }

    /// The sum of two spans.
    pub fn add(self, rhs: Duration) -> (r: Duration)
        requires
            self.wf(),
            rhs.wf(),
            i64::MIN <= self.0.seconds + rhs.0.seconds,
            self.0.seconds + rhs.0.seconds + 1 <= i64::MAX,
        ensures
            r.wf(),
            r.as_nanos() == self.as_nanos() + rhs.as_nanos(),
    {
        let mut seconds = self.0.seconds + rhs.0.seconds;
        let mut nanos = self.0.nanos_of_second + rhs.0.nanos_of_second;
        if nanos >= NANOS_PER_SECOND {
            nanos = nanos - NANOS_PER_SECOND;
            seconds = seconds + 1;
        }
        Duration(sys::Duration { seconds, nanos_of_second: nanos })
    }

    /// The difference of two spans.
    pub fn sub(self, rhs: Duration) -> (r: Duration)
        requires
            self.wf(),
            rhs.wf(),
            i64::MIN <= self.0.seconds - rhs.0.seconds - 1,
            self.0.seconds - rhs.0.seconds <= i64::MAX,
        ensures
            r.wf(),
            r.as_nanos() == self.as_nanos() - rhs.as_nanos(),
    {
        let mut seconds = self.0.seconds - rhs.0.seconds;
        let nanos: u32;
        if self.0.nanos_of_second < rhs.0.nanos_of_second {
            nanos = self.0.nanos_of_second + NANOS_PER_SECOND - rhs.0.nanos_of_second;
            seconds = seconds - 1;
        } else {
            nanos = self.0.nanos_of_second - rhs.0.nanos_of_second;
        }
        Duration(sys::Duration { seconds, nanos_of_second: nanos })
    }
}

/// A point in time, measured as an offset from the epoch of the clock `C`.
#[derive(Debug, Hash, PartialEq, Eq, Structural)]
pub struct TimePoint<C> {
    pub dur: sys::Duration,
    pub _clock: PhantomData<C>,
}

impl<C> Copy for TimePoint<C> {

}

impl<C> Clone for TimePoint<C> {
    fn clone(&self) -> (r: Self)
        ensures
            r == *self,
    {
        *self
    }
}

impl<C> TimePoint<C> {
    /// The offset is kept normalised.
    pub open spec fn wf(self) -> bool {
        self.dur.nanos_of_second < NANOS_PER_SECOND
    }

    /// The offset from the clock's epoch, as a count of nanoseconds.
    pub open spec fn as_nanos(self) -> int {
        spec_total_nanos(self.dur)
    }

    /// The clock's epoch itself.
    pub fn epoch() -> (r: TimePoint<C>)
        ensures
            r.wf(),
            r.as_nanos() == 0,
    {
        TimePoint { dur: sys::Duration { seconds: 0, nanos_of_second: 0 }, _clock: PhantomData }
    }

    /// The point at the given offset past the epoch.
    pub fn from_epoch_offset(dur: Duration) -> (r: TimePoint<C>)
        ensures
            r.dur == dur.0,
            r.as_nanos() == dur.as_nanos(),
            dur.wf() ==> r.wf(),
    {
        TimePoint { dur: dur.0, _clock: PhantomData }
    }

    /// The offset of this point past the epoch.
    pub fn since_epoch(self) -> (r: Duration)
        ensures
            r.0 == self.dur,
            r.as_nanos() == self.as_nanos(),
            self.wf() ==> r.wf(),
    {
        Duration(self.dur)
    }

    /// The span from `other` up to this point.
    pub fn between(self, other: TimePoint<C>) -> (r: Duration)
        requires
            self.wf(),
            other.wf(),
            i64::MIN <= self.dur.seconds - other.dur.seconds - 1,
            self.dur.seconds - other.dur.seconds <= i64::MAX,
        ensures
            r.wf(),
            r.as_nanos() == self.as_nanos() - other.as_nanos(),
    {
        self.since_epoch().sub(Duration(other.dur))
    }
}

/// A named kernel clock.  The two clocks below are the only ones this layer
/// names; each one knows its device identifier.
pub trait Clock {
    /// The clock's device identifier.
    spec fn spec_clock_uuid() -> Uuid;

    /// Reads the clock's device identifier.
    fn clock_uuid() -> (r: Uuid)
        ensures
            r == Self::spec_clock_uuid(),
    ;
}

/// The realtime clock, counting from the Unix epoch.
#[derive(Copy, Clone, Debug, Hash, PartialEq, Eq, Structural)]
pub struct SystemClock;

impl Clock for SystemClock {
    open spec fn spec_clock_uuid() -> Uuid {
        Uuid { major: 0xc8baabafb5343fa1, minor: 0x929e6177713e93f4 }
    }

    fn clock_uuid() -> (r: Uuid) {
        sys::clock_epoch()
    }
}

/// The monotonic clock, counting from an unspecified origin.
#[derive(Copy, Clone, Debug, Hash, PartialEq, Eq, Structural)]
pub struct MonotonicClock;

impl Clock for MonotonicClock {
    open spec fn spec_clock_uuid() -> Uuid {
        Uuid { major: 0xdf95f5b1bbb73562, minor: 0x8c7a6c3ce0a5dd95 }
    }

    fn clock_uuid() -> (r: Uuid) {
        sys::clock_monotonic()
    }
}

} // verus!
