//! Monotonic time, modelled as whole nanoseconds.
//!
//! Gesture recognition only ever compares intervals between monotonic clock
//! readings, so a reading is kept as the number of nanoseconds since some
//! arbitrary fixed origin, and a span as a number of nanoseconds.

use vstd::prelude::*;

verus! {

/// Nanoseconds in one millisecond.
pub const NANOS_PER_MILLI: u128 = 1_000_000;

/// A span of time, counted in whole nanoseconds.
#[derive(Clone, Copy, Debug, PartialEq, Eq, Structural)]
pub struct Duration {
    /// The length of the span in nanoseconds.
    pub nanos: u128,
}

impl Duration {
    /// A span of `millis` milliseconds.
    pub fn from_millis(millis: u64) -> (d: Duration)
        ensures
            d.nanos == millis * NANOS_PER_MILLI,
    {
        Duration { nanos: (millis as u128) * NANOS_PER_MILLI }
    }

    /// A span of `nanos` nanoseconds.
    pub fn from_nanos(nanos: u128) -> (d: Duration)
        ensures
            d.nanos == nanos,
    {
        Duration { nanos }
    }
}

/// A monotonic clock reading: nanoseconds since an arbitrary fixed origin.
///
/// Monotonic readings never decrease, so interval comparisons between them
/// are immune to wall-clock adjustments.
#[derive(Clone, Copy, Debug, PartialEq, Eq, Structural)]
pub struct Instant {
    /// Nanoseconds since the clock's origin.
    pub nanos: u128,
}

/// The time that passed from `earlier` to `later`, and zero when `later`
/// is in fact the earlier reading.
pub open spec fn spec_elapsed(later: Instant, earlier: Instant) -> int {
    if later.nanos >= earlier.nanos {
        later.nanos - earlier.nanos
    } else {
        0
    }
}

impl Instant {
    /// The reading `nanos` nanoseconds after the clock's origin.
    pub fn from_nanos(nanos: u128) -> (i: Instant)
        ensures
            i.nanos == nanos,
    {
        Instant { nanos }
    }

    /// The reading `millis` milliseconds after the clock's origin.
    pub fn from_millis(millis: u64) -> (i: Instant)
        ensures
            i.nanos == millis * NANOS_PER_MILLI,
    {
        Instant { nanos: (millis as u128) * NANOS_PER_MILLI }
    }

    /// The time that passed from `earlier` to `self`, saturating to zero
    /// when `self` is the earlier reading.
    pub fn duration_since(&self, earlier: Instant) -> (d: Duration)
        ensures
            d.nanos == spec_elapsed(*self, earlier),
    {
        if self.nanos >= earlier.nanos {
            Duration { nanos: self.nanos - earlier.nanos }
        } else {
            Duration { nanos: 0 }
        }
    }
}

} // verus!
