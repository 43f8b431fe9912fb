//! Utilities for the test durations: the min/max envelope accumulator
//! and conversion of durations into display units.
//!
//! A duration is carried as its whole number of nanoseconds.

use vstd::prelude::*;

use crate::enums::TimeUnit;

verus! {

/// Nanoseconds per microsecond.
pub const NANOS_PER_MICRO: u128 = 1000;

/// Nanoseconds per millisecond.
pub const NANOS_PER_MILLI: u128 = 1000000;

/// A duration expressed in the given unit, truncating.
pub open spec fn spec_duration_repr(nanos: u128, units: TimeUnit) -> u128 {
    match units {
        TimeUnit::Nanoseconds => nanos,
        TimeUnit::Microseconds => nanos / NANOS_PER_MICRO,
        TimeUnit::Milliseconds => nanos / NANOS_PER_MILLI,
    }
}

/// The minimum after offering a duration to the accumulator.
///
/// A minimum of zero counts as "no data yet", so the offered duration
/// always replaces it; otherwise the smaller value wins.
pub open spec fn spec_min_after(min: u128, nanos: u128) -> u128 {
    if min == 0 || nanos < min {
        nanos
    } else {
        min
    }
}

/// The maximum after offering a duration to the accumulator: the
/// larger value wins, and the initial zero loses to any positive
/// duration.
pub open spec fn spec_max_after(max: u128, nanos: u128) -> u128 {
    if nanos > max {
        nanos
    } else {
        max
    }
}

/// The minimum and maximum duration observed across a run, in
/// nanoseconds.
///
/// Both fields start at zero, which doubles as the "no data yet"
/// sentinel: a genuine zero-length sample is indistinguishable from an
/// empty accumulator, so a zero sample arriving after a positive one
/// makes the minimum start over.
pub struct MinMaxDuration {
    pub min: u128,
    pub max: u128,
}

impl MinMaxDuration {
    /// Creates an accumulator with both bounds at the zero sentinel.
    pub fn new() -> (r: MinMaxDuration)
        ensures
            r.min == 0,
            r.max == 0,
    {
        MinMaxDuration { min: 0, max: 0 }
    }

    /// Offers a duration as a candidate for the minimum. It becomes
    /// the minimum when the current minimum is still the zero sentinel
    /// or when it is smaller; the maximum is untouched.
    pub fn register_min(&mut self, duration: u128)
        ensures
            final(self).min == spec_min_after(old(self).min, duration),
            final(self).max == old(self).max,
    {
        if self.min == 0 || duration < self.min {
            self.min = duration;
        }
    }

    /// Offers a duration as a candidate for the maximum. It becomes
    /// the maximum when it is larger; the minimum is untouched.
    pub fn register_max(&mut self, duration: u128)
        ensures
            final(self).max == spec_max_after(old(self).max, duration),
            final(self).min == old(self).min,
    {
        if duration > self.max {
            self.max = duration;
        }
    }

    /// Returns the minimum and maximum expressed in the given unit,
    /// truncating.
    pub fn get_as_units(&self, units: &TimeUnit) -> (r: (u128, u128))
        ensures
            r.0 == spec_duration_repr(self.min, *units),
            r.1 == spec_duration_repr(self.max, *units),
    {
        (duration_repr(self.min, units), duration_repr(self.max, units))
    }
}

/// Law: offering one duration first to the minimum and then to the
/// maximum leaves the maximum at or above the minimum, from any prior
/// bounds. The new minimum never exceeds the offered duration and the
/// new maximum never falls below it.
pub proof fn lemma_register_keeps_envelope(min: u128, max: u128, duration: u128)
    ensures
        spec_min_after(min, duration) <= duration,
        spec_max_after(max, duration) >= duration,
        spec_max_after(max, duration) >= spec_min_after(min, duration),
{
}

/// Law: the first duration offered to a fresh accumulator becomes both
/// the minimum and the maximum.
pub proof fn lemma_first_registration(duration: u128)
    ensures
        spec_min_after(0, duration) == duration,
        spec_max_after(0, duration) == duration,
{
}

/// The coarsest unit that keeps the given maximum duration below 1000:
/// nanoseconds up to 999 ns, microseconds up to 999999 ns, and
/// milliseconds beyond.
pub open spec fn spec_display_units(max_nanos: u128) -> TimeUnit {
    if max_nanos < NANOS_PER_MICRO {
        TimeUnit::Nanoseconds
    } else if max_nanos < NANOS_PER_MILLI {
        TimeUnit::Microseconds
    } else {
        TimeUnit::Milliseconds
    }
}

/// Determines the unit to express the run's envelope in, from the
/// maximum observed duration in nanoseconds.
pub fn get_display_units(max_duration: u128) -> (r: TimeUnit)
    ensures
        r == spec_display_units(max_duration),
{
    if max_duration < NANOS_PER_MICRO {
        TimeUnit::Nanoseconds
    } else if max_duration < NANOS_PER_MILLI {
        TimeUnit::Microseconds
    } else {
        TimeUnit::Milliseconds
    }
}

/// Converts a duration in nanoseconds to the magnitude of the given
/// unit, truncating.
pub fn duration_repr(duration: u128, units: &TimeUnit) -> (r: u128)
    ensures
        r == spec_duration_repr(duration, *units),
{
    match units {
        TimeUnit::Nanoseconds => duration,
        TimeUnit::Microseconds => duration / NANOS_PER_MICRO,
        TimeUnit::Milliseconds => duration / NANOS_PER_MILLI,
    }
}

} // verus!
