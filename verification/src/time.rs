//! Instants and spans of time with nanosecond resolution.
//!
//! Time is kept in whole nanoseconds, so that every operation on it is exact.

use vstd::prelude::*;

verus! {

/// Number of nanoseconds in one second.
pub const NANOSECONDS_PER_SECOND: i128 = 1_000_000_000;

/// Time scale in which an [`Epoch`] counts.
#[derive(Clone, Copy, Debug, PartialEq, Eq, Structural, Hash)]
pub enum TimeScale {
    /// International atomic time
    TAI,
    /// Terrestrial time
    TT,
    /// Ephemeris time
    ET,
    /// Barycentric dynamical time
    TDB,
    /// Coordinated universal time
    UTC,
    /// GPS time
    GPST,
    /// Galileo system time
    GST,
    /// BeiDou time
    BDT,
}

/// Signed span of time, in whole nanoseconds.
#[derive(Clone, Copy, Debug, PartialEq, Eq, Structural, Hash)]
pub struct Duration {
    /// Total number of nanoseconds; negative for a span that points backwards.
    pub nanoseconds: i128,
}

impl Duration {
    /// The empty span.
    pub fn zero() -> (d: Duration)
        ensures
            d.nanoseconds == 0,
    {
        Duration { nanoseconds: 0 }
    }

    /// Span made of `nanoseconds` nanoseconds.
    pub fn from_total_nanoseconds(nanoseconds: i128) -> (d: Duration)
        ensures
            d.nanoseconds == nanoseconds,
    {
        Duration { nanoseconds }
    }

    /// Total number of nanoseconds in this span.
    pub fn total_nanoseconds(&self) -> (n: i128)
        ensures
            n == self.nanoseconds,
    {
        self.nanoseconds
    }
}

/// Instant in time: the span elapsed since the reference instant of a time scale.
#[derive(Clone, Copy, Debug, PartialEq, Eq, Structural, Hash)]
pub struct Epoch {
    /// Time elapsed since the reference instant of `time_scale`, counted in that scale.
    pub duration: Duration,
    /// Time scale in which `duration` counts.
    pub time_scale: TimeScale,
}

impl Epoch {
    /// Instant that lies `duration` after the reference instant of `time_scale`.
    pub fn from_duration(duration: Duration, time_scale: TimeScale) -> (e: Epoch)
        ensures
            e.duration == duration,
            e.time_scale == time_scale,
    {
        Epoch { duration, time_scale }
    }

    /// Time elapsed since the reference instant of this epoch's own time scale.
    pub fn to_duration(&self) -> (d: Duration)
        ensures
            d == self.duration,
    {
        self.duration
    }
}

} // verus!
