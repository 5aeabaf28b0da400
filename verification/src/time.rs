use vstd::prelude::*;

verus! {

/// Nanoseconds in one microsecond.
pub const NANOS_PER_MICRO: u128 = 1_000;

/// Nanoseconds in one millisecond.
pub const NANOS_PER_MILLI: u128 = 1_000_000;

/// Nanoseconds in one second.
pub const NANOS_PER_SEC: u128 = 1_000_000_000;

/// A span of time, held as a whole number of nanoseconds.
///
/// All arithmetic on spans is integer arithmetic, so that converting between
/// sample positions and times never drifts.
#[derive(Clone, Copy, Debug, PartialEq, Eq, Structural)]
pub struct Duration {
    pub nanos: u128,
}

impl Duration {
    /// The empty span.
    pub fn zero() -> (d: Duration)
        ensures
            d.nanos == 0,
    {
        Duration { nanos: 0 }
    }

    /// The span of `nanos` nanoseconds.
    pub fn from_nanos(nanos: u128) -> (d: Duration)
        ensures
            d.nanos == nanos,
    {
        Duration { nanos }
    }

    /// The span of `micros` microseconds.
    pub fn from_micros(micros: u64) -> (d: Duration)
        ensures
            d.nanos == micros * NANOS_PER_MICRO,
    {
        Duration { nanos: micros as u128 * NANOS_PER_MICRO }
    }

    /// The span of `millis` milliseconds.
    pub fn from_millis(millis: u64) -> (d: Duration)
        ensures
            d.nanos == millis * NANOS_PER_MILLI,
    {
        Duration { nanos: millis as u128 * NANOS_PER_MILLI }
    }

    /// The span of `secs` seconds.
    pub fn from_secs(secs: u64) -> (d: Duration)
        ensures
            d.nanos == secs * NANOS_PER_SEC,
    {
        Duration { nanos: secs as u128 * NANOS_PER_SEC }
    }

    /// The span in nanoseconds.
    pub fn as_nanos(&self) -> (n: u128)
        ensures
            n == self.nanos,
    {
        self.nanos
    }

    /// Whole microseconds in the span; a remainder is dropped.
    pub fn as_micros(&self) -> (n: u128)
        ensures
            n == self.nanos / NANOS_PER_MICRO,
    {
        self.nanos / NANOS_PER_MICRO
    }

    /// Whole seconds in the span; a remainder is dropped.
    pub fn as_secs(&self) -> (n: u128)
        ensures
            n == self.nanos / NANOS_PER_SEC,
    {
        self.nanos / NANOS_PER_SEC
    }

    /// The sum of two spans, held at the largest span where it would pass it.
    pub fn saturating_add(&self, other: Duration) -> (d: Duration)
        ensures
            d.nanos == if self.nanos + other.nanos > u128::MAX {
                u128::MAX as int
            } else {
                self.nanos + other.nanos
            },
    {
        Duration { nanos: self.nanos.saturating_add(other.nanos) }
    }
}

} // verus!
