//! Time, as the cache sees it.
//!
//! A span of time is a plain number of nanoseconds, so that every
//! computation on it can be verified. Readings of the clock itself come
//! from `std::time::Instant`, the monotonic clock: an `Instant` is opaque
//! here, and the one thing ever asked of it is how many nanoseconds have
//! passed since it was taken. Nothing is assumed about such a reading;
//! whatever the clock answers, the logic above is verified for that answer.

use vstd::prelude::*;

verus! {

/// A span of time with nanosecond resolution, mirroring what
/// `std::time::Duration` offers of construction from seconds,
/// milliseconds and nanoseconds.
#[derive(Clone, Copy, Debug, PartialEq, Eq, Structural)]
pub struct Duration {
    nanos: u128,
}

impl View for Duration {
    type V = u128;

    closed spec fn view(&self) -> u128 {
        self.nanos
    }
}

impl Duration {
    /// A span of `secs` whole seconds plus `nanos` further nanoseconds.
    pub fn new(secs: u64, nanos: u32) -> (d: Duration)
        ensures
            d@ == secs * 1_000_000_000 + nanos,
    {
        Duration { nanos: (secs as u128) * 1_000_000_000 + (nanos as u128) }
    }

    /// A span of `secs` whole seconds.
    pub fn from_secs(secs: u64) -> (d: Duration)
        ensures
            d@ == secs * 1_000_000_000,
    {
        Duration { nanos: (secs as u128) * 1_000_000_000 }
    }

    /// A span of `millis` milliseconds.
    pub fn from_millis(millis: u64) -> (d: Duration)
        ensures
            d@ == millis * 1_000_000,
    {
        Duration { nanos: (millis as u128) * 1_000_000 }
    }

    /// A span of `nanos` nanoseconds.
    pub fn from_nanos(nanos: u128) -> (d: Duration)
        ensures
            d@ == nanos,
    {
        Duration { nanos }
    }

    /// The whole span, in nanoseconds.
    pub fn as_nanos(&self) -> (n: u128)
        ensures
            n == self@,
    {
        self.nanos
    }
}

#[verifier::external_type_specification]
#[verifier::external_body]
pub struct ExInstant(std::time::Instant);

/// Relies on `std::time::Instant::now`: a reading of the monotonic clock.
/// An `Instant` is opaque, and nothing is assumed about which reading
/// comes back.
#[verifier::external_body]
pub(crate) fn monotonic_now() -> std::time::Instant {
    std::time::Instant::now()
}

/// Relies on `std::time::Instant::elapsed`: the monotonic time that has
/// passed since `start`, handed back as a plain count of nanoseconds.
/// The count depends on when the clock is read, so nothing is assumed
/// about its value.
#[verifier::external_body]
pub(crate) fn nanos_since(start: &std::time::Instant) -> u128 {
    start.elapsed().as_nanos()
}

} // verus!
