//! Points in time and spans of time, counted in ticks of the `embassy-time` timebase.
//!
//! The driver logic only compares and adds tick counts, so it keeps them as plain integers here.
//! Reading the clock and turning milliseconds into ticks are left to `embassy-time`.

use vstd::prelude::*;

verus! {

/// Ticks of the timebase per millisecond.
///
/// This crate enables the `std` feature of `embassy-time`, which selects its
/// `tick-hz-1_000_000` feature. `embassy-time-driver` defines its `TICK_HZ` once for each
/// `tick-hz-*` feature, so a build cannot select a second rate beside it: in every build that
/// contains this crate the timebase counts one million ticks per second.
pub const TICKS_PER_MILLI: u64 = 1000;

/// Longest span, in milliseconds, that may be turned into ticks: the largest whose tick count
/// fits in a `u64`. `embassy_time::Duration::from_millis` multiplies by the ticks per millisecond,
/// which would overflow beyond it.
pub const MAX_MILLIS: u64 = 18_446_744_073_709_551;

/// A point in time, as ticks of the timebase since the system started.
#[derive(Copy, Clone, Debug, PartialEq, Eq, Structural)]
pub struct Instant {
    ticks: u64,
}

/// A span of time, as ticks of the timebase.
#[derive(Copy, Clone, Debug, PartialEq, Eq, Structural)]
pub struct Duration {
    ticks: u64,
}

impl View for Instant {
    type V = u64;

    /// The tick count.
    closed spec fn view(&self) -> u64 {
        self.ticks
    }
}

impl View for Duration {
    type V = u64;

    /// The tick count.
    closed spec fn view(&self) -> u64 {
        self.ticks
    }
}

/// The number of ticks `ms` milliseconds span (for `ms <= MAX_MILLIS`).
pub open spec fn ticks_of_millis(ms: u64) -> u64 {
    (ms * TICKS_PER_MILLI) as u64
}

/// Reads the clock through `embassy_time::Instant::now`.
///
/// Nothing is stated of the result: it is whatever the time driver reads at the moment of the call.
#[verifier::external_body]
pub(crate) fn clock_now() -> (r: Instant) {
    Instant { ticks: embassy_time::Instant::now().as_ticks() }
}

/// Converts milliseconds to ticks through `embassy_time::Duration::from_millis`.
///
/// `from_millis` computes `div_ceil(ms * (TICK_HZ / 1000), 1)` at a rate of one million ticks per
/// second (see `TICKS_PER_MILLI`), which is `ms * 1000`; it does not overflow for `ms <= MAX_MILLIS`.
#[verifier::external_body]
fn millis_to_ticks(ms: u64) -> (r: u64)
    requires
        ms <= MAX_MILLIS,
    ensures
        r == ticks_of_millis(ms),
{
    embassy_time::Duration::from_millis(ms).as_ticks()
}

impl Instant {
    /// The instant `ticks` ticks after the system started, as a value in specifications.
    pub closed spec fn at(ticks: u64) -> Instant {
        Instant { ticks }
    }

    /// This instant moved `duration` later, or the latest representable instant on overflow, as
    /// a value in specifications.
    pub open spec fn later(self, duration: Duration) -> Instant {
        Instant::at(
            if self@ + duration@ > u64::MAX {
                u64::MAX
            } else {
                (self@ + duration@) as u64
            },
        )
    }

    /// An instant is its tick count.
    pub proof fn lemma_at(ticks: u64)
        ensures
            #[trigger] Instant::at(ticks)@ == ticks,
    {
    }

    /// Two instants with the same tick count are the same.
    pub proof fn lemma_eq(a: Instant, b: Instant)
        requires
            a@ == b@,
        ensures
            a == b,
    {
    }

    /// The instant `ticks` ticks after the system started.
    pub fn from_ticks(ticks: u64) -> (r: Instant)
        ensures
            r == Instant::at(ticks),
            r@ == ticks,
    {
        Instant { ticks }
    }

    /// Ticks since the system started.
    pub fn as_ticks(&self) -> (r: u64)
        ensures
            r == self@,
    {
        self.ticks
    }

    /// The current time.
    pub fn now() -> (r: Instant) {
        clock_now()
    }

    /// Whether this instant is at or after `other`.
    pub fn reached(&self, other: Instant) -> (r: bool)
        ensures
            r == (self@ >= other@),
    {
        self.ticks >= other.ticks
    }

    /// The time from `earlier` to this instant, or zero if `earlier` is later.
    pub fn saturating_duration_since(&self, earlier: Instant) -> (r: Duration)
        ensures
            r@ == (if self@ < earlier@ {
                0
            } else {
                self@ - earlier@
            }),
    {
        if self.ticks < earlier.ticks {
            Duration { ticks: 0 }
        } else {
            Duration { ticks: self.ticks - earlier.ticks }
        }
    }

    /// This instant moved `duration` later, or the latest representable instant on overflow.
    pub fn saturating_add(self, duration: Duration) -> (r: Instant)
        ensures
            r == self.later(duration),
            r@ == (if self@ + duration@ > u64::MAX {
                u64::MAX
            } else {
                (self@ + duration@) as u64
            }),
    {
        if self.ticks > u64::MAX - duration.ticks {
            Instant { ticks: u64::MAX }
        } else {
            Instant { ticks: self.ticks + duration.ticks }
        }
    }
}

impl Duration {
    /// A span of `ms` milliseconds, as a value in specifications.
    pub closed spec fn millis(ms: u64) -> Duration {
        Duration { ticks: ticks_of_millis(ms) }
    }

    /// A span of milliseconds is the ticks the timebase counts in it.
    pub proof fn lemma_millis(ms: u64)
        ensures
            #[trigger] Duration::millis(ms)@ == ticks_of_millis(ms),
    {
    }

    /// The empty span.
    pub fn zero() -> (r: Duration)
        ensures
            r@ == 0,
    {
        Duration { ticks: 0 }
    }

    /// A span of `ticks` ticks.
    pub fn from_ticks(ticks: u64) -> (r: Duration)
        ensures
            r@ == ticks,
    {
        Duration { ticks }
    }

    /// The length of the span in ticks.
    pub fn as_ticks(&self) -> (r: u64)
        ensures
            r == self@,
    {
        self.ticks
    }

    /// A span of `ms` milliseconds, rounded up to whole ticks.
    pub fn from_millis(ms: u64) -> (r: Duration)
        requires
            ms <= MAX_MILLIS,
        ensures
            r == Duration::millis(ms),
            r@ == ticks_of_millis(ms),
    {
        Duration { ticks: millis_to_ticks(ms) }
    }

    /// The longer of two spans.
    pub fn max(self, other: Duration) -> (r: Duration)
        ensures
            r@ == (if self@ >= other@ {
                self@
            } else {
                other@
            }),
    {
        if self.ticks >= other.ticks {
            self
        } else {
            other
        }
    }
}

} // verus!
