//! A timer that fires once per interval.
use vstd::prelude::*;
use std::time::{Duration, Instant};

verus! {

#[verifier::external_type_specification]
#[verifier::external_body]
pub struct ExInstant(std::time::Instant);

/// Relies on `Instant::now`: a reading of the monotonic clock.
#[verifier::external_body]
fn clock_now() -> (r: Instant) {
    Instant::now()
}

/// Relies on `Instant::saturating_duration_since`: the time from `earlier`
/// to `later`, zero when `earlier` is the later one.
#[verifier::external_body]
fn time_between(later: &Instant, earlier: &Instant) -> (r: Duration) {
    later.saturating_duration_since(*earlier)
}

/// Relies on `Duration::as_nanos`: the whole duration in nanoseconds.
#[verifier::external_body]
fn duration_nanos(d: &Duration) -> (r: u128) {
    d.as_nanos()
}

/// A simple timer repeating over an interval.
pub struct RepeatTimer {
    interval_nanos: u128,
    start: Instant,
}

impl RepeatTimer {
    /// The interval, in nanoseconds.
    pub closed spec fn interval(&self) -> u128 {
        self.interval_nanos
    }

    /// The instant the current interval began.
    pub closed spec fn started(&self) -> Instant {
        self.start
    }

    /// A timer with the given interval, whose first interval begins now.
    pub fn new(interval: Duration) -> (r: Self) {
        RepeatTimer { interval_nanos: duration_nanos(&interval), start: clock_now() }
    }

    /// A timer of `interval_nanos` nanoseconds whose first interval begins
    /// now.
    pub fn with_interval_nanos(interval_nanos: u128) -> (r: Self)
        ensures
            r.interval() == interval_nanos,
    {
        RepeatTimer { interval_nanos, start: clock_now() }
    }

    /// A timer of `interval_nanos` nanoseconds whose first interval begins at
    /// `start`.
    pub fn starting_at(interval_nanos: u128, start: Instant) -> (r: Self)
        ensures
            r.interval() == interval_nanos,
            r.started() == start,
    {
        RepeatTimer { interval_nanos, start }
    }

    /// Whether `elapsed_nanos` since the start completes the interval.
    pub fn is_due(&self, elapsed_nanos: u128) -> (r: bool)
        ensures
            r == (elapsed_nanos >= self.interval()),
    {
        elapsed_nanos >= self.interval_nanos
    }

    /// At instant `now`, `elapsed_nanos` after the start: fires and begins a
    /// new interval at `now` when the interval is complete, and otherwise
    /// leaves the timer as it is.
    pub fn advance(&mut self, now: Instant, elapsed_nanos: u128) -> (r: bool)
        ensures
            r == (elapsed_nanos >= old(self).interval()),
            final(self).interval() == old(self).interval(),
            r ==> final(self).started() == now,
            !r ==> final(self).started() == old(self).started(),
    {
        if self.is_due(elapsed_nanos) {
            self.start = now;
            true
        } else {
            false
        }
    }

    /// Returns `true` and begins a new interval if the current one is
    /// complete; otherwise returns `false` and leaves the timer as it is.
    pub fn tick(&mut self) -> (r: bool)
        ensures
            old(self).interval() == 0 ==> r,
            final(self).interval() == old(self).interval(),
            !r ==> final(self).started() == old(self).started(),
    {
        let now = clock_now();
        let elapsed = duration_nanos(&time_between(&now, &self.start));
        self.advance(now, elapsed)
    }
}

} // verus!
