//! Frame timer: tracks the time left until the next tick boundary and counts
//! completed ticks.
//!
//! Intervals are whole nanoseconds. A zero interval ("benchmark mode") makes
//! `left` always return zero, so a driving loop that sleeps for `left()`
//! never blocks. The timer itself never sleeps: the embedding program sleeps
//! for `left()`, then records the new boundary with `skip`, and counts the
//! logical tick with `count_tick` — exactly once per frame.

use crate::clock::{instant_now, nanos_since};
use vstd::prelude::*;

verus! {

/// Enforces a target frame interval and counts completed ticks.
pub struct Timer {
    /// Completed ticks since creation; wraps around at `u64::MAX`.
    pub tick_count: u64,
    /// The most recent tick boundary on the monotonic clock.
    pub last_tick: std::time::Instant,
    /// Target time between ticks, in nanoseconds; zero disables throttling.
    pub interval_nanos: u64,
}

impl Timer {
    /// Create a timer that ticks every `interval_nanos` nanoseconds,
    /// with the current moment as the first tick boundary.
    pub fn new(interval_nanos: u64) -> (t: Timer)
        ensures
            t.interval_nanos == interval_nanos,
            t.tick_count == 0,
    {
        Timer { last_tick: instant_now(), interval_nanos, tick_count: 0 }
    }

    /// Create a timer whose interval is one `framerate`-th of a second.
    pub fn from_framerate(framerate: u64) -> (t: Timer)
        requires
            framerate > 0,
        ensures
            t.interval_nanos == 1_000_000_000u64 / framerate,
            t.tick_count == 0,
    {
        Timer::new(1_000_000_000 / framerate)
    }

    /// Completed ticks since creation.
    pub fn ticks(&self) -> (n: u64)
        ensures
            n == self.tick_count,
    {
        self.tick_count
    }

    /// Count one completed logical tick. This is the only operation that
    /// moves the counter, and it moves it by exactly one (wrapping at the
    /// top of `u64`).
    pub fn count_tick(&mut self)
        ensures
            old(self).tick_count < u64::MAX ==> final(self).tick_count == old(
                self,
            ).tick_count + 1,
            old(self).tick_count == u64::MAX ==> final(self).tick_count == 0,
            final(self).interval_nanos == old(self).interval_nanos,
            final(self).last_tick == old(self).last_tick,
    {
        if self.tick_count == u64::MAX {
            self.tick_count = 0;
        } else {
            self.tick_count = self.tick_count + 1;
        }
    }

    /// Record a new tick boundary at the current moment, without blocking
    /// and without touching the counter.
    pub fn skip(&mut self)
        ensures
            final(self).tick_count == old(self).tick_count,
            final(self).interval_nanos == old(self).interval_nanos,
    {
        self.last_tick = instant_now();
    }

    /// Nanoseconds remaining until the next tick boundary, floored at zero:
    /// never more than the interval, and always zero for a zero interval.
    pub fn left(&self) -> (n: u64)
        ensures
            n <= self.interval_nanos,
            self.interval_nanos == 0 ==> n == 0,
    {
        let now = instant_now();
        let elapsed = nanos_since(&now, &self.last_tick);
        let took: u64 = if elapsed > u64::MAX as u128 {
            u64::MAX
        } else {
            elapsed as u64
        };
        if self.interval_nanos >= took {
            self.interval_nanos - took
        } else {
            0
        }
    }
}

} // verus!
