//! A stopwatch with nanosecond resolution.

use vstd::prelude::*;

verus! {

/// A stopwatch: two clock readings, taken by `start` and `stop`. It can be
/// started and stopped again and again; stopping twice measures both times
/// from the same start.
#[derive(Clone, Copy, Debug, PartialEq, Eq, Structural)]
pub struct Timer {
    s: u64,
    e: u64,
}

/// `clock_ticks::precise_time_ns`: the system clock's reading, in
/// nanoseconds since an epoch of the clock's own. Nothing is claimed of the
/// value; the system clock may even be set back between two readings.
#[verifier::external_body]
fn clock_ns() -> (now: u64) {
    clock_ticks::precise_time_ns()
}

impl Timer {
    /// The reading taken by the last `start`; 0 before the first.
    pub closed spec fn started(&self) -> u64 {
        self.s
    }

    /// The reading taken by the last `stop`; 0 before the first.
    pub closed spec fn stopped(&self) -> u64 {
        self.e
    }

    /// The time from start to stop in nanoseconds, if the stop reading is
    /// not ahead of the start reading.
    pub open spec fn elapsed(&self) -> Option<u64> {
        if self.stopped() >= self.started() {
            Some((self.stopped() - self.started()) as u64)
        } else {
            None
        }
    }

    /// A timer with both readings at 0.
    pub fn new() -> (timer: Timer)
        ensures
            timer.started() == 0,
            timer.stopped() == 0,
            timer.elapsed() == Some(0u64),
    {
        Timer { s: 0, e: 0 }
    }

    /// Starts the timer at `now`.
    pub fn start_at(&mut self, now: u64)
        ensures
            final(self).started() == now,
            final(self).stopped() == old(self).stopped(),
    {
        self.s = now;
    }

    /// Stops the timer at `now` and returns the elapsed time.
    pub fn stop_at(&mut self, now: u64) -> (elapsed: Option<u64>)
        ensures
            final(self).started() == old(self).started(),
            final(self).stopped() == now,
            elapsed == final(self).elapsed(),
    {
        self.e = now;
        self.elapsed_ns()
    }

    /// Starts the timer at the clock's present reading.
    pub fn start(&mut self)
        ensures
            final(self).stopped() == old(self).stopped(),
    {
        let now = clock_ns();
        self.start_at(now);
    }

    /// Stops the timer at the clock's present reading and returns the
    /// elapsed time in nanoseconds, or `None` if the clock now reads less
    /// than at the start.
    pub fn stop(&mut self) -> (elapsed: Option<u64>)
        ensures
            final(self).started() == old(self).started(),
            elapsed == final(self).elapsed(),
    {
        let now = clock_ns();
        self.stop_at(now)
    }

    /// The time from the last start to the last stop in nanoseconds, or
    /// `None` if the timer was started after it was last stopped.
    pub fn elapsed_ns(&self) -> (elapsed: Option<u64>)
        ensures
            elapsed == self.elapsed(),
    {
        if self.e >= self.s {
            Some(self.e - self.s)
        } else {
            None
        }
    }
}

} // verus!
