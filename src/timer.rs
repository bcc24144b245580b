//! A countdown timer over nanoseconds: it counts down by the elapsed time it
//! is given, becomes ready at zero, and stays ready until it is reset.

use vstd::prelude::*;

verus! {

/// Nanoseconds in one millisecond.
pub const NANOS_PER_MILLI: u64 = 1_000_000;

/// The largest millisecond count that a timer can be built from.
pub const MAX_MILLIS: u64 = u64::MAX / NANOS_PER_MILLI;

#[derive(Clone, Copy, Debug, PartialEq, Eq)]
pub struct Timer {
    /// The full interval, in nanoseconds.
    pub duration: u64,
    /// What is left of the interval, in nanoseconds.
    pub time_left: u64,
    /// Set once `time_left` has run down to zero; cleared by `reset`.
    pub ready: bool,
}

impl Timer {
    /// A ready timer has nothing left, and nothing left exceeds the interval.
    pub open spec fn wf(self) -> bool {
        &&& self.time_left <= self.duration
        &&& self.ready ==> self.time_left == 0
    }

    /// A timer at the start of an interval of `duration` nanoseconds.
    pub open spec fn fresh(duration: u64) -> Timer {
        Timer { duration, time_left: duration, ready: false }
    }

    /// The timer after `delta` nanoseconds have elapsed.
    pub open spec fn advanced(self, delta: u64) -> Timer {
        if self.ready {
            self
        } else {
            let left: u64 = if self.time_left >= delta { (self.time_left - delta) as u64 } else { 0 };
            Timer { duration: self.duration, time_left: left, ready: left == 0 }
        }
    }

    /// The timer after a whole sequence of elapsed times.
    pub open spec fn advanced_by_all(self, deltas: Seq<u64>) -> Timer
        decreases deltas.len(),
    {
        if deltas.len() == 0 {
            self
        } else {
            self.advanced_by_all(deltas.drop_last()).advanced(deltas.last())
        }
    }

    pub fn new(duration: u64) -> (r: Timer)
        ensures
            r == Timer::fresh(duration),
    {
        Timer { duration, time_left: duration, ready: false }
    }

    pub fn from_millis(ms: u64) -> (r: Timer)
        requires
            ms <= MAX_MILLIS,
        ensures
            r == Timer::fresh((ms * NANOS_PER_MILLI) as u64),
    {
        Timer::new(ms * NANOS_PER_MILLI)
    }

    /// Counts down by `delta` nanoseconds, stopping at zero.
    pub fn update(&mut self, delta: u64)
        ensures
            *final(self) == old(self).advanced(delta),
    {
        if !self.ready {
            self.time_left = self.time_left.saturating_sub(delta);
            if self.time_left == 0 {
                self.ready = true;
            }
        }
    }

    /// Starts a new interval of the same length.
    pub fn reset(&mut self)
        ensures
            *final(self) == Timer::fresh(old(self).duration),
    {
        self.time_left = self.duration;
        self.ready = false;
    }
}

/// While the elapsed times add up to less than what is left, the timer only
/// counts down and does not become ready.
pub proof fn lemma_short_of_interval(t: Timer, deltas: Seq<u64>)
    requires
        t.wf(),
        !t.ready,
        sum_of(deltas) < t.time_left,
    ensures
        t.advanced_by_all(deltas) == (Timer {
            duration: t.duration,
            time_left: (t.time_left - sum_of(deltas)) as u64,
            ready: false,
        }),
    decreases deltas.len(),
{
    if deltas.len() > 0 {
        lemma_sum_nonneg(deltas.drop_last());
        lemma_short_of_interval(t, deltas.drop_last());
    }
}

/// Once the elapsed times add up to at least what is left, the timer is ready.
pub proof fn lemma_runs_out(t: Timer, deltas: Seq<u64>)
    requires
        t.wf(),
        !t.ready,
        deltas.len() > 0,
        sum_of(deltas) >= t.time_left,
    ensures
        t.advanced_by_all(deltas).ready,
        t.advanced_by_all(deltas).duration == t.duration,
    decreases deltas.len(),
{
    if deltas.len() > 0 {
        let init = deltas.drop_last();
        lemma_sum_nonneg(init);
        if init.len() > 0 && sum_of(init) >= t.time_left {
            lemma_runs_out(t, init);
        } else if init.len() == 0 {
            assert(t.advanced_by_all(init) == t);
        } else {
            lemma_short_of_interval(t, init);
        }
        assert(t.advanced_by_all(deltas) == t.advanced_by_all(init).advanced(deltas.last()));
    }
}

/// A total of elapsed times is never negative.
pub proof fn lemma_sum_nonneg(deltas: Seq<u64>)
    ensures
        sum_of(deltas) >= 0,
    decreases deltas.len(),
{
    if deltas.len() > 0 {
        lemma_sum_nonneg(deltas.drop_last());
    }
}

/// The total of a sequence of elapsed times.
pub open spec fn sum_of(deltas: Seq<u64>) -> int
    decreases deltas.len(),
{
    if deltas.len() == 0 {
        0
    } else {
        sum_of(deltas.drop_last()) + deltas.last()
    }
}

} // verus!
