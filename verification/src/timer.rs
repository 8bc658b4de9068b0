//! A millisecond timer that either stops at its duration or wraps around it.

use vstd::prelude::*;

verus! {

/// What a timer does when it reaches its duration.
#[derive(Debug, Clone, Copy, PartialEq, Eq, Structural)]
pub enum TimerMode {
    /// Stay at the duration until reset.
    Once,
    /// Start over, keeping the remainder.
    Repeating,
}

/// Tracks elapsed time against a duration, both in milliseconds.
#[derive(Debug, Clone, Copy, PartialEq, Eq, Structural)]
pub struct Timer {
    pub elapsed: u32,
    pub duration: u32,
    pub mode: TimerMode,
    pub finished: bool,
    pub times_finished_this_tick: u32,
}

impl Timer {
    /// The elapsed time never exceeds the duration.
    pub open spec fn inv(self) -> bool {
        self.elapsed <= self.duration
    }

    /// The timer after `delta` more milliseconds.
    ///
    /// A finished `Once` timer stays as it is. Otherwise the elapsed time grows by
    /// `delta`; on reaching the duration a `Once` timer stops exactly there, and a
    /// `Repeating` timer counts how often the duration fits and keeps the rest.
    pub open spec fn tick_spec(self, delta: u32) -> Timer {
        let total = self.elapsed + delta;
        if self.mode == TimerMode::Once && self.finished {
            Timer { times_finished_this_tick: 0, ..self }
        } else if total < self.duration {
            Timer { elapsed: total as u32, finished: false, times_finished_this_tick: 0, ..self }
        } else if self.mode == TimerMode::Once {
            Timer { elapsed: self.duration, finished: true, times_finished_this_tick: 1, ..self }
        } else if self.duration == 0 {
            Timer { elapsed: 0, finished: true, times_finished_this_tick: u32::MAX, ..self }
        } else {
            Timer {
                elapsed: (total % (self.duration as int)) as u32,
                finished: true,
                times_finished_this_tick: if total / (self.duration as int) > u32::MAX {
                    u32::MAX
                } else {
                    (total / (self.duration as int)) as u32
                },
                ..self
            }
        }
    }

    /// The timer wound back to zero.
    pub open spec fn reset_spec(self) -> Timer {
        Timer { elapsed: 0, finished: false, times_finished_this_tick: 0, ..self }
    }

    /// Tells whether the elapsed time does not exceed the duration.
    pub fn check(&self) -> (ok: bool)
        ensures
            ok == self.inv(),
    {
        self.elapsed <= self.duration
    }

    /// A fresh timer of the given duration and mode.
    pub fn new(duration: u32, mode: TimerMode) -> (t: Timer)
        ensures
            t == (Timer { elapsed: 0, duration, mode, finished: false, times_finished_this_tick: 0 }),
            t.inv(),
    {
        Timer { elapsed: 0, duration, mode, finished: false, times_finished_this_tick: 0 }
    }

    /// Advances the timer by `delta` milliseconds.
    pub fn tick(&mut self, delta: u32)
        requires
            old(self).inv(),
        ensures
            *final(self) == old(self).tick_spec(delta),
            final(self).inv(),
    {
        if self.mode == TimerMode::Once && self.finished {
            self.times_finished_this_tick = 0;
            return;
        }
        let total: u64 = self.elapsed as u64 + delta as u64;
        if total < self.duration as u64 {
            self.elapsed = total as u32;
            self.finished = false;
            self.times_finished_this_tick = 0;
        } else if self.mode == TimerMode::Once {
            self.elapsed = self.duration;
            self.finished = true;
            self.times_finished_this_tick = 1;
        } else if self.duration == 0 {
            self.elapsed = 0;
            self.finished = true;
            self.times_finished_this_tick = u32::MAX;
        } else {
            let d: u64 = self.duration as u64;
            let times: u64 = total / d;
            self.elapsed = (total % d) as u32;
            self.finished = true;
            self.times_finished_this_tick = if times > u32::MAX as u64 {
                u32::MAX
            } else {
                times as u32
            };
        }
    }

    /// Whether the duration has been reached.
    pub fn is_finished(&self) -> (b: bool)
        ensures
            b == self.finished,
    {
        self.finished
    }

    /// Whether the duration was reached during the last tick.
    pub fn just_finished(&self) -> (b: bool)
        ensures
            b == (self.times_finished_this_tick > 0),
    {
        self.times_finished_this_tick > 0
    }

    /// Winds the timer back to zero.
    pub fn reset(&mut self)
        ensures
            *final(self) == old(self).reset_spec(),
            final(self).inv(),
    {
        self.elapsed = 0;
        self.finished = false;
        self.times_finished_this_tick = 0;
    }
}

/// A `Repeating` timer of positive duration loses no time: the periods it
/// counted and the rest it keeps add up to what went in, unless the count
/// reached its ceiling.
pub proof fn lemma_repeating_conserves_time(t: Timer, delta: u32)
    requires
        t.inv(),
        t.mode == TimerMode::Repeating,
        t.duration > 0,
        (t.elapsed + delta) / (t.duration as int) <= u32::MAX,
    ensures
        t.tick_spec(delta).times_finished_this_tick * t.duration + t.tick_spec(delta).elapsed
            == t.elapsed + delta,
        t.tick_spec(delta).elapsed < t.duration,
{
    let total = t.elapsed + delta;
    let d = t.duration as int;
    assert(total == d * (total / d) + total % d) by (nonlinear_arith)
        requires d > 0;
    assert(0 <= total % d < d) by (nonlinear_arith)
        requires d > 0;
    if total < d {
        assert(total / d == 0) by (nonlinear_arith)
            requires 0 <= total < d;
    }
    assert((total / d) * d == d * (total / d)) by (nonlinear_arith);
}

} // verus!
