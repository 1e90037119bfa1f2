//! Countdown timers, ticked once per frame by the elapsed milliseconds.
//!
//! A one-shot timer counts down to zero and stays there; a repeating timer
//! reloads from its period each time it runs out, absorbing any whole
//! periods the frame skipped over.  `tick` reports a completion at most
//! once per call, however large the elapsed time was.

use vstd::prelude::*;

verus! {

/// Whether a timer expires once or reloads from its period.
#[derive(Clone, Copy, Debug, PartialEq, Eq, Structural)]
pub enum TimerMode {
    Once,
    Repeating,
}

/// A countdown over milliseconds.
#[derive(Clone, Copy, Debug, PartialEq, Eq, Structural)]
pub struct Timer {
    /// Milliseconds left until the next completion.
    pub remaining_ms: u64,
    /// The full countdown; a repeating timer reloads from it.
    pub period_ms: u64,
    pub mode: TimerMode,
}

impl Timer {
    /// The countdown is live: a positive period, never more time left than
    /// one period, and a repeating timer always has time left.
    pub open spec fn wf(self) -> bool {
        &&& self.period_ms >= 1
        &&& self.remaining_ms <= self.period_ms
        &&& self.mode == TimerMode::Repeating ==> self.remaining_ms >= 1
    }

    /// A one-shot timer that has run out.
    pub open spec fn spec_expired(self) -> bool {
        self.remaining_ms == 0
    }

    /// The timer `t` after a tick of `dt` milliseconds, paired with whether
    /// it completed during that tick.
    pub open spec fn spec_tick(t: Timer, dt: u64) -> (Timer, bool) {
        if dt < t.remaining_ms {
            (Timer { remaining_ms: (t.remaining_ms - dt) as u64, ..t }, false)
        } else {
            match t.mode {
                TimerMode::Once => (Timer { remaining_ms: 0, ..t }, t.remaining_ms > 0),
                TimerMode::Repeating => (
                    Timer {
                        remaining_ms: (t.period_ms - ((dt - t.remaining_ms) as u64 % t.period_ms)) as u64,
                        ..t
                    },
                    true,
                ),
            }
        }
    }

    /// A fresh timer with `period_ms` on the clock.
    pub fn from_ms(period_ms: u64, mode: TimerMode) -> (t: Timer)
        requires
            period_ms >= 1,
        ensures
            t == (Timer { remaining_ms: period_ms, period_ms, mode }),
            t.wf(),
    {
        Timer { remaining_ms: period_ms, period_ms, mode }
    }

    /// Count `dt` milliseconds down; the result says whether the timer
    /// completed during this tick.
    pub fn tick(&mut self, dt: u64) -> (completed: bool)
        requires
            old(self).wf(),
        ensures
            *final(self) == Timer::spec_tick(*old(self), dt).0,
            completed == Timer::spec_tick(*old(self), dt).1,
            final(self).wf(),
    {
        if dt < self.remaining_ms {
            self.remaining_ms = self.remaining_ms - dt;
            false
        } else {
            match self.mode {
                TimerMode::Once => {
                    let was_live = self.remaining_ms > 0;
                    self.remaining_ms = 0;
                    was_live
                },
                TimerMode::Repeating => {
                    let overshoot = (dt - self.remaining_ms) % self.period_ms;
                    self.remaining_ms = self.period_ms - overshoot;
                    true
                },
            }
        }
    }

    /// A one-shot timer that has run out.
    pub fn expired(&self) -> (r: bool)
        ensures
            r == self.spec_expired(),
    {
        self.remaining_ms == 0
    }
}

} // verus!
