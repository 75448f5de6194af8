//! Timers that accumulate elapsed time in whole nanoseconds.

use vstd::prelude::*;

verus! {

/// Nanoseconds in one millisecond.
pub const NANOS_PER_MILLI: u64 = 1_000_000;

/// Whether a timer stops after its first period or starts over.
#[derive(Clone, Copy, Debug, PartialEq, Eq, Structural)]
pub enum TimerMode {
    /// The timer completes once and then stays completed.
    Once,
    /// The timer completes every time a full period has elapsed.
    Repeating,
}

/// An accumulator of elapsed time with a single-fire flag per tick.
///
/// `just_finished` is set by the tick on which a period completes and cleared
/// by every other tick, however many periods the tick spanned.
#[derive(Clone, Copy, Debug, PartialEq, Eq, Structural)]
pub struct Timer {
    /// Length of one period, in nanoseconds.
    pub duration: u64,
    /// Time accumulated in the current period, in nanoseconds.
    pub elapsed: u64,
    pub mode: TimerMode,
    /// The latest tick completed a period (repeating), or the timer has
    /// completed (one-shot).
    pub finished: bool,
    /// The latest tick completed a period.
    pub just_finished: bool,
}

impl Timer {
    /// A timer that has not been ticked yet.
    pub open spec fn spec_new(duration: u64, mode: TimerMode) -> Timer {
        Timer { duration, elapsed: 0, mode, finished: false, just_finished: false }
    }

    /// The time accumulated once `delta` more nanoseconds have passed.
    pub open spec fn accumulated(self, delta: u64) -> int {
        self.elapsed + delta
    }

    /// A tick of `delta` nanoseconds completes a period.
    pub open spec fn completes(self, delta: u64) -> bool {
        &&& !(self.mode == TimerMode::Once && self.finished)
        &&& self.accumulated(delta) >= self.duration
    }

    /// The timer after a tick of `delta` nanoseconds.
    ///
    /// A completed one-shot timer only clears its single-fire flag. Otherwise
    /// the time is accumulated; on completion a one-shot timer rests at its
    /// duration and a repeating timer keeps the remainder of the period.
    pub open spec fn ticked(self, delta: u64) -> Timer {
        if self.mode == TimerMode::Once && self.finished {
            Timer { just_finished: false, ..self }
        } else if self.accumulated(delta) >= self.duration {
            Timer {
                elapsed: if self.mode == TimerMode::Once {
                    self.duration
                } else if self.duration == 0 {
                    0
                } else {
                    (self.accumulated(delta) % (self.duration as int)) as u64
                },
                finished: true,
                just_finished: true,
                ..self
            }
        } else {
            Timer {
                elapsed: self.accumulated(delta) as u64,
                finished: false,
                just_finished: false,
                ..self
            }
        }
    }

    /// A timer of the given period that has not been ticked yet.
    pub fn new(duration: u64, mode: TimerMode) -> (timer: Timer)
        ensures
            timer == Timer::spec_new(duration, mode),
    {
        Timer { duration, elapsed: 0, mode, finished: false, just_finished: false }
    }

    /// A timer whose period is given in milliseconds.
    pub fn from_millis(millis: u32, mode: TimerMode) -> (timer: Timer)
        ensures
            timer == Timer::spec_new((millis * NANOS_PER_MILLI) as u64, mode),
    {
        Timer::new(millis as u64 * NANOS_PER_MILLI, mode)
    }

    /// Advances the timer by `delta` nanoseconds.
    pub fn tick(&mut self, delta: u64)
        ensures
            *final(self) == old(self).ticked(delta),
    {
        if self.mode == TimerMode::Once && self.finished {
            self.just_finished = false;
            return ;
        }
        let total: u128 = self.elapsed as u128 + delta as u128;
        if total >= self.duration as u128 {
            if self.mode == TimerMode::Once {
                self.elapsed = self.duration;
            } else if self.duration == 0 {
                self.elapsed = 0;
            } else {
                self.elapsed = (total % self.duration as u128) as u64;
            }
            self.finished = true;
            self.just_finished = true;
        } else {
            self.elapsed = total as u64;
            self.finished = false;
            self.just_finished = false;
        }
    }

    /// Whether the latest tick completed a period.
    pub fn just_finished(&self) -> (fired: bool)
        ensures
            fired == self.just_finished,
    {
        self.just_finished
    }

    /// Whether the timer is completed.
    pub fn finished(&self) -> (done: bool)
        ensures
            done == self.finished,
    {
        self.finished
    }

    /// Puts the timer back to its state before the first tick.
    pub fn reset(&mut self)
        ensures
            *final(self) == Timer::spec_new(old(self).duration, old(self).mode),
    {
        self.elapsed = 0;
        self.finished = false;
        self.just_finished = false;
    }
}

} // verus!
