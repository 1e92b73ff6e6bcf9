//! Count-down timers advanced by frame time.
use vstd::prelude::*;

verus! {

/// Longest duration a timer may have: about eleven and a half days.
pub const MAX_DURATION: u64 = 1_000_000_000_000;

/// A one-shot timer: it counts elapsed time up to its duration, reports the
/// tick on which it reached the end, and stays finished until reset.
#[derive(Clone, Copy, Debug, PartialEq, Eq, Structural)]
pub struct Timer {
    pub duration: u64,
    pub elapsed: u64,
    pub paused: bool,
    pub just_finished: bool,
}

impl Timer {
    pub open spec fn wf(self) -> bool {
        0 < self.duration <= MAX_DURATION && self.elapsed <= self.duration
    }

    pub open spec fn is_finished(self) -> bool {
        self.elapsed >= self.duration
    }

    /// What one tick of `dt` microseconds does to a timer.
    pub open spec fn ticked(self, dt: u64) -> Timer {
        if self.paused {
            Timer { just_finished: false, ..self }
        } else {
            let e = if self.elapsed + dt >= self.duration {
                self.duration
            } else {
                (self.elapsed + dt) as u64
            };
            Timer {
                elapsed: e,
                just_finished: !self.is_finished() && e >= self.duration,
                ..self
            }
        }
    }

    pub open spec fn new_spec(duration: u64) -> Timer {
        Timer { duration, elapsed: 0, paused: false, just_finished: false }
    }

    pub fn new(duration: u64) -> (r: Timer)
        requires
            0 < duration <= MAX_DURATION,
        ensures
            r == Timer::new_spec(duration),
            r.wf(),
            r.duration == duration,
            r.elapsed == 0,
            !r.paused,
            !r.just_finished,
    {
        Timer { duration, elapsed: 0, paused: false, just_finished: false }
    }

    pub fn tick(&mut self, dt: u64)
        requires
            old(self).wf(),
            dt <= MAX_DURATION,
        ensures
            final(self).wf(),
            *final(self) == old(self).ticked(dt),
    {
        if self.paused {
            self.just_finished = false;
        } else {
            let was_finished = self.elapsed >= self.duration;
            if self.elapsed + dt >= self.duration {
                self.elapsed = self.duration;
            } else {
                self.elapsed = self.elapsed + dt;
            }
            self.just_finished = !was_finished && self.elapsed >= self.duration;
        }
    }

    pub fn finished(&self) -> (r: bool)
        ensures
            r == self.is_finished(),
    {
        self.elapsed >= self.duration
    }

    /// Back to zero elapsed time; pausing is left as it was.
    pub fn reset(&mut self)
        requires
            old(self).wf(),
        ensures
            final(self).wf(),
            *final(self) == (Timer { elapsed: 0, just_finished: false, ..*old(self) }),
    {
        self.elapsed = 0;
        self.just_finished = false;
    }

    pub fn pause(&mut self)
        ensures
            *final(self) == (Timer { paused: true, ..*old(self) }),
    {
        self.paused = true;
    }

    pub fn unpause(&mut self)
        ensures
            *final(self) == (Timer { paused: false, ..*old(self) }),
    {
        self.paused = false;
    }

    /// Sets the elapsed time, at most the duration.
    pub fn set_elapsed(&mut self, elapsed: u64)
        requires
            old(self).wf(),
        ensures
            final(self).wf(),
            *final(self) == (Timer {
                elapsed: if elapsed > old(self).duration { old(self).duration } else { elapsed },
                ..*old(self)
            }),
    {
        if elapsed > self.duration {
            self.elapsed = self.duration;
        } else {
            self.elapsed = elapsed;
        }
    }
}

} // verus!
