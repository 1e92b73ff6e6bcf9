//! Frame-by-frame sprite animation.
use crate::timer::{Timer, MAX_DURATION};
use vstd::prelude::*;

verus! {

/// The first and last frame of an animation in its sprite sheet.
#[derive(Clone, Copy, Debug, PartialEq, Eq, Structural)]
pub struct AnimationIndices {
    pub first: usize,
    pub last: usize,
}

/// An animation of `frames` frames, each shown for its timer's duration.
#[derive(Clone, Copy, Debug, PartialEq, Eq, Structural)]
pub struct Animation {
    pub frames: usize,
    pub current_frame: usize,
    pub timer: Timer,
}

impl Animation {
    /// An animation at its first frame; `frame_duration` is in microseconds.
    pub fn new(frames: usize, frame_duration: u64) -> (r: Animation)
        requires
            0 < frame_duration <= MAX_DURATION,
        ensures
            r.frames == frames,
            r.current_frame == 0,
            r.timer == Timer::new_spec(frame_duration),
    {
        Animation { frames, current_frame: 0, timer: Timer::new(frame_duration) }
    }
}

} // verus!
