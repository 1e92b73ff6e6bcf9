//! The score of a run and the points shown where they were earned.
use crate::geometry::Pos;
use vstd::prelude::*;

verus! {

/// Points earned in the run.
#[derive(Clone, Copy, Debug, PartialEq, Eq, Structural)]
pub struct Score(pub u32);

/// Points to float up from a place where they were earned.
#[derive(Clone, Copy, Debug, PartialEq, Eq, Structural)]
pub struct FloatingScoreEvent(pub Pos, pub u32);

/// `s + r`, saturating at the largest score.
pub open spec fn added(s: u32, r: u32) -> u32 {
    if s + r > u32::MAX {
        u32::MAX
    } else {
        (s + r) as u32
    }
}

impl Score {
    /// Adds a reward; the score never goes down.
    pub fn add(&mut self, reward: u32)
        ensures
            final(self).0 == added(old(self).0, reward),
            final(self).0 >= old(self).0,
    {
        self.0 = self.0.saturating_add(reward);
    }
}

} // verus!
