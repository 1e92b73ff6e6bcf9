//! Entity identifiers.
use vstd::prelude::*;

verus! {

/// Handle of an entity of the game.
pub type Entity = u64;

/// Hands out fresh entity identifiers, in increasing order.
#[derive(Clone, Copy, Debug, PartialEq, Eq, Structural)]
pub struct EntityIds {
    pub next: u64,
}

impl EntityIds {
    pub fn new() -> (r: EntityIds)
        ensures
            r.next == 0,
    {
        EntityIds { next: 0 }
    }

    /// Whether `n` more identifiers can still be handed out.
    pub open spec fn has_room(self, n: int) -> bool {
        self.next + n < u64::MAX
    }

    pub fn fresh(&mut self) -> (id: Entity)
        requires
            old(self).has_room(1),
        ensures
            id == old(self).next,
            final(self).next == old(self).next + 1,
    {
        let id = self.next;
        self.next = self.next + 1;
        id
    }
}

} // verus!
