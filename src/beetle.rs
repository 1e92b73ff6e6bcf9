//! The beetle: it comes down when mushrooms run short and sows new ones.
use crate::constants::{
    BEETLE_SPAWN_RATE, BEETLE_SPEED, MUSHROOM_MIN_AMOUNT, SPAWN_MARGIN, TOP_BOUND,
};
use crate::entity::{Entity, EntityIds};
use crate::geometry::{clamp_spec, dt_ok, shift, travel, travel_spec, Field, Pos};
use crate::rng::roll_range;
use crate::shroom::SpawnMushroomEvent;
use vstd::prelude::*;

verus! {

#[derive(Clone, Copy, Debug, PartialEq, Eq, Structural)]
pub struct Beetle {
    pub id: Entity,
    pub pos: Pos,
}

impl Beetle {
    pub fn spawn(pos: Pos, beetle: &mut Option<Beetle>, ids: &mut EntityIds)
        requires
            old(ids).has_room(1),
        ensures
            *final(beetle) == Some(Beetle { id: old(ids).next, pos }),
            final(ids).next == old(ids).next + 1,
    {
        let id = ids.fresh();
        *beetle = Some(Beetle { id, pos });
    }
}

pub open spec fn beetle_opt_wf(b: Option<Beetle>) -> bool {
    b matches Some(bt) ==> bt.pos.wf()
}

/// When there are no more than the minimum of mushrooms and no beetle,
/// brings a beetle in at the top of the field, at a random place across it
/// away from the side margins.
pub fn spawn_beetle(beetle: &mut Option<Beetle>, shroom_count: usize, field: Field, ids: &mut EntityIds)
    requires
        field.wf(),
        old(ids).has_room(1),
    ensures
        beetle_opt_wf(*final(beetle)) || *final(beetle) == *old(beetle),
        (shroom_count > MUSHROOM_MIN_AMOUNT || old(beetle).is_some()) ==> *final(beetle) == *old(beetle)
            && *final(ids) == *old(ids),
        (shroom_count <= MUSHROOM_MIN_AMOUNT && old(beetle).is_none()) ==> {
            &&& final(ids).next == old(ids).next + 1
            &&& *final(beetle) matches Some(b) && b.id == old(ids).next && b.pos.y == field.height
                && (if field.width > 2 * SPAWN_MARGIN {
                SPAWN_MARGIN <= b.pos.x < field.width - SPAWN_MARGIN
            } else {
                b.pos.x == field.width / 2
            })
        },
{
    if shroom_count > MUSHROOM_MIN_AMOUNT as usize {
        return;
    }
    if beetle.is_some() {
        return;
    }
    let x = if field.width > 2 * SPAWN_MARGIN {
        roll_range(SPAWN_MARGIN, field.width - SPAWN_MARGIN)
    } else {
        field.width / 2
    };
    Beetle::spawn(Pos { x, y: field.height }, beetle, ids);
}

/// Removes the beetle once it is below the bottom of the field.
pub fn despawn_beetle(beetle: &mut Option<Beetle>)
    ensures
        *final(beetle) == (match *old(beetle) {
            Some(b) => if b.pos.y < 0 {
                None
            } else {
                Some(b)
            },
            None => None,
        }),
{
    if let Some(b) = *beetle {
        if b.pos.y < 0 {
            *beetle = None;
        }
    }
}

/// Moves the beetle down at its speed.
pub fn move_beetle(beetle: &mut Option<Beetle>, dt: i64)
    requires
        beetle_opt_wf(*old(beetle)),
        dt_ok(dt as int),
    ensures
        beetle_opt_wf(*final(beetle)),
        *final(beetle) == (match *old(beetle) {
            Some(b) => Some(
                Beetle {
                    pos: Pos { y: clamp_spec(b.pos.y - travel_spec(BEETLE_SPEED as int, dt as int)) as i64, ..b.pos },
                    ..b
                },
            ),
            None => None,
        }),
{
    if let Some(b) = *beetle {
        let step = travel(BEETLE_SPEED, dt);
        *beetle = Some(Beetle { pos: Pos { y: shift(b.pos.y, -step), ..b.pos }, ..b });
    }
}

/// Whether a beetle drops a mushroom on a roll of `roll` (from 1 to 100):
/// only while above the player's area, and on a roll below the beetle's
/// spawn rate.
pub open spec fn sows(b: Beetle, roll: int) -> bool {
    b.pos.y >= TOP_BOUND && roll < BEETLE_SPAWN_RATE
}

pub fn sows_shroom(b: Beetle, roll: i64) -> (r: bool)
    ensures
        r == sows(b, roll as int),
{
    b.pos.y >= TOP_BOUND && roll < BEETLE_SPAWN_RATE
}

/// Rolls 1 to 100 for the beetle, if there is one, and queues a mushroom
/// where it is when it sows on that roll.
pub fn beetle_spawn_shroom(beetle: &Option<Beetle>, events: &mut Vec<SpawnMushroomEvent>)
    ensures
        match *beetle {
            Some(b) => exists|roll: int|
                1 <= roll <= 100 && #[trigger] sows(b, roll) == (final(events)@ != old(events)@)
                    && final(events)@ == (if sows(b, roll) {
                    old(events)@.push(SpawnMushroomEvent(b.pos))
                } else {
                    old(events)@
                }),
            None => final(events)@ == old(events)@,
        },
{
    if let Some(b) = *beetle {
        let roll = roll_range(1, 101);
        if sows_shroom(b, roll) {
            events.push(SpawnMushroomEvent(b.pos));
            assert(events@ != old(events)@) by {
                assert(events@.len() != old(events)@.len());
            }
        }
        assert(sows(b, roll as int) == (events@ != old(events)@));
    }
}

} // verus!
