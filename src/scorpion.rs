//! The scorpion: it crosses the upper field and poisons mushrooms it meets.
use crate::constants::{
    PPM, SCORPION_REWARD, SCORPION_SPAWN_HEIGHT, SCORPION_SPAWN_RATE, SCORPION_SPEED,
};
use crate::entity::{Entity, EntityIds};
use crate::geometry::{
    clamp_spec, dt_ok, shift, touch, touches, travel, travel_spec, Field, Pos, SCALE,
};
use crate::rng::{roll_range, roll_ratio};
use crate::score::{added, Score};
use crate::shroom::{mushrooms_wf, Mushroom, MushroomEntity};
use vstd::prelude::*;

verus! {

#[derive(Clone, Copy, Debug, PartialEq, Eq, Structural)]
pub struct Scorpion {
    pub id: Entity,
    pub pos: Pos,
    /// -1 to the left, 1 to the right.
    pub direction: i64,
}

impl Scorpion {
    pub open spec fn wf(self) -> bool {
        self.pos.wf() && (self.direction == 1 || self.direction == -1)
    }
}

pub open spec fn scorpion_opt_wf(s: Option<Scorpion>) -> bool {
    s matches Some(sc) ==> sc.wf()
}

/// Lowest level at which scorpions come.
pub const SCORPION_MIN_LEVEL: u32 = 1;

/// Chance, in parts per million, that a scorpion poisons a mushroom it
/// touches.
pub const MUSHROOM_CONVERSION_RATE: u32 = 1_000_000;

/// Sum of the radii of a scorpion and a mushroom.
pub const SCORPION_SHROOM_CONTACT: i64 = 13_500;

/// Half the height of the band a scorpion may appear in.
pub const SCORPION_SPAWN_JITTER: i64 = 75_000;

impl Scorpion {
    /// Places a scorpion at `pos`, heading left if it starts right of the
    /// left edge and right otherwise.
    pub fn spawn(pos: Pos, scorpion: &mut Option<Scorpion>, ids: &mut EntityIds)
        requires
            old(ids).has_room(1),
        ensures
            *final(scorpion) == Some(
                Scorpion {
                    id: old(ids).next,
                    pos,
                    direction: if pos.x > 2 * SCALE {
                        -1i64
                    } else {
                        1i64
                    },
                },
            ),
            final(ids).next == old(ids).next + 1,
    {
        let id = ids.fresh();
        let direction: i64 = if pos.x > 2 * SCALE {
            -1
        } else {
            1
        };
        *scorpion = Some(Scorpion { id, pos, direction });
    }

    pub fn despawn(scorpion: &mut Option<Scorpion>)
        ensures
            *final(scorpion) == None::<Scorpion>,
    {
        *scorpion = None;
    }

    /// Removes the scorpion and awards its reward.
    pub fn kill(scorpion: &mut Option<Scorpion>, score: &mut Score)
        ensures
            *final(scorpion) == None::<Scorpion>,
            final(score).0 == added(old(score).0, SCORPION_REWARD),
    {
        Self::despawn(scorpion);
        score.add(SCORPION_REWARD);
    }
}

/// From the given level on, with no scorpion about, on a spawn roll,
/// brings a scorpion in just inside a random side edge, at a random height
/// in a band below the top of the field.
pub fn spawn_scorpion(scorpion: &mut Option<Scorpion>, level: u32, field: Field, ids: &mut EntityIds)
    requires
        field.wf(),
        old(ids).has_room(1),
    ensures
        scorpion_opt_wf(*final(scorpion)) || *final(scorpion) == *old(scorpion),
        (level < SCORPION_MIN_LEVEL || old(scorpion).is_some()) ==> *final(scorpion) == *old(scorpion)
            && *final(ids) == *old(ids),
        (level >= SCORPION_MIN_LEVEL && old(scorpion).is_none()) ==> match *final(scorpion) {
            Some(s) => {
                &&& s.id == old(ids).next
                &&& final(ids).next == old(ids).next + 1
                &&& s.pos.x == SCALE || s.pos.x == field.width - SCALE
                &&& field.height - SCORPION_SPAWN_HEIGHT - SCORPION_SPAWN_JITTER <= s.pos.y
                    < field.height - SCORPION_SPAWN_HEIGHT + SCORPION_SPAWN_JITTER
            },
            None => *final(ids) == *old(ids),
        },
{
    if level < SCORPION_MIN_LEVEL {
        return;
    }
    if scorpion.is_some() {
        return;
    }
    if !roll_ratio(SCORPION_SPAWN_RATE, PPM) {
        return;
    }
    let left = roll_ratio(1, 2);
    let x = if left {
        SCALE
    } else {
        field.width - SCALE
    };
    let jitter = roll_range(-SCORPION_SPAWN_JITTER, SCORPION_SPAWN_JITTER);
    let y = field.height - SCORPION_SPAWN_HEIGHT + jitter;
    Scorpion::spawn(Pos { x, y }, scorpion, ids);
}

/// Moves the scorpion sideways at its speed.
pub fn move_scorpion(scorpion: &mut Option<Scorpion>, dt: i64)
    requires
        scorpion_opt_wf(*old(scorpion)),
        dt_ok(dt as int),
    ensures
        scorpion_opt_wf(*final(scorpion)),
        *final(scorpion) == (match *old(scorpion) {
            Some(s) => Some(
                Scorpion {
                    pos: Pos {
                        x: clamp_spec(s.pos.x + s.direction * travel_spec(SCORPION_SPEED as int, dt as int)) as i64,
                        ..s.pos
                    },
                    ..s
                },
            ),
            None => None,
        }),
{
    if let Some(s) = *scorpion {
        let step = travel(SCORPION_SPEED, dt);
        let delta = if s.direction == 1 {
            step
        } else {
            -step
        };
        *scorpion = Some(Scorpion { pos: Pos { x: shift(s.pos.x, delta), ..s.pos }, ..s });
    }
}

/// Removes the scorpion once it is past either side edge.
pub fn despawn_scorpion(scorpion: &mut Option<Scorpion>, field: Field)
    ensures
        *final(scorpion) == (match *old(scorpion) {
            Some(s) => if s.pos.x < 0 || s.pos.x > field.width {
                None
            } else {
                Some(s)
            },
            None => None,
        }),
{
    if let Some(s) = *scorpion {
        if s.pos.x < 0 || s.pos.x > field.width {
            Scorpion::despawn(scorpion);
        }
    }
}

/// A mushroom after the scorpion `sc`, if any, has passed: poisoned if the
/// scorpion touches it.
pub open spec fn poisoned_by_one(m: MushroomEntity, sc: Option<Scorpion>) -> MushroomEntity {
    match sc {
        Some(s) => if touches(s.pos, m.pos, SCORPION_SHROOM_CONTACT as int) {
            MushroomEntity { kind: Mushroom::Poison, ..m }
        } else {
            m
        },
        None => m,
    }
}

pub open spec fn poisoned_by(ms: Seq<MushroomEntity>, sc: Option<Scorpion>) -> Seq<MushroomEntity> {
    ms.map_values(|m: MushroomEntity| poisoned_by_one(m, sc))
}

/// Turns every normal mushroom the scorpion touches to poison; with no
/// scorpion nothing changes.
pub fn convert_to_poison_shroom(scorpion: &Option<Scorpion>, mushrooms: &mut Vec<MushroomEntity>)
    requires
        scorpion_opt_wf(*scorpion),
        mushrooms_wf(old(mushrooms)@),
    ensures
        final(mushrooms)@.len() == old(mushrooms)@.len(),
        mushrooms_wf(final(mushrooms)@),
        final(mushrooms)@ == poisoned_by(old(mushrooms)@, *scorpion),
        forall|i: int|
            0 <= i < old(mushrooms)@.len() ==> #[trigger] final(mushrooms)@[i] == (match *scorpion {
                Some(s) => if touches(s.pos, old(mushrooms)@[i].pos, SCORPION_SHROOM_CONTACT as int) {
                    MushroomEntity { kind: Mushroom::Poison, ..old(mushrooms)@[i] }
                } else {
                    old(mushrooms)@[i]
                },
                None => old(mushrooms)@[i],
            }),
{
    let s = match *scorpion {
        Some(s) => s,
        None => {
            assert(mushrooms@ =~= poisoned_by(old(mushrooms)@, *scorpion));
            return;
        },
    };
    let mut i: usize = 0;
    while i < mushrooms.len()
        invariant
            i <= mushrooms@.len(),
            *scorpion == Some(s),
            s.wf(),
            mushrooms@.len() == old(mushrooms)@.len(),
            mushrooms_wf(mushrooms@),
            forall|j: int|
                0 <= j < i ==> #[trigger] mushrooms@[j] == (if touches(
                    s.pos,
                    old(mushrooms)@[j].pos,
                    SCORPION_SHROOM_CONTACT as int,
                ) {
                    MushroomEntity { kind: Mushroom::Poison, ..old(mushrooms)@[j] }
                } else {
                    old(mushrooms)@[j]
                }),
            forall|j: int| i <= j < mushrooms@.len() ==> #[trigger] mushrooms@[j] == old(mushrooms)@[j],
        decreases mushrooms@.len() - i,
    {
        let m = mushrooms[i];
        assert(mushrooms@[i as int].wf());
        if touch(s.pos, m.pos, SCORPION_SHROOM_CONTACT) && m.kind == Mushroom::Normal {
            if roll_ratio(MUSHROOM_CONVERSION_RATE, PPM) {
                mushrooms.set(i, MushroomEntity { kind: Mushroom::Poison, ..m });
            }
        }
        i = i + 1;
    }
    assert(mushrooms@ =~= poisoned_by(old(mushrooms)@, *scorpion));
}

} // verus!
