//! Mushrooms: obstacles that take several hits and may be poisoned.
use crate::constants::{
    MUSHROOM_HEALTH, MUSHROOM_MAX_AMOUNT, MUSHROOM_REWARD, SPAWN_MARGIN, TOP_BOUND, TOP_UI_HEIGHT,
};
use crate::geometry::Field;
use crate::rng::roll_range;
use crate::entity::{Entity, EntityIds};
use crate::geometry::Pos;
use vstd::prelude::*;

verus! {

#[derive(Clone, Copy, Debug, PartialEq, Eq, Structural)]
pub enum Mushroom {
    Normal,
    Poison,
}

/// Hit points left on a mushroom.
#[derive(Clone, Copy, Debug, PartialEq, Eq, Structural)]
pub struct Health(pub i8);

#[derive(Clone, Copy, Debug, PartialEq, Eq, Structural)]
pub struct MushroomEntity {
    pub id: Entity,
    pub pos: Pos,
    pub kind: Mushroom,
    pub health: Health,
}

impl MushroomEntity {
    /// A mushroom's health lies between zero and its starting health.
    pub open spec fn wf(self) -> bool {
        self.pos.wf() && 0 <= self.health.0 <= MUSHROOM_HEALTH
    }
}

pub open spec fn mushrooms_wf(s: Seq<MushroomEntity>) -> bool {
    forall|i: int| 0 <= i < s.len() ==> #[trigger] s[i].wf()
}

/// Request to grow a fresh mushroom at a place.
#[derive(Clone, Copy, Debug, PartialEq, Eq, Structural)]
pub struct SpawnMushroomEvent(pub Pos);

/// A mushroom after one projectile hit, and the points that hit earns:
/// health goes down by one, and the hit that brings it to zero earns the
/// mushroom reward.
pub open spec fn hit_spec(m: MushroomEntity) -> (MushroomEntity, u32) {
    let h = if m.health.0 > 0 {
        (m.health.0 - 1) as i8
    } else {
        0i8
    };
    (MushroomEntity { health: Health(h), ..m }, if m.health.0 == 1 {
        MUSHROOM_REWARD
    } else {
        0u32
    })
}

/// Hits a mushroom once.
pub fn hit_mushroom(m: MushroomEntity) -> (r: (MushroomEntity, u32))
    requires
        m.wf(),
    ensures
        r == hit_spec(m),
        r.0.wf(),
{
    let h: i8 = if m.health.0 > 0 {
        m.health.0 - 1
    } else {
        0
    };
    let reward: u32 = if h == 0 && m.health.0 == 1 {
        MUSHROOM_REWARD
    } else {
        0
    };
    (MushroomEntity { health: Health(h), ..m }, reward)
}

/// `n` hits in a row: the mushroom left and the points earned in all.
pub open spec fn hits_spec(m: MushroomEntity, n: nat) -> (MushroomEntity, int)
    decreases n,
{
    if n == 0 {
        (m, 0)
    } else {
        let (m1, r) = hits_spec(m, (n - 1) as nat);
        (hit_spec(m1).0, r + hit_spec(m1).1)
    }
}

proof fn lemma_hits_health(m: MushroomEntity, n: nat)
    requires
        m.wf(),
        n <= m.health.0,
    ensures
        hits_spec(m, n).0.health.0 == m.health.0 - n,
        hits_spec(m, n).0.pos == m.pos,
        hits_spec(m, n).1 == (if n == m.health.0 && n > 0 {
            MUSHROOM_REWARD as int
        } else {
            0
        }),
    decreases n,
{
    if n > 0 {
        lemma_hits_health(m, (n - 1) as nat);
    }
}

/// A mushroom with health `h` survives `h - 1` hits and earns nothing for
/// them; the `h`-th hit destroys it and earns the mushroom reward exactly
/// once.
pub proof fn lemma_mushroom_multi_hit(m: MushroomEntity)
    requires
        m.wf(),
        m.health.0 > 0,
    ensures
        forall|n: nat|
            n < m.health.0 ==> (#[trigger] hits_spec(m, n)).0.health.0 > 0 && hits_spec(m, n).1
                == 0,
        hits_spec(m, m.health.0 as nat).0.health.0 == 0,
        hits_spec(m, m.health.0 as nat).1 == MUSHROOM_REWARD,
{
    assert forall|n: nat| n < m.health.0 implies (#[trigger] hits_spec(m, n)).0.health.0 > 0
        && hits_spec(m, n).1 == 0 by {
        lemma_hits_health(m, n);
    }
    lemma_hits_health(m, m.health.0 as nat);
}

/// The mushrooms grown for `evs`, numbered from `base` on.
pub open spec fn grown(evs: Seq<SpawnMushroomEvent>, base: int) -> Seq<MushroomEntity> {
    Seq::new(
        evs.len(),
        |i: int|
            MushroomEntity {
                id: (base + i) as u64,
                pos: evs[i].0,
                kind: Mushroom::Normal,
                health: Health(MUSHROOM_HEALTH),
            },
    )
}

/// The mushrooms that still have health.
pub open spec fn alive_mushrooms(ms: Seq<MushroomEntity>) -> Seq<MushroomEntity> {
    ms.filter(|m: MushroomEntity| m.health.0 > 0)
}

/// Grows a healthy normal mushroom for each request, in order, and empties
/// the queue.
pub fn spawn_shroom(
    events: &mut Vec<SpawnMushroomEvent>,
    mushrooms: &mut Vec<MushroomEntity>,
    ids: &mut EntityIds,
)
    requires
        old(ids).has_room(old(events)@.len() as int),
        mushrooms_wf(old(mushrooms)@),
        forall|i: int| 0 <= i < old(events)@.len() ==> (#[trigger] old(events)@[i]).0.wf(),
    ensures
        final(events)@.len() == 0,
        final(ids).next == old(ids).next + old(events)@.len(),
        final(mushrooms)@.len() == old(mushrooms)@.len() + old(events)@.len(),
        final(mushrooms)@ == old(mushrooms)@ + grown(old(events)@, old(ids).next as int),
        final(mushrooms)@.subrange(0, old(mushrooms)@.len() as int) == old(mushrooms)@,
        forall|i: int|
            0 <= i < old(events)@.len() ==> #[trigger] final(mushrooms)@[old(mushrooms)@.len() + i]
                == (MushroomEntity {
                id: (old(ids).next + i) as u64,
                pos: old(events)@[i].0,
                kind: Mushroom::Normal,
                health: Health(MUSHROOM_HEALTH),
            }),
        mushrooms_wf(final(mushrooms)@),
{
    let ghost start = mushrooms@.len() as int;
    let ghost base = ids.next as int;
    let mut k: usize = 0;
    while k < events.len()
        invariant
            k <= events@.len(),
            events@ == old(events)@,
            start == old(mushrooms)@.len(),
            base == old(ids).next,
            ids.next == base + k,
            base + events@.len() < u64::MAX,
            mushrooms@.len() == start + k,
            mushrooms@.subrange(0, start) == old(mushrooms)@,
            forall|i: int| 0 <= i < events@.len() ==> (#[trigger] events@[i]).0.wf(),
            forall|i: int|
                0 <= i < k ==> #[trigger] mushrooms@[start + i] == (MushroomEntity {
                    id: (base + i) as u64,
                    pos: events@[i].0,
                    kind: Mushroom::Normal,
                    health: Health(MUSHROOM_HEALTH),
                }),
            mushrooms_wf(mushrooms@),
        decreases events@.len() - k,
    {
        let id = ids.fresh();
        let ghost prev = mushrooms@;
        mushrooms.push(
            MushroomEntity { id, pos: events[k].0, kind: Mushroom::Normal, health: Health(MUSHROOM_HEALTH) },
        );
        proof {
            assert(forall|i: int| 0 <= i < prev.len() ==> mushrooms@[i] == #[trigger] prev[i]);
            assert(mushrooms@.subrange(0, start) =~= prev.subrange(0, start));
            assert(events@[k as int].0.wf());
        }
        k = k + 1;
    }
    assert(mushrooms@ =~= old(mushrooms)@ + grown(old(events)@, old(ids).next as int)) by {
        assert forall|i: int| 0 <= i < mushrooms@.len() implies mushrooms@[i] == (old(mushrooms)@ + grown(
            old(events)@,
            old(ids).next as int,
        ))[i] by {
            if i < start {
                assert(mushrooms@.subrange(0, start)[i] == mushrooms@[i]);
            } else {
                assert(mushrooms@[start + (i - start)] == mushrooms@[i]);
            }
        }
    }
    events.clear();
}

/// Removes the mushrooms whose health has run out, keeping the order of
/// the others.
pub fn despawn_mushroom(mushrooms: &mut Vec<MushroomEntity>)
    requires
        mushrooms_wf(old(mushrooms)@),
    ensures
        final(mushrooms)@ == old(mushrooms)@.filter(|m: MushroomEntity| m.health.0 > 0),
        final(mushrooms)@ == alive_mushrooms(old(mushrooms)@),
        mushrooms_wf(final(mushrooms)@),
{
    let mut kept: Vec<MushroomEntity> = Vec::new();
    let mut i: usize = 0;
    while i < mushrooms.len()
        invariant
            i <= mushrooms@.len(),
            mushrooms@ == old(mushrooms)@,
            kept@ == mushrooms@.subrange(0, i as int).filter(|m: MushroomEntity| m.health.0 > 0),
        decreases mushrooms@.len() - i,
    {
        let m = mushrooms[i];
        proof {
            let f = |m: MushroomEntity| m.health.0 > 0;
            assert(mushrooms@.subrange(0, i + 1) =~= mushrooms@.subrange(0, i as int).push(m));
            mushrooms@.subrange(0, i as int).lemma_filter_push(m, f);
        }
        if m.health.0 > 0 {
            kept.push(m);
        }
        i = i + 1;
    }
    assert(mushrooms@.subrange(0, mushrooms@.len() as int) =~= mushrooms@);
    proof {
        let f = |m: MushroomEntity| m.health.0 > 0;
        assert forall|j: int| 0 <= j < kept@.len() implies #[trigger] kept@[j].wf() by {
            assert(kept@.contains(kept@[j]));
            old(mushrooms)@.lemma_filter_contains_rev(f, kept@[j]);
            let k = choose|k: int| 0 <= k < old(mushrooms)@.len() && old(mushrooms)@[k] == kept@[j];
            assert(old(mushrooms)@[k].wf());
        }
    }
    *mushrooms = kept;
}

/// The frame of the mushroom sheet that shows a mushroom with `health`:
/// whole at full health, more bitten with each hit; none once it is gone.
pub open spec fn sprite_for(health: i8) -> Option<usize> {
    if health == 3 {
        Some(0usize)
    } else if health == 2 {
        Some(1usize)
    } else if health == 1 {
        Some(2usize)
    } else {
        None
    }
}

/// The frame each mushroom shows, in the order of `mushrooms`.
pub fn update_shroom_sprite(mushrooms: &Vec<MushroomEntity>) -> (frames: Vec<Option<usize>>)
    ensures
        frames@.len() == mushrooms@.len(),
        forall|i: int| 0 <= i < mushrooms@.len() ==> #[trigger] frames@[i] == sprite_for(mushrooms@[i].health.0),
{
    let mut frames: Vec<Option<usize>> = Vec::new();
    let mut i: usize = 0;
    while i < mushrooms.len()
        invariant
            i <= mushrooms@.len(),
            frames@.len() == i,
            forall|j: int| 0 <= j < i ==> #[trigger] frames@[j] == sprite_for(mushrooms@[j].health.0),
        decreases mushrooms@.len() - i,
    {
        let h = mushrooms[i].health.0;
        let f = if h == 3 {
            Some(0)
        } else if h == 2 {
            Some(1)
        } else if h == 1 {
            Some(2)
        } else {
            None
        };
        frames.push(f);
        i = i + 1;
    }
    frames
}

/// Removes every mushroom.
pub fn despawn_shroom_field(mushrooms: &mut Vec<MushroomEntity>)
    ensures
        final(mushrooms)@.len() == 0,
{
    mushrooms.clear();
}

/// Whether `p` lies where the starting field of mushrooms may grow: away
/// from the side margins, between the player's area and the top bar. On a
/// field too narrow or too short for that band, its middle.
pub open spec fn in_shroom_band(p: Pos, field: Field) -> bool {
    &&& (if field.width > 2 * SPAWN_MARGIN {
        SPAWN_MARGIN <= p.x < field.width - SPAWN_MARGIN
    } else {
        p.x == field.width / 2
    })
    &&& (if field.height - TOP_UI_HEIGHT > TOP_BOUND {
        TOP_BOUND <= p.y < field.height - TOP_UI_HEIGHT
    } else {
        p.y == TOP_BOUND
    })
}

/// Requests the starting field: the full amount of mushrooms, each at a
/// random place in the band where they grow.
pub fn spawn_shroom_field(field: Field, events: &mut Vec<SpawnMushroomEvent>)
    requires
        field.wf(),
    ensures
        final(events)@.len() == old(events)@.len() + MUSHROOM_MAX_AMOUNT,
        final(events)@.subrange(0, old(events)@.len() as int) == old(events)@,
        forall|i: int|
            old(events)@.len() <= i < final(events)@.len() ==> in_shroom_band(
                (#[trigger] final(events)@[i]).0,
                field,
            ) && final(events)@[i].0.wf(),
{
    let ghost start = events@.len() as int;
    let mut k: u8 = 0;
    while k < MUSHROOM_MAX_AMOUNT
        invariant
            k <= MUSHROOM_MAX_AMOUNT,
            field.wf(),
            start == old(events)@.len(),
            events@.len() == start + k,
            events@.subrange(0, start) == old(events)@,
            forall|i: int|
                start <= i < events@.len() ==> in_shroom_band((#[trigger] events@[i]).0, field)
                    && events@[i].0.wf(),
        decreases MUSHROOM_MAX_AMOUNT - k,
    {
        let x = if field.width > 2 * SPAWN_MARGIN {
            roll_range(SPAWN_MARGIN, field.width - SPAWN_MARGIN)
        } else {
            field.width / 2
        };
        let y = if field.height - TOP_UI_HEIGHT > TOP_BOUND {
            roll_range(TOP_BOUND, field.height - TOP_UI_HEIGHT)
        } else {
            TOP_BOUND
        };
        let ghost prev = events@;
        events.push(SpawnMushroomEvent(Pos { x, y }));
        proof {
            assert(forall|i: int| 0 <= i < prev.len() ==> events@[i] == #[trigger] prev[i]);
            assert(events@.subrange(0, start) =~= prev.subrange(0, start));
        }
        k = k + 1;
    }
}

} // verus!
