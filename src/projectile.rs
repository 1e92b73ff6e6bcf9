//! The player's projectile and what it hits.
use crate::constants::{
    BEETLE_REWARD, HEAD_REWARD, PLAYER_SIZE, PROJECTILE_SPEED, SCORPION_REWARD, SEGMENT_REWARD,
};
use crate::beetle::{beetle_opt_wf, Beetle};
use crate::entity::{Entity, EntityIds};
use crate::explosion::ExplosionEvent;
use crate::geometry::{
    clamp_spec, dt_ok, overlap, overlaps, shift, touch, touches, travel, travel_spec, Field, Pos,
};
use crate::millipede::{
    death_notice, despawn_wf, segments_wf, DespawnSegment, Segment, SegmentEntity,
};
use crate::player::Player;
use crate::score::{added, FloatingScoreEvent, Score};
use crate::scorpion::{scorpion_opt_wf, Scorpion};
use crate::shroom::{hit_mushroom, hit_spec, mushrooms_wf, MushroomEntity, SpawnMushroomEvent};
use crate::spider::{spider_opt_wf, Spider, SpiderTimer};
use crate::timer::{Timer, MAX_DURATION};
use vstd::prelude::*;

verus! {

/// The player's shot; there is at most one at a time.
#[derive(Clone, Copy, Debug, PartialEq, Eq, Structural)]
pub struct PlayerProjectile {
    pub id: Entity,
    pub pos: Pos,
}

pub open spec fn projectile_opt_wf(p: Option<PlayerProjectile>) -> bool {
    p matches Some(pr) ==> pr.pos.wf()
}

impl PlayerProjectile {
    /// Fires a projectile from `pos`.
    pub fn spawn(pos: Pos, projectile: &mut Option<PlayerProjectile>, ids: &mut EntityIds)
        requires
            old(ids).has_room(1),
        ensures
            *final(projectile) == Some(PlayerProjectile { id: old(ids).next, pos }),
            final(ids).next == old(ids).next + 1,
    {
        let id = ids.fresh();
        *projectile = Some(PlayerProjectile { id, pos });
    }
}

/// Fires from the player's position when the shoot key is held, there is a
/// player and no projectile is already in flight; tells whether it fired.
pub fn shoot_projectile(
    projectile: &mut Option<PlayerProjectile>,
    player: &Option<Player>,
    shoot: bool,
    ids: &mut EntityIds,
) -> (fired: bool)
    requires
        old(ids).has_room(1),
    ensures
        fired == (old(projectile).is_none() && shoot && player.is_some()),
        fired ==> *final(projectile) == Some(
            PlayerProjectile { id: old(ids).next, pos: player.unwrap().pos },
        ) && final(ids).next == old(ids).next + 1,
        !fired ==> *final(projectile) == *old(projectile) && *final(ids) == *old(ids),
{
    if projectile.is_some() {
        return false;
    }
    if !shoot {
        return false;
    }
    match *player {
        Some(p) => {
            PlayerProjectile::spawn(p.pos, projectile, ids);
            true
        },
        None => false,
    }
}

/// The projectile after flying straight up for one frame.
pub open spec fn projectile_moved(p: Option<PlayerProjectile>, dt: int) -> Option<PlayerProjectile> {
    match p {
        Some(p) => Some(
            PlayerProjectile {
                pos: Pos { y: clamp_spec(p.pos.y + travel_spec(PROJECTILE_SPEED as int, dt)) as i64, ..p.pos },
                ..p
            },
        ),
        None => None,
    }
}

/// The projectile, unless it has reached the top of the field.
pub open spec fn projectile_despawned(p: Option<PlayerProjectile>, field: Field) -> Option<PlayerProjectile> {
    match p {
        Some(q) => if q.pos.y >= field.height - PLAYER_SIZE {
            None
        } else {
            Some(q)
        },
        None => None,
    }
}

/// Moves the projectile straight up at its speed.
pub fn move_projectile(projectile: &mut Option<PlayerProjectile>, dt: i64)
    requires
        projectile_opt_wf(*old(projectile)),
        dt_ok(dt as int),
    ensures
        projectile_opt_wf(*final(projectile)),
        *final(projectile) == projectile_moved(*old(projectile), dt as int),
{
    if let Some(p) = *projectile {
        let step = travel(PROJECTILE_SPEED, dt);
        *projectile = Some(PlayerProjectile { pos: Pos { y: shift(p.pos.y, step), ..p.pos }, ..p });
    }
}

/// Removes the projectile once it reaches the top of the field.
pub fn despawn_projectile(projectile: &mut Option<PlayerProjectile>, field: Field)
    requires
        field.wf(),
    ensures
        *final(projectile) == projectile_despawned(*old(projectile), field),
{
    if let Some(p) = *projectile {
        if p.pos.y >= field.height - PLAYER_SIZE {
            *projectile = None;
        }
    }
}

/// Sum of the radii of the projectile and a scorpion, spider, segment or
/// beetle.
pub const PROJECTILE_CONTACT: i64 = 13_000;

/// Sum of the radii of the projectile and a mushroom.
pub const PROJECTILE_SHROOM_CONTACT: i64 = 10_500;

/// Everything a hit may announce.
pub struct HitEvents {
    pub explosions: Vec<ExplosionEvent>,
    pub mushrooms: Vec<SpawnMushroomEvent>,
    pub floating: Vec<FloatingScoreEvent>,
    pub segments: Vec<DespawnSegment>,
}

/// Every queued mushroom lies in range, and every queued death notice
/// carries a valid heading.
pub open spec fn queues_wf(e: HitEvents) -> bool {
    &&& forall|i: int| 0 <= i < e.mushrooms@.len() ==> (#[trigger] e.mushrooms@[i]).0.wf()
    &&& forall|i: int| 0 <= i < e.segments@.len() ==> despawn_wf(#[trigger] e.segments@[i])
}

/// The scorpion is shot when the projectile touches it: both go, with an
/// explosion and the scorpion's reward.
pub fn projectile_hits_scorpion(
    projectile: &mut Option<PlayerProjectile>,
    scorpion: &mut Option<Scorpion>,
    score: &mut Score,
    events: &mut HitEvents,
)
    requires
        queues_wf(*old(events)),
        projectile_opt_wf(*old(projectile)),
        scorpion_opt_wf(*old(scorpion)),
    ensures
        queues_wf(*final(events)),
        match (*old(projectile), *old(scorpion)) {
            (Some(p), Some(s)) if touches(p.pos, s.pos, PROJECTILE_CONTACT as int) => {
                &&& *final(projectile) == None::<PlayerProjectile>
                &&& *final(scorpion) == None::<Scorpion>
                &&& final(score).0 == added(old(score).0, SCORPION_REWARD)
                &&& final(events).explosions@ == old(events).explosions@.push(ExplosionEvent(s.pos))
                &&& final(events).floating@ == old(events).floating@.push(
                    FloatingScoreEvent(s.pos, SCORPION_REWARD),
                )
                &&& final(events).mushrooms@ == old(events).mushrooms@
                &&& final(events).segments@ == old(events).segments@
            },
            _ => {
                &&& *final(projectile) == *old(projectile)
                &&& *final(scorpion) == *old(scorpion)
                &&& *final(score) == *old(score)
                &&& final(events).explosions@ == old(events).explosions@
                &&& final(events).floating@ == old(events).floating@
                &&& final(events).mushrooms@ == old(events).mushrooms@
                &&& final(events).segments@ == old(events).segments@
            },
        },
{
    if let (Some(p), Some(s)) = (*projectile, *scorpion) {
        if touch(p.pos, s.pos, PROJECTILE_CONTACT) {
            events.explosions.push(ExplosionEvent(s.pos));
            events.floating.push(FloatingScoreEvent(s.pos, SCORPION_REWARD));
            *projectile = None;
            Scorpion::kill(scorpion, score);
        }
    }
}

/// Largest base reward of a spider.
pub const SPIDER_REWARD_LIMIT: u32 = 1_000_000;

/// Points for shooting a spider at height `y`: the level's spider reward
/// `base` plus four fifths of its height in pixels, nothing for a negative
/// height.
pub open spec fn spider_points(y: i64, base: u32) -> u32 {
    if y <= 0 {
        base
    } else {
        (y * 4 / 5000 + base) as u32
    }
}

pub fn spider_reward(y: i64, base: u32) -> (r: u32)
    requires
        y <= 0x100_0000_0000,
        base <= SPIDER_REWARD_LIMIT,
    ensures
        r == spider_points(y, base),
{
    if y <= 0 {
        base
    } else {
        (y * 4 / 5000) as u32 + base
    }
}

/// The spider is shot when the projectile overlaps it: both go, with an
/// explosion, the wait for the next spider restarts with the level's wait
/// `length`, and the points are the level's spider reward `base` plus an
/// amount that grows with how high the spider was.
pub fn projectile_hits_spider(
    projectile: &mut Option<PlayerProjectile>,
    spider: &mut Option<Spider>,
    spider_timer: &mut SpiderTimer,
    score: &mut Score,
    events: &mut HitEvents,
    base: u32,
    length: u64,
)
    requires
        queues_wf(*old(events)),
        projectile_opt_wf(*old(projectile)),
        spider_opt_wf(*old(spider)),
        old(spider_timer).0.wf(),
        base <= SPIDER_REWARD_LIMIT,
        0 < length <= MAX_DURATION,
    ensures
        queues_wf(*final(events)),
        final(spider_timer).0.wf(),
        match (*old(projectile), *old(spider)) {
            (Some(p), Some(s)) if overlaps(p.pos, s.pos, PROJECTILE_CONTACT as int) => {
                &&& *final(projectile) == None::<PlayerProjectile>
                &&& *final(spider) == None::<Spider>
                &&& final(spider_timer).0 == Timer::new_spec(length)
                &&& final(score).0 == added(old(score).0, spider_points(s.pos.y, base))
                &&& final(events).explosions@ == old(events).explosions@.push(ExplosionEvent(s.pos))
                &&& final(events).floating@ == old(events).floating@.push(
                    FloatingScoreEvent(s.pos, spider_points(s.pos.y, base)),
                )
                &&& final(events).mushrooms@ == old(events).mushrooms@
                &&& final(events).segments@ == old(events).segments@
            },
            _ => {
                &&& *final(projectile) == *old(projectile)
                &&& *final(spider) == *old(spider)
                &&& *final(spider_timer) == *old(spider_timer)
                &&& *final(score) == *old(score)
                &&& final(events).explosions@ == old(events).explosions@
                &&& final(events).floating@ == old(events).floating@
                &&& final(events).mushrooms@ == old(events).mushrooms@
                &&& final(events).segments@ == old(events).segments@
            },
        },
{
    if let (Some(p), Some(s)) = (*projectile, *spider) {
        if overlap(p.pos, s.pos, PROJECTILE_CONTACT) {
            let points = spider_reward(s.pos.y, base);
            events.explosions.push(ExplosionEvent(s.pos));
            events.floating.push(FloatingScoreEvent(s.pos, points));
            *projectile = None;
            Spider::despawn(spider, spider_timer, length);
            score.add(points);
        }
    }
}

/// The first segment, in order, that the projectile overlaps.
pub open spec fn first_hit_segment(p: Pos, s: Seq<SegmentEntity>) -> Option<int> {
    if exists|i: int| 0 <= i < s.len() && #[trigger] overlaps(p, s[i].pos, PROJECTILE_CONTACT as int) {
        Some(
            choose|i: int|
                0 <= i < s.len() && #[trigger] overlaps(p, s[i].pos, PROJECTILE_CONTACT as int) && forall|
                    j: int,
                | 0 <= j < i ==> !#[trigger] overlaps(p, s[j].pos, PROJECTILE_CONTACT as int),
        )
    } else {
        None
    }
}

/// Points for shooting a segment: a head is worth more than a body.
pub open spec fn segment_points(e: SegmentEntity) -> u32 {
    match e.segment {
        Segment::Head { .. } => HEAD_REWARD,
        Segment::Body { .. } => SEGMENT_REWARD,
    }
}

fn find_segment_hit(p: Pos, segments: &Vec<SegmentEntity>) -> (r: Option<usize>)
    requires
        p.wf(),
        segments_wf(segments@),
    ensures
        match r {
            Some(i) => i < segments@.len() && overlaps(p, segments@[i as int].pos, PROJECTILE_CONTACT as int)
                && forall|j: int| 0 <= j < i ==> !#[trigger] overlaps(p, segments@[j].pos, PROJECTILE_CONTACT as int),
            None => forall|j: int|
                0 <= j < segments@.len() ==> !#[trigger] overlaps(p, segments@[j].pos, PROJECTILE_CONTACT as int),
        },
{
    let mut i: usize = 0;
    while i < segments.len()
        invariant
            i <= segments@.len(),
            p.wf(),
            segments_wf(segments@),
            forall|j: int| 0 <= j < i ==> !#[trigger] overlaps(p, segments@[j].pos, PROJECTILE_CONTACT as int),
        decreases segments@.len() - i,
    {
        assert(segments@[i as int].wf());
        if overlap(p, segments[i].pos, PROJECTILE_CONTACT) {
            return Some(i);
        }
        i = i + 1;
    }
    None
}

proof fn lemma_first_hit(p: Pos, s: Seq<SegmentEntity>, i: int)
    requires
        0 <= i < s.len(),
        overlaps(p, s[i].pos, PROJECTILE_CONTACT as int),
        forall|j: int| 0 <= j < i ==> !#[trigger] overlaps(p, s[j].pos, PROJECTILE_CONTACT as int),
    ensures
        first_hit_segment(p, s) == Some(i),
{
    let k = choose|k: int|
        0 <= k < s.len() && #[trigger] overlaps(p, s[k].pos, PROJECTILE_CONTACT as int) && forall|j: int|
            0 <= j < k ==> !#[trigger] overlaps(p, s[j].pos, PROJECTILE_CONTACT as int);
    if k < i {
        assert(!overlaps(p, s[k].pos, PROJECTILE_CONTACT as int));
    } else if k > i {
        assert(!overlaps(p, s[i].pos, PROJECTILE_CONTACT as int));
    }
}

/// The first segment the projectile overlaps is shot: both go, the
/// segment's death is announced (with its heading if it was a head) so its
/// follower can take over, an explosion, a mushroom and the points appear
/// where it was, and the points are added.
pub fn projectile_hits_segment(
    projectile: &mut Option<PlayerProjectile>,
    segments: &mut Vec<SegmentEntity>,
    score: &mut Score,
    events: &mut HitEvents,
)
    requires
        queues_wf(*old(events)),
        projectile_opt_wf(*old(projectile)),
        segments_wf(old(segments)@),
    ensures
        queues_wf(*final(events)),
        segments_wf(final(segments)@),
        match *old(projectile) {
            Some(p) => match first_hit_segment(p.pos, old(segments)@) {
                Some(i) => {
                    let e = old(segments)@[i];
                    &&& *final(projectile) == None::<PlayerProjectile>
                    &&& final(segments)@ == old(segments)@.remove(i)
                    &&& final(score).0 == added(old(score).0, segment_points(e))
                    &&& final(events).segments@ == old(events).segments@.push(death_notice(e))
                    &&& final(events).explosions@ == old(events).explosions@.push(ExplosionEvent(e.pos))
                    &&& final(events).mushrooms@ == old(events).mushrooms@.push(SpawnMushroomEvent(e.pos))
                    &&& final(events).floating@ == old(events).floating@.push(
                        FloatingScoreEvent(e.pos, segment_points(e)),
                    )
                },
                None => {
                    &&& *final(projectile) == *old(projectile)
                    &&& final(segments)@ == old(segments)@
                    &&& *final(score) == *old(score)
                    &&& final(events).segments@ == old(events).segments@
                    &&& final(events).explosions@ == old(events).explosions@
                    &&& final(events).mushrooms@ == old(events).mushrooms@
                    &&& final(events).floating@ == old(events).floating@
                },
            },
            None => {
                &&& *final(projectile) == *old(projectile)
                &&& final(segments)@ == old(segments)@
                &&& *final(score) == *old(score)
                &&& final(events).segments@ == old(events).segments@
                &&& final(events).explosions@ == old(events).explosions@
                &&& final(events).mushrooms@ == old(events).mushrooms@
                &&& final(events).floating@ == old(events).floating@
            },
        },
{
    let p = match *projectile {
        Some(p) => p,
        None => {
            return;
        },
    };
    match find_segment_hit(p.pos, segments) {
        Some(i) => {
            proof {
                lemma_first_hit(p.pos, segments@, i as int);
            }
            let e = segments[i];
            let direction = match e.segment {
                Segment::Head { direction, .. } => Some(direction),
                Segment::Body { .. } => None,
            };
            assert(segments@[i as int].wf());
            let ghost old_events = *events;
            events.segments.push(DespawnSegment { entity: e.id, direction });
            events.explosions.push(ExplosionEvent(e.pos));
            events.mushrooms.push(SpawnMushroomEvent(e.pos));
            let points = match e.segment {
                Segment::Head { .. } => HEAD_REWARD,
                Segment::Body { .. } => SEGMENT_REWARD,
            };
            events.floating.push(FloatingScoreEvent(e.pos, points));
            proof {
                assert forall|k: int| 0 <= k < events.segments@.len() implies despawn_wf(
                #[trigger] events.segments@[k]) by {
                    if k < old_events.segments@.len() {
                        assert(events.segments@[k] == old_events.segments@[k]);
                    }
                }
                assert forall|k: int| 0 <= k < events.mushrooms@.len() implies (
                #[trigger] events.mushrooms@[k]).0.wf() by {
                    if k < old_events.mushrooms@.len() {
                        assert(events.mushrooms@[k] == old_events.mushrooms@[k]);
                    }
                }
            }
            *projectile = None;
            let ghost before = segments@;
            segments.remove(i);
            assert forall|j: int| 0 <= j < segments@.len() implies #[trigger] segments@[j].wf() by {
                if j < i {
                    assert(segments@[j] == before[j]);
                } else {
                    assert(segments@[j] == before[j + 1]);
                }
            }
            score.add(points);
        },
        None => {
            assert(first_hit_segment(p.pos, segments@) == None::<int>);
        },
    }
}

/// The beetle is shot when the projectile overlaps it: both go, with an
/// explosion, a mushroom where it was and the beetle's reward.
pub fn projectile_hits_beetle(
    projectile: &mut Option<PlayerProjectile>,
    beetle: &mut Option<Beetle>,
    score: &mut Score,
    events: &mut HitEvents,
)
    requires
        queues_wf(*old(events)),
        projectile_opt_wf(*old(projectile)),
        beetle_opt_wf(*old(beetle)),
    ensures
        queues_wf(*final(events)),
        match (*old(projectile), *old(beetle)) {
            (Some(p), Some(b)) if overlaps(p.pos, b.pos, PROJECTILE_CONTACT as int) => {
                &&& *final(projectile) == None::<PlayerProjectile>
                &&& *final(beetle) == None::<Beetle>
                &&& final(score).0 == added(old(score).0, BEETLE_REWARD)
                &&& final(events).explosions@ == old(events).explosions@.push(ExplosionEvent(b.pos))
                &&& final(events).mushrooms@ == old(events).mushrooms@.push(SpawnMushroomEvent(b.pos))
                &&& final(events).floating@ == old(events).floating@.push(
                    FloatingScoreEvent(b.pos, BEETLE_REWARD),
                )
                &&& final(events).segments@ == old(events).segments@
            },
            _ => {
                &&& *final(projectile) == *old(projectile)
                &&& *final(beetle) == *old(beetle)
                &&& *final(score) == *old(score)
                &&& final(events).explosions@ == old(events).explosions@
                &&& final(events).mushrooms@ == old(events).mushrooms@
                &&& final(events).floating@ == old(events).floating@
                &&& final(events).segments@ == old(events).segments@
            },
        },
{
    if let (Some(p), Some(b)) = (*projectile, *beetle) {
        if overlap(p.pos, b.pos, PROJECTILE_CONTACT) {
            let ghost old_events = *events;
            events.explosions.push(ExplosionEvent(b.pos));
            events.mushrooms.push(SpawnMushroomEvent(b.pos));
            events.floating.push(FloatingScoreEvent(b.pos, BEETLE_REWARD));
            proof {
                assert forall|k: int| 0 <= k < events.mushrooms@.len() implies (
                #[trigger] events.mushrooms@[k]).0.wf() by {
                    if k < old_events.mushrooms@.len() {
                        assert(events.mushrooms@[k] == old_events.mushrooms@[k]);
                    }
                }
            }
            *projectile = None;
            *beetle = None;
            score.add(BEETLE_REWARD);
        }
    }
}

/// The first mushroom, in order, that the projectile overlaps.
pub open spec fn first_hit_shroom(p: Pos, s: Seq<MushroomEntity>) -> Option<int> {
    if exists|i: int| 0 <= i < s.len() && #[trigger] overlaps(p, s[i].pos, PROJECTILE_SHROOM_CONTACT as int) {
        Some(
            choose|i: int|
                0 <= i < s.len() && #[trigger] overlaps(p, s[i].pos, PROJECTILE_SHROOM_CONTACT as int)
                    && forall|j: int|
                    0 <= j < i ==> !#[trigger] overlaps(p, s[j].pos, PROJECTILE_SHROOM_CONTACT as int),
        )
    } else {
        None
    }
}

proof fn lemma_first_shroom(p: Pos, s: Seq<MushroomEntity>, i: int)
    requires
        0 <= i < s.len(),
        overlaps(p, s[i].pos, PROJECTILE_SHROOM_CONTACT as int),
        forall|j: int| 0 <= j < i ==> !#[trigger] overlaps(p, s[j].pos, PROJECTILE_SHROOM_CONTACT as int),
    ensures
        first_hit_shroom(p, s) == Some(i),
{
    let k = choose|k: int|
        0 <= k < s.len() && #[trigger] overlaps(p, s[k].pos, PROJECTILE_SHROOM_CONTACT as int) && forall|
            j: int,
        | 0 <= j < k ==> !#[trigger] overlaps(p, s[j].pos, PROJECTILE_SHROOM_CONTACT as int);
    if k < i {
        assert(!overlaps(p, s[k].pos, PROJECTILE_SHROOM_CONTACT as int));
    } else if k > i {
        assert(!overlaps(p, s[i].pos, PROJECTILE_SHROOM_CONTACT as int));
    }
}

/// The first mushroom the projectile overlaps takes a hit: the projectile
/// goes, the mushroom loses one health, and the hit that brings it to zero
/// earns the mushroom reward.
pub fn projectile_hits_shroom(
    projectile: &mut Option<PlayerProjectile>,
    mushrooms: &mut Vec<MushroomEntity>,
    score: &mut Score,
)
    requires
        projectile_opt_wf(*old(projectile)),
        mushrooms_wf(old(mushrooms)@),
    ensures
        mushrooms_wf(final(mushrooms)@),
        match *old(projectile) {
            Some(p) => match first_hit_shroom(p.pos, old(mushrooms)@) {
                Some(i) => {
                    &&& *final(projectile) == None::<PlayerProjectile>
                    &&& final(mushrooms)@ == old(mushrooms)@.update(i, hit_spec(old(mushrooms)@[i]).0)
                    &&& final(score).0 == added(old(score).0, hit_spec(old(mushrooms)@[i]).1)
                },
                None => *final(projectile) == *old(projectile) && final(mushrooms)@ == old(mushrooms)@
                    && *final(score) == *old(score),
            },
            None => *final(projectile) == *old(projectile) && final(mushrooms)@ == old(mushrooms)@
                && *final(score) == *old(score),
        },
{
    let p = match *projectile {
        Some(p) => p,
        None => {
            return;
        },
    };
    let mut i: usize = 0;
    while i < mushrooms.len()
        invariant
            i <= mushrooms@.len(),
            mushrooms@ == old(mushrooms)@,
            *projectile == Some(p),
            *old(projectile) == Some(p),
            *score == *old(score),
            p.pos.wf(),
            mushrooms_wf(mushrooms@),
            forall|j: int|
                0 <= j < i ==> !#[trigger] overlaps(p.pos, mushrooms@[j].pos, PROJECTILE_SHROOM_CONTACT as int),
        decreases mushrooms@.len() - i,
    {
        let m = mushrooms[i];
        assert(mushrooms@[i as int].wf());
        if overlap(p.pos, m.pos, PROJECTILE_SHROOM_CONTACT) {
            proof {
                lemma_first_shroom(p.pos, mushrooms@, i as int);
            }
            *projectile = None;
            let (hit, reward) = hit_mushroom(m);
            mushrooms.set(i, hit);
            assert(mushrooms@ == old(mushrooms)@.update(i as int, hit_spec(old(mushrooms)@[i as int]).0));
            assert forall|j: int| 0 <= j < mushrooms@.len() implies #[trigger] mushrooms@[j].wf() by {
                if j != i {
                    assert(mushrooms@[j] == old(mushrooms)@[j]);
                }
            }
            score.add(reward);
            return;
        }
        i = i + 1;
    }
    assert(first_hit_shroom(p.pos, mushrooms@) == None::<int>);
}

proof fn lemma_least_segment(p: Pos, s: Seq<SegmentEntity>, i: int)
    requires
        0 <= i < s.len(),
        overlaps(p, s[i].pos, PROJECTILE_CONTACT as int),
    ensures
        exists|k: int|
            0 <= k < s.len() && #[trigger] overlaps(p, s[k].pos, PROJECTILE_CONTACT as int) && forall|j: int|
                0 <= j < k ==> !#[trigger] overlaps(p, s[j].pos, PROJECTILE_CONTACT as int),
    decreases i,
{
    if exists|j: int| 0 <= j < i && #[trigger] overlaps(p, s[j].pos, PROJECTILE_CONTACT as int) {
        let j = choose|j: int| 0 <= j < i && #[trigger] overlaps(p, s[j].pos, PROJECTILE_CONTACT as int);
        lemma_least_segment(p, s, j);
    } else {
        assert(forall|j: int| 0 <= j < i ==> !#[trigger] overlaps(p, s[j].pos, PROJECTILE_CONTACT as int));
    }
}

/// The first segment hit, if any, is one of the segments.
pub proof fn lemma_first_hit_segment_in_range(p: Pos, s: Seq<SegmentEntity>)
    ensures
        first_hit_segment(p, s) matches Some(i) ==> 0 <= i < s.len(),
{
    if exists|i: int| 0 <= i < s.len() && #[trigger] overlaps(p, s[i].pos, PROJECTILE_CONTACT as int) {
        let i = choose|i: int| 0 <= i < s.len() && #[trigger] overlaps(p, s[i].pos, PROJECTILE_CONTACT as int);
        lemma_least_segment(p, s, i);
    }
}

proof fn lemma_least_shroom(p: Pos, s: Seq<MushroomEntity>, i: int)
    requires
        0 <= i < s.len(),
        overlaps(p, s[i].pos, PROJECTILE_SHROOM_CONTACT as int),
    ensures
        exists|k: int|
            0 <= k < s.len() && #[trigger] overlaps(p, s[k].pos, PROJECTILE_SHROOM_CONTACT as int)
                && forall|j: int|
                0 <= j < k ==> !#[trigger] overlaps(p, s[j].pos, PROJECTILE_SHROOM_CONTACT as int),
    decreases i,
{
    if exists|j: int| 0 <= j < i && #[trigger] overlaps(p, s[j].pos, PROJECTILE_SHROOM_CONTACT as int) {
        let j = choose|j: int| 0 <= j < i && #[trigger] overlaps(p, s[j].pos, PROJECTILE_SHROOM_CONTACT as int);
        lemma_least_shroom(p, s, j);
    } else {
        assert(forall|j: int| 0 <= j < i ==> !#[trigger] overlaps(p, s[j].pos, PROJECTILE_SHROOM_CONTACT as int));
    }
}

/// The first mushroom hit, if any, is one of the mushrooms.
pub proof fn lemma_first_hit_shroom_in_range(p: Pos, s: Seq<MushroomEntity>)
    ensures
        first_hit_shroom(p, s) matches Some(i) ==> 0 <= i < s.len(),
{
    if exists|i: int| 0 <= i < s.len() && #[trigger] overlaps(p, s[i].pos, PROJECTILE_SHROOM_CONTACT as int) {
        let i = choose|i: int| 0 <= i < s.len() && #[trigger] overlaps(p, s[i].pos, PROJECTILE_SHROOM_CONTACT as int);
        lemma_least_shroom(p, s, i);
    }
}

/// What a shot hits first.
#[derive(Clone, Copy, Debug, PartialEq, Eq, Structural)]
pub enum HitKind {
    Miss,
    Scorpion,
    Spider,
    Segment(usize),
    Beetle,
    Mushroom(usize),
}

/// The first target the projectile hits, trying in turn the scorpion (by
/// touch), the spider, the segments in order, the beetle and the mushrooms
/// in order (by overlap).
pub open spec fn hit_kind(
    pr: Option<PlayerProjectile>,
    sc: Option<Scorpion>,
    sp: Option<Spider>,
    segs: Seq<SegmentEntity>,
    b: Option<Beetle>,
    ms: Seq<MushroomEntity>,
) -> HitKind {
    match pr {
        None => HitKind::Miss,
        Some(p) => if sc is Some && touches(p.pos, sc.unwrap().pos, PROJECTILE_CONTACT as int) {
            HitKind::Scorpion
        } else if sp is Some && overlaps(p.pos, sp.unwrap().pos, PROJECTILE_CONTACT as int) {
            HitKind::Spider
        } else if first_hit_segment(p.pos, segs) is Some {
            HitKind::Segment(first_hit_segment(p.pos, segs).unwrap() as usize)
        } else if b is Some && overlaps(p.pos, b.unwrap().pos, PROJECTILE_CONTACT as int) {
            HitKind::Beetle
        } else if first_hit_shroom(p.pos, ms) is Some {
            HitKind::Mushroom(first_hit_shroom(p.pos, ms).unwrap() as usize)
        } else {
            HitKind::Miss
        },
    }
}

/// The points a hit earns; a spider is worth the level's reward `base` plus
/// its height bonus.
pub open spec fn hit_reward(
    k: HitKind,
    sp: Option<Spider>,
    segs: Seq<SegmentEntity>,
    ms: Seq<MushroomEntity>,
    base: u32,
) -> u32 {
    match k {
        HitKind::Miss => 0,
        HitKind::Scorpion => SCORPION_REWARD,
        HitKind::Spider => spider_points(sp.unwrap().pos.y, base),
        HitKind::Segment(i) => segment_points(segs[i as int]),
        HitKind::Beetle => BEETLE_REWARD,
        HitKind::Mushroom(i) => hit_spec(ms[i as int]).1,
    }
}

} // verus!
