//! The millipede: a chain of segments led by a head, each body segment
//! chasing the last known position of its parent.
use crate::constants::{
    DROP_AMOUNT, MILLIPEDE_MAX_SPEED, PPM, PUSH_BACK_AMOUNT, SEGMENT_DROP_RATE, SEGMENT_SPACING,
    SEGMENT_SPAWN_TIMER_DURATION, TOP_BOUND,
};
use crate::entity::{Entity, EntityIds};
use crate::timer::Timer;
use crate::player::Player;
use crate::rng::{roll_range, roll_ratio};
use crate::state::LevelState;
use crate::shroom::{mushrooms_wf, Mushroom, MushroomEntity};
use crate::geometry::{
    abs, clamp_spec, dist_sq, distance_sq, dt_ok, isqrt, lemma_isqrt_exists, lemma_scale_bounds,
    overlap, overlaps, root, scale, scale_spec, shift, sq, touch, touches, travel, travel_spec,
    Field, Pos,
};
use std::collections::HashMap;
use vstd::prelude::*;

verus! {

#[derive(Clone, Copy, Debug, PartialEq, Eq, Structural)]
pub enum HeadState {
    Healthy,
    Poisoned,
}

/// Direction of travel of a head: each component is -1 or 1.
#[derive(Clone, Copy, Debug, PartialEq, Eq, Structural)]
pub struct Heading {
    pub x: i64,
    pub y: i64,
}

impl Heading {
    pub open spec fn wf(self) -> bool {
        (self.x == 1 || self.x == -1) && (self.y == 1 || self.y == -1)
    }

    /// Rightward and downward: the heading of a fresh head.
    pub open spec fn initial_spec() -> Heading {
        Heading { x: 1i64, y: -1i64 }
    }

    pub fn initial() -> (r: Heading)
        ensures
            r == Heading::initial_spec(),
    {
        Heading { x: 1, y: -1 }
    }
}

#[derive(Clone, Copy, Debug, PartialEq, Eq, Structural)]
pub enum Segment {
    Head { direction: Heading, head_state: HeadState },
    Body { parent: Option<Entity> },
}

/// How a segment is drawn.
#[derive(Clone, Copy, Debug, PartialEq, Eq, Structural)]
pub enum SegmentColor {
    Plain,
    Head,
    PoisonedHead,
}

/// One segment together with its entity and position.
#[derive(Clone, Copy, Debug, PartialEq, Eq, Structural)]
pub struct SegmentEntity {
    pub id: Entity,
    pub pos: Pos,
    pub segment: Segment,
    pub color: SegmentColor,
}

impl SegmentEntity {
    pub open spec fn wf(self) -> bool {
        &&& self.pos.wf()
        &&& match self.segment {
            Segment::Head { direction, .. } => direction.wf(),
            Segment::Body { .. } => true,
        }
    }

    pub open spec fn is_head(self) -> bool {
        self.segment is Head
    }

    pub fn is_head_exec(&self) -> (r: bool)
        ensures
            r == self.is_head(),
    {
        match self.segment {
            Segment::Head { .. } => true,
            Segment::Body { .. } => false,
        }
    }
}

pub open spec fn segments_wf(s: Seq<SegmentEntity>) -> bool {
    forall|i: int| 0 <= i < s.len() ==> #[trigger] s[i].wf()
}

/// Notice that a segment died, with the heading it had if it was a head.
#[derive(Clone, Copy, Debug, PartialEq, Eq, Structural)]
pub struct DespawnSegment {
    pub entity: Entity,
    pub direction: Option<Heading>,
}

/// The `i`-th segment of a millipede spawned at `origin` whose first
/// identifier is `base`.
pub open spec fn chain_segment(origin: Pos, base: int, i: int) -> SegmentEntity {
    SegmentEntity {
        id: (base + i) as u64,
        pos: origin,
        segment: if i == 0 {
            Segment::Head { direction: Heading::initial_spec(), head_state: HeadState::Healthy }
        } else {
            Segment::Body { parent: Some((base + i - 1) as u64) }
        },
        color: if i == 0 {
            SegmentColor::Head
        } else {
            SegmentColor::Plain
        },
    }
}

/// Number of segments a spawn of `length` creates: the head always comes.
pub open spec fn spawn_count(length: int) -> int {
    if length == 0 {
        1
    } else {
        length
    }
}

pub struct Millipede;

impl Millipede {
    /// Appends a chain of `length` segments at `origin` (at least the head):
    /// the first is a healthy head heading right and down, each next one a
    /// body whose parent is the one before.
    pub fn spawn(
        length: usize,
        origin: Pos,
        segments: &mut Vec<SegmentEntity>,
        ids: &mut EntityIds,
    )
        requires
            origin.wf(),
            old(ids).has_room(length as int + 1),
            segments_wf(old(segments)@),
        ensures
            final(ids).next == old(ids).next + spawn_count(length as int),
            final(segments)@.len() == old(segments)@.len() + spawn_count(length as int),
            final(segments)@.subrange(0, old(segments)@.len() as int) == old(segments)@,
            forall|i: int|
                0 <= i < spawn_count(length as int) ==> #[trigger] final(segments)@[old(
                    segments,
                )@.len() + i] == chain_segment(origin, old(ids).next as int, i),
            segments_wf(final(segments)@),
    {
        let ghost base = ids.next as int;
        let ghost start = segments@.len() as int;
        let head_id = ids.fresh();
        segments.push(
            SegmentEntity {
                id: head_id,
                pos: origin,
                segment: Segment::Head { direction: Heading::initial(), head_state: HeadState::Healthy },
                color: SegmentColor::Head,
            },
        );
        let mut parent: Entity = head_id;
        let mut k: usize = 1;
        while k < length
            invariant
                1 <= k,
                start == old(segments)@.len(),
                base == old(ids).next,
                k <= length || (length == 0 && k == 1),
                ids.next == base + k,
                parent == base + k - 1,
                base + length + 1 < u64::MAX,
                origin.wf(),
                segments@.len() == start + k,
                segments@.subrange(0, start) == old(segments)@,
                forall|i: int| 0 <= i < k ==> #[trigger] segments@[start + i] == chain_segment(origin, base, i),
                segments_wf(segments@),
            decreases length - k,
        {
            let id = ids.fresh();
            let ghost prev = segments@;
            segments.push(
                SegmentEntity {
                    id,
                    pos: origin,
                    segment: Segment::Body { parent: Some(parent) },
                    color: SegmentColor::Plain,
                },
            );
            proof {
                let e = segments@[start + k as int];
                assert(prev.len() == start + k);
                assert(segments@ == prev.push(e));
                assert(forall|i: int| 0 <= i < prev.len() ==> segments@[i] == #[trigger] prev[i]);
                assert(segments@[start + k as int] == chain_segment(origin, base, k as int));
                assert(0 <= start <= prev.len());
                assert forall|j: int| 0 <= j < start implies segments@.subrange(0, start)[j] == #[trigger] prev.subrange(0, start)[j] by {
                    assert(segments@[j] == prev[j]);
                }
                assert(segments@.subrange(0, start) =~= prev.subrange(0, start));
                assert forall|i: int| 0 <= i < k + 1 implies #[trigger] segments@[start + i] == chain_segment(origin, base, i) by {
                    if i < k {
                        assert(segments@[start + i] == prev[start + i]);
                    }
                }
                assert forall|i: int| 0 <= i < segments@.len() implies #[trigger] segments@[i].wf() by {
                    if i < prev.len() {
                        assert(segments@[i] == prev[i]);
                    }
                }
            }
            parent = id;
            k = k + 1;
        }
    }

    /// Removes every segment.
    pub fn despawn(segments: &mut Vec<SegmentEntity>)
        ensures
            final(segments)@.len() == 0,
    {
        segments.clear();
    }
}

/// The last known position of each segment, taken once per frame before
/// segments move, so that every body chases where its parent was.
#[derive(Debug)]
pub struct SegmentPositions {
    pub map: HashMap<Entity, Pos>,
}

/// The snapshot of `s`: each segment's position under its identifier.
pub open spec fn snapshot_of(s: Seq<SegmentEntity>) -> Map<Entity, Pos>
    decreases s.len(),
{
    if s.len() == 0 {
        Map::empty()
    } else {
        snapshot_of(s.drop_last()).insert(s.last().id, s.last().pos)
    }
}

/// The position recorded for `id`, if any.
pub open spec fn position_of(snap: Map<Entity, Pos>, id: Entity) -> Option<Pos> {
    if snap.contains_key(id) {
        Some(snap[id])
    } else {
        None
    }
}

pub open spec fn snapshot_wf(snap: Map<Entity, Pos>) -> bool {
    forall|id: Entity| snap.contains_key(id) ==> (#[trigger] snap[id]).wf()
}

impl SegmentPositions {
    pub open spec fn wf(self) -> bool {
        snapshot_wf(self.map@)
    }

    /// The recorded position of `id`.
    pub fn get(&self, id: Entity) -> (r: Option<Pos>)
        requires
            self.wf(),
        ensures
            r == position_of(self.map@, id),
            r matches Some(p) ==> p.wf(),
    {
        broadcast use vstd::std_specs::hash::group_hash_axioms;

        match self.map.get(&id) {
            Some(p) => Some(*p),
            None => None,
        }
    }
}

/// Takes the snapshot of segment positions for this frame.
pub fn update_positions(segments: &Vec<SegmentEntity>) -> (r: SegmentPositions)
    requires
        segments_wf(segments@),
    ensures
        r.map@ == snapshot_of(segments@),
        r.wf(),
{
    broadcast use vstd::std_specs::hash::group_hash_axioms;

    let mut map: HashMap<Entity, Pos> = HashMap::new();
    let mut i: usize = 0;
    while i < segments.len()
        invariant
            i <= segments@.len(),
            map@ == snapshot_of(segments@.subrange(0, i as int)),
            snapshot_wf(map@),
            segments_wf(segments@),
        decreases segments@.len() - i,
    {
        let e = segments[i];
        assert(segments@[i as int].wf());
        map.insert(e.id, e.pos);
        assert(segments@.subrange(0, i + 1).drop_last() =~= segments@.subrange(0, i as int));
        i = i + 1;
    }
    assert(segments@.subrange(0, segments@.len() as int) =~= segments@);
    SegmentPositions { map }
}

pub open spec fn min_int(a: int, b: int) -> int {
    if a <= b {
        a
    } else {
        b
    }
}

/// Where a body at `p` ends up when it chases its parent at `q` with at
/// most `step` of travel: straight toward the parent, stopping at the
/// segment spacing.
pub open spec fn follow(p: Pos, q: Pos, step: int) -> Pos {
    let d2 = dist_sq(p, q);
    if d2 <= sq(SEGMENT_SPACING as int) {
        p
    } else {
        let d = root(d2);
        let t = min_int(step, d - SEGMENT_SPACING);
        Pos {
            x: (p.x + scale_spec(q.x - p.x, t, d)) as i64,
            y: (p.y + scale_spec(q.y - p.y, t, d)) as i64,
        }
    }
}

proof fn lemma_axis_after_follow(a: int, t: int, d: int)
    requires
        0 < d,
        0 <= t <= d,
        a * a < (d + 1) * (d + 1),
    ensures
        abs(a - scale_spec(a, t, d)) * d >= abs(a) * (d - t),
        abs(a - scale_spec(a, t, d)) <= abs(a),
        abs(scale_spec(a, t, d)) <= t,
        sq(a - scale_spec(a, t, d)) * (d * d) >= sq(a) * ((d - t) * (d - t)),
        sq(a - scale_spec(a, t, d)) <= sq(a),
        a >= 0 ==> 0 <= scale_spec(a, t, d) <= a,
        a <= 0 ==> a <= scale_spec(a, t, d) <= 0,
{
    lemma_scale_bounds(a, t, d);
    let m = scale_spec(a, t, d);
    let o = a - m;
    assert(abs(o) == abs(a) - abs(m));
    assert(abs(a) <= d) by (nonlinear_arith)
        requires
            a * a < (d + 1) * (d + 1),
            0 < d,
    ;
    assert(abs(m) * d <= d * t) by (nonlinear_arith)
        requires
            abs(m) * d <= abs(a) * t,
            abs(a) <= d,
            t >= 0,
    ;
    assert(abs(m) <= t) by (nonlinear_arith)
        requires
            abs(m) * d <= d * t,
            d > 0,
    ;
    assert(abs(o) * d >= abs(a) * (d - t)) by (nonlinear_arith)
        requires
            abs(o) == abs(a) - abs(m),
            abs(m) * d <= abs(a) * t,
    ;
    assert(o * o == abs(o) * abs(o)) by (nonlinear_arith)
        requires
            abs(o) == o || abs(o) == -o,
    ;
    assert(a * a == abs(a) * abs(a)) by (nonlinear_arith)
        requires
            abs(a) == a || abs(a) == -a,
    ;
    assert(abs(o) * abs(o) * (d * d) >= abs(a) * abs(a) * ((d - t) * (d - t))) by (nonlinear_arith)
        requires
            abs(o) * d >= abs(a) * (d - t),
            abs(a) * (d - t) >= 0,
            d > 0,
    ;
    assert(abs(o) * abs(o) <= abs(a) * abs(a)) by (nonlinear_arith)
        requires
            0 <= abs(o) <= abs(a),
    ;
}

/// A body segment chasing its parent never comes closer to it than the
/// segment spacing, never ends farther from it than it started, and moves
/// by at most `step` along each axis, staying between where it was and
/// where its parent is.
pub proof fn lemma_chain_spacing(p: Pos, q: Pos, step: int)
    requires
        p.wf(),
        q.wf(),
        step >= 0,
        dist_sq(p, q) > sq(SEGMENT_SPACING as int),
    ensures
        sq(SEGMENT_SPACING as int) <= dist_sq(follow(p, q, step), q) <= dist_sq(p, q),
        abs(follow(p, q, step).x - p.x) <= step,
        abs(follow(p, q, step).y - p.y) <= step,
        follow(p, q, step).wf(),
{
    let d2 = dist_sq(p, q);
    let s = SEGMENT_SPACING as int;
    lemma_isqrt_exists(d2);
    let d = root(d2);
    assert(d >= s) by (nonlinear_arith)
        requires
            d2 < (d + 1) * (d + 1),
            d2 > s * s,
            d >= 0,
            s > 0,
    ;
    let t = min_int(step, d - s);
    let a = q.x - p.x;
    let b = q.y - p.y;
    assert(a * a < (d + 1) * (d + 1) && b * b < (d + 1) * (d + 1)) by (nonlinear_arith)
        requires
            d2 == a * a + b * b,
            d2 < (d + 1) * (d + 1),
    ;
    lemma_axis_after_follow(a, t, d);
    lemma_axis_after_follow(b, t, d);
    let oa = a - scale_spec(a, t, d);
    let ob = b - scale_spec(b, t, d);
    let f = follow(p, q, step);
    assert(q.x - f.x == oa);
    assert(q.y - f.y == ob);
    let x = sq(oa) + sq(ob);
    let e = (d - t) * (d - t);
    let dd = d * d;
    assert(x * dd >= (sq(a) + sq(b)) * e) by (nonlinear_arith)
        requires
            sq(oa) * dd >= sq(a) * e,
            sq(ob) * dd >= sq(b) * e,
            x == sq(oa) + sq(ob),
    ;
    assert(e >= s * s && e >= 0) by (nonlinear_arith)
        requires
            d - t >= s,
            s > 0,
            e == (d - t) * (d - t),
    ;
    assert((sq(a) + sq(b)) * e >= dd * e) by (nonlinear_arith)
        requires
            sq(a) + sq(b) >= dd,
            e >= 0,
    ;
    assert(dd > 0) by (nonlinear_arith)
        requires
            d > 0,
            dd == d * d,
    ;
    assert(x >= e) by (nonlinear_arith)
        requires
            x * dd >= dd * e,
            dd > 0,
    ;
}

/// Chases the parent position `q` from `p`, as `follow` describes.
pub fn follow_parent(p: Pos, q: Pos, step: i64) -> (r: Pos)
    requires
        p.wf(),
        q.wf(),
        step >= 0,
    ensures
        r == follow(p, q, step as int),
        r.wf(),
{
    let d2 = distance_sq(p, q);
    if d2 <= (SEGMENT_SPACING as i128) * (SEGMENT_SPACING as i128) {
        return p;
    }
    proof {
        lemma_chain_spacing(p, q, step as int);
        lemma_isqrt_exists(d2 as int);
    }
    let r = isqrt(d2 as u128);
    let d = r as i64;
    assert(d >= SEGMENT_SPACING) by (nonlinear_arith)
        requires
            d2 < (d + 1) * (d + 1),
            d2 > SEGMENT_SPACING * SEGMENT_SPACING,
            d >= 0,
    ;
    let t = if step <= d - SEGMENT_SPACING {
        step
    } else {
        d - SEGMENT_SPACING
    };
    let mx = scale(q.x - p.x, t, d);
    let my = scale(q.y - p.y, t, d);
    Pos { x: p.x + mx, y: p.y + my }
}

/// Where a segment is after one frame of movement: a body chases the
/// snapshot position of its parent at three times the millipede's speed, a
/// healthy head moves sideways along its heading, a poisoned head straight
/// down. A body whose parent has no recorded position stays put.
pub open spec fn moved(e: SegmentEntity, snap: Map<Entity, Pos>, speed: int, dt: int) -> SegmentEntity {
    match e.segment {
        Segment::Body { parent: Some(pid) } => match position_of(snap, pid) {
            Some(q) => SegmentEntity { pos: follow(e.pos, q, travel_spec(3 * speed, dt)), ..e },
            None => e,
        },
        Segment::Body { parent: None } => e,
        Segment::Head { direction, head_state: HeadState::Healthy } => SegmentEntity {
            pos: Pos {
                x: clamp_spec(e.pos.x + direction.x * travel_spec(speed, dt)) as i64,
                ..e.pos
            },
            ..e
        },
        Segment::Head { head_state: HeadState::Poisoned, .. } => SegmentEntity {
            pos: Pos { y: clamp_spec(e.pos.y - travel_spec(speed, dt)) as i64, ..e.pos },
            ..e
        },
    }
}

fn move_segment(e: SegmentEntity, positions: &SegmentPositions, speed: i64, dt: i64) -> (r:
    SegmentEntity)
    requires
        e.wf(),
        positions.wf(),
        0 <= speed <= MILLIPEDE_MAX_SPEED,
        dt_ok(dt as int),
    ensures
        r == moved(e, positions.map@, speed as int, dt as int),
        r.wf(),
{
    match e.segment {
        Segment::Body { parent: Some(pid) } => match positions.get(pid) {
            Some(q) => {
                let step = travel(3 * speed, dt);
                SegmentEntity { pos: follow_parent(e.pos, q, step), ..e }
            },
            None => e,
        },
        Segment::Body { parent: None } => e,
        Segment::Head { direction, head_state: HeadState::Healthy } => {
            let step = travel(speed, dt);
            let delta = if direction.x == 1 {
                step
            } else {
                -step
            };
            SegmentEntity { pos: Pos { x: shift(e.pos.x, delta), ..e.pos }, ..e }
        },
        Segment::Head { head_state: HeadState::Poisoned, .. } => {
            let step = travel(speed, dt);
            SegmentEntity { pos: Pos { y: shift(e.pos.y, -step), ..e.pos }, ..e }
        },
    }
}

/// Moves every segment for one frame, against this frame's snapshot of
/// positions, so the result does not depend on the order of the segments.
pub fn segment_movement(
    positions: &SegmentPositions,
    segments: &mut Vec<SegmentEntity>,
    speed: i64,
    dt: i64,
)
    requires
        positions.wf(),
        segments_wf(old(segments)@),
        0 <= speed <= MILLIPEDE_MAX_SPEED,
        dt_ok(dt as int),
    ensures
        final(segments)@.len() == old(segments)@.len(),
        forall|i: int|
            0 <= i < old(segments)@.len() ==> #[trigger] final(segments)@[i] == moved(
                old(segments)@[i],
                positions.map@,
                speed as int,
                dt as int,
            ),
        segments_wf(final(segments)@),
{
    let mut i: usize = 0;
    while i < segments.len()
        invariant
            i <= segments@.len(),
            segments@.len() == old(segments)@.len(),
            positions.wf(),
            segments_wf(segments@),
            segments_wf(old(segments)@),
            0 <= speed <= MILLIPEDE_MAX_SPEED,
            dt_ok(dt as int),
            forall|j: int|
                0 <= j < i ==> #[trigger] segments@[j] == moved(
                    old(segments)@[j],
                    positions.map@,
                    speed as int,
                    dt as int,
                ),
            forall|j: int| i <= j < segments@.len() ==> #[trigger] segments@[j] == old(segments)@[j],
        decreases segments@.len() - i,
    {
        let e = segments[i];
        assert(segments@[i as int].wf());
        let ne = move_segment(e, positions, speed, dt);
        segments.set(i, ne);
        i = i + 1;
    }
}

/// Radius of a segment for edge checks.
pub const SEGMENT_RADIUS: i64 = 8_000;

/// Height under which a head turns to climb back up.
pub const BOTTOM_TURN: i64 = 13_000;

/// Sum of the radii of a head and a mushroom for bounces and poisoning:
/// a third of each one's size.
pub const SHROOM_CONTACT: i64 = 9_000;

/// Height under which a poisoned head recovers.
pub const POISON_RECOVERY_HEIGHT: i64 = 10_000;

/// A head's turn at the edges of the field: it climbs back up near the
/// bottom, goes down again above the player's area, and at the left or
/// right edge reverses and drops a row in its vertical direction.
pub open spec fn turned(e: SegmentEntity, field: Field) -> SegmentEntity {
    match e.segment {
        Segment::Head { direction, head_state } => {
            let dy1: i64 = if e.pos.y < BOTTOM_TURN {
                1
            } else {
                direction.y
            };
            let dy: i64 = if e.pos.y > TOP_BOUND && dy1 == 1 {
                -1i64
            } else {
                dy1
            };
            let dx3: i64 = if e.pos.x < SEGMENT_RADIUS {
                1
            } else {
                direction.x
            };
            let y3: int = if e.pos.x < SEGMENT_RADIUS {
                clamp_spec(e.pos.y + DROP_AMOUNT * dy)
            } else {
                e.pos.y as int
            };
            let dx: i64 = if e.pos.x > field.width - SEGMENT_RADIUS {
                -1i64
            } else {
                dx3
            };
            let y: int = if e.pos.x > field.width - SEGMENT_RADIUS {
                clamp_spec(y3 + DROP_AMOUNT * dy)
            } else {
                y3
            };
            SegmentEntity {
                pos: Pos { x: e.pos.x, y: y as i64 },
                segment: Segment::Head { direction: Heading { x: dx, y: dy }, head_state },
                ..e
            }
        },
        Segment::Body { .. } => e,
    }
}

fn turn_segment(e: SegmentEntity, field: Field) -> (r: SegmentEntity)
    requires
        e.wf(),
        field.wf(),
    ensures
        r == turned(e, field),
        r.wf(),
{
    match e.segment {
        Segment::Head { direction, head_state } => {
            let mut dir = direction;
            let mut pos = e.pos;
            if pos.y < BOTTOM_TURN {
                dir.y = 1;
            }
            if pos.y > TOP_BOUND && dir.y == 1 {
                dir.y = -1;
            }
            if pos.x < SEGMENT_RADIUS {
                dir.x = 1;
                pos.y = shift(pos.y, DROP_AMOUNT * dir.y);
            }
            if pos.x > field.width - SEGMENT_RADIUS {
                dir.x = -1;
                pos.y = shift(pos.y, DROP_AMOUNT * dir.y);
            }
            SegmentEntity { pos, segment: Segment::Head { direction: dir, head_state }, ..e }
        },
        Segment::Body { .. } => e,
    }
}

/// Turns every head at the edges of the field; bodies are left alone.
pub fn change_direction(segments: &mut Vec<SegmentEntity>, field: Field)
    requires
        segments_wf(old(segments)@),
        field.wf(),
    ensures
        final(segments)@.len() == old(segments)@.len(),
        forall|i: int|
            0 <= i < old(segments)@.len() ==> #[trigger] final(segments)@[i] == turned(
                old(segments)@[i],
                field,
            ),
        segments_wf(final(segments)@),
{
    let mut i: usize = 0;
    while i < segments.len()
        invariant
            i <= segments@.len(),
            segments@.len() == old(segments)@.len(),
            field.wf(),
            segments_wf(segments@),
            forall|j: int| 0 <= j < i ==> #[trigger] segments@[j] == turned(old(segments)@[j], field),
            forall|j: int| i <= j < segments@.len() ==> #[trigger] segments@[j] == old(segments)@[j],
        decreases segments@.len() - i,
    {
        let e = segments[i];
        assert(segments@[i as int].wf());
        let ne = turn_segment(e, field);
        segments.set(i, ne);
        i = i + 1;
    }
}

pub open spec fn clamp_to(v: int, lo: int, hi: int) -> int {
    if v < lo {
        lo
    } else if v > hi {
        hi
    } else {
        v
    }
}

/// A segment kept inside the field.
pub open spec fn confined_segment(e: SegmentEntity, field: Field) -> SegmentEntity {
    SegmentEntity {
        pos: Pos {
            x: clamp_to(e.pos.x as int, 0, field.width as int) as i64,
            y: clamp_to(e.pos.y as int, 0, field.height as int) as i64,
        },
        ..e
    }
}

/// Keeps every segment inside the field.
pub fn confine_segment_movement(segments: &mut Vec<SegmentEntity>, field: Field)
    requires
        segments_wf(old(segments)@),
        field.wf(),
    ensures
        final(segments)@.len() == old(segments)@.len(),
        forall|i: int|
            0 <= i < old(segments)@.len() ==> #[trigger] final(segments)@[i] == confined_segment(
                old(segments)@[i],
                field,
            ),
        segments_wf(final(segments)@),
{
    let mut i: usize = 0;
    while i < segments.len()
        invariant
            i <= segments@.len(),
            segments@.len() == old(segments)@.len(),
            field.wf(),
            segments_wf(segments@),
            forall|j: int| 0 <= j < i ==> #[trigger] segments@[j] == confined_segment(old(segments)@[j], field),
            forall|j: int| i <= j < segments@.len() ==> #[trigger] segments@[j] == old(segments)@[j],
        decreases segments@.len() - i,
    {
        let mut e = segments[i];
        if e.pos.y < 0 {
            e.pos.y = 0;
        }
        if e.pos.y > field.height {
            e.pos.y = field.height;
        }
        if e.pos.x < 0 {
            e.pos.x = 0;
        }
        if e.pos.x > field.width {
            e.pos.x = field.width;
        }
        assert(segments@[i as int].wf());
        segments.set(i, e);
        i = i + 1;
    }
}

pub open spec fn despawn_wf(ev: DespawnSegment) -> bool {
    ev.direction matches Some(d) ==> d.wf()
}

/// A body whose parent is the dead segment becomes a healthy head, with the
/// dead segment's heading if it was a head and the initial heading if not.
pub open spec fn promoted(e: SegmentEntity, ev: DespawnSegment) -> SegmentEntity {
    match e.segment {
        Segment::Body { parent } => if parent == Some(ev.entity) {
            SegmentEntity {
                segment: Segment::Head {
                    direction: match ev.direction {
                        Some(d) => d,
                        None => Heading::initial_spec(),
                    },
                    head_state: HeadState::Healthy,
                },
                ..e
            }
        } else {
            e
        },
        Segment::Head { .. } => e,
    }
}

/// The notices of a frame applied one after the other.
pub open spec fn promoted_all(e: SegmentEntity, evs: Seq<DespawnSegment>) -> SegmentEntity
    decreases evs.len(),
{
    if evs.len() == 0 {
        e
    } else {
        promoted(promoted_all(e, evs.drop_last()), evs.last())
    }
}

/// Promotes the orphans of every segment that died this frame, and empties
/// the queue of notices.
pub fn update_segment_parents(events: &mut Vec<DespawnSegment>, segments: &mut Vec<SegmentEntity>)
    requires
        segments_wf(old(segments)@),
        forall|k: int| 0 <= k < old(events)@.len() ==> despawn_wf(#[trigger] old(events)@[k]),
    ensures
        final(events)@.len() == 0,
        final(segments)@.len() == old(segments)@.len(),
        forall|i: int|
            0 <= i < old(segments)@.len() ==> #[trigger] final(segments)@[i] == promoted_all(
                old(segments)@[i],
                old(events)@,
            ),
        segments_wf(final(segments)@),
{
    let mut k: usize = 0;
    while k < events.len()
        invariant
            k <= events@.len(),
            events@ == old(events)@,
            segments@.len() == old(segments)@.len(),
            segments_wf(segments@),
            forall|m: int| 0 <= m < events@.len() ==> despawn_wf(#[trigger] events@[m]),
            forall|j: int|
                0 <= j < segments@.len() ==> #[trigger] segments@[j] == promoted_all(
                    old(segments)@[j],
                    events@.subrange(0, k as int),
                ),
        decreases events@.len() - k,
    {
        let ev = events[k];
        assert(despawn_wf(events@[k as int]));
        let ghost before = segments@;
        let mut i: usize = 0;
        while i < segments.len()
            invariant
                i <= segments@.len(),
                segments@.len() == before.len(),
                despawn_wf(ev),
                segments_wf(before),
                segments_wf(segments@),
                forall|j: int| 0 <= j < i ==> #[trigger] segments@[j] == promoted(before[j], ev),
                forall|j: int| i <= j < segments@.len() ==> #[trigger] segments@[j] == before[j],
            decreases segments@.len() - i,
        {
            let e = segments[i];
            assert(before[i as int].wf());
            if let Segment::Body { parent } = e.segment {
                if parent == Some(ev.entity) {
                    let direction = match ev.direction {
                        Some(d) => d,
                        None => Heading::initial(),
                    };
                    segments.set(
                        i,
                        SegmentEntity {
                            segment: Segment::Head { direction, head_state: HeadState::Healthy },
                            ..e
                        },
                    );
                }
            }
            i = i + 1;
        }
        proof {
            assert(events@.subrange(0, k + 1).drop_last() =~= events@.subrange(0, k as int));
            assert forall|j: int| 0 <= j < segments@.len() implies #[trigger] segments@[j]
                == promoted_all(old(segments)@[j], events@.subrange(0, k + 1)) by {
                assert(segments@[j] == promoted(before[j], ev));
            }
        }
        k = k + 1;
    }
    assert(events@.subrange(0, events@.len() as int) =~= events@);
    events.clear();
}

/// A healthy head that overlaps mushroom `m` reverses, is pushed back
/// and drops a row in its vertical direction.
pub open spec fn bounced(e: SegmentEntity, m: MushroomEntity) -> SegmentEntity {
    match e.segment {
        Segment::Head { direction, head_state: HeadState::Healthy } => if overlaps(
            m.pos,
            e.pos,
            SHROOM_CONTACT as int,
        ) {
            let dx = -direction.x;
            SegmentEntity {
                pos: Pos {
                    x: clamp_spec(e.pos.x + dx * PUSH_BACK_AMOUNT) as i64,
                    y: clamp_spec(e.pos.y + DROP_AMOUNT * direction.y) as i64,
                },
                segment: Segment::Head {
                    direction: Heading { x: dx as i64, y: direction.y },
                    head_state: HeadState::Healthy,
                },
                ..e
            }
        } else {
            e
        },
        _ => e,
    }
}

/// A segment checked against each mushroom in turn.
pub open spec fn bounced_all(e: SegmentEntity, ms: Seq<MushroomEntity>) -> SegmentEntity
    decreases ms.len(),
{
    if ms.len() == 0 {
        e
    } else {
        bounced(bounced_all(e, ms.drop_last()), ms.last())
    }
}

fn bounce_segment(e: SegmentEntity, mushrooms: &Vec<MushroomEntity>) -> (r: SegmentEntity)
    requires
        e.wf(),
        mushrooms_wf(mushrooms@),
    ensures
        r == bounced_all(e, mushrooms@),
        r.wf(),
{
    let mut cur = e;
    let mut k: usize = 0;
    while k < mushrooms.len()
        invariant
            k <= mushrooms@.len(),
            mushrooms_wf(mushrooms@),
            cur.wf(),
            cur == bounced_all(e, mushrooms@.subrange(0, k as int)),
        decreases mushrooms@.len() - k,
    {
        let m = mushrooms[k];
        assert(mushrooms@[k as int].wf());
        assert(mushrooms@.subrange(0, k + 1).drop_last() =~= mushrooms@.subrange(0, k as int));
        if let Segment::Head { direction, head_state: HeadState::Healthy } = cur.segment {
            if overlap(m.pos, cur.pos, SHROOM_CONTACT) {
                let dx = -direction.x;
                cur = SegmentEntity {
                    pos: Pos {
                        x: shift(cur.pos.x, dx * PUSH_BACK_AMOUNT),
                        y: shift(cur.pos.y, DROP_AMOUNT * direction.y),
                    },
                    segment: Segment::Head {
                        direction: Heading { x: dx, y: direction.y },
                        head_state: HeadState::Healthy,
                    },
                    ..cur
                };
            }
        }
        k = k + 1;
    }
    assert(mushrooms@.subrange(0, mushrooms@.len() as int) =~= mushrooms@);
    cur
}

/// Bounces every healthy head off the mushrooms it runs into.
pub fn collide_with_shroom(segments: &mut Vec<SegmentEntity>, mushrooms: &Vec<MushroomEntity>)
    requires
        segments_wf(old(segments)@),
        mushrooms_wf(mushrooms@),
    ensures
        final(segments)@.len() == old(segments)@.len(),
        forall|i: int|
            0 <= i < old(segments)@.len() ==> #[trigger] final(segments)@[i] == bounced_all(
                old(segments)@[i],
                mushrooms@,
            ),
        segments_wf(final(segments)@),
{
    let mut i: usize = 0;
    while i < segments.len()
        invariant
            i <= segments@.len(),
            segments@.len() == old(segments)@.len(),
            mushrooms_wf(mushrooms@),
            segments_wf(segments@),
            forall|j: int|
                0 <= j < i ==> #[trigger] segments@[j] == bounced_all(old(segments)@[j], mushrooms@),
            forall|j: int| i <= j < segments@.len() ==> #[trigger] segments@[j] == old(segments)@[j],
        decreases segments@.len() - i,
    {
        let e = segments[i];
        assert(segments@[i as int].wf());
        let ne = bounce_segment(e, mushrooms);
        segments.set(i, ne);
        i = i + 1;
    }
}

/// Whether some poison mushroom touches a head at `p`.
pub open spec fn near_poison(p: Pos, ms: Seq<MushroomEntity>) -> bool {
    exists|k: int|
        0 <= k < ms.len() && ms[k].kind == Mushroom::Poison && #[trigger] touches(
            ms[k].pos,
            p,
            SHROOM_CONTACT as int,
        )
}

/// A healthy head touching a poison mushroom is poisoned; a poisoned head
/// recovers once it is near the bottom of the field.
pub open spec fn poisoned(e: SegmentEntity, ms: Seq<MushroomEntity>) -> SegmentEntity {
    match e.segment {
        Segment::Head { direction, head_state: HeadState::Healthy } => if near_poison(e.pos, ms) {
            SegmentEntity {
                segment: Segment::Head { direction, head_state: HeadState::Poisoned },
                ..e
            }
        } else {
            e
        },
        Segment::Head { direction, head_state: HeadState::Poisoned } => if e.pos.y
            < POISON_RECOVERY_HEIGHT {
            SegmentEntity {
                segment: Segment::Head { direction, head_state: HeadState::Healthy },
                ..e
            }
        } else {
            e
        },
        Segment::Body { .. } => e,
    }
}

fn touches_poison(p: Pos, mushrooms: &Vec<MushroomEntity>) -> (r: bool)
    requires
        p.wf(),
        mushrooms_wf(mushrooms@),
    ensures
        r == near_poison(p, mushrooms@),
{
    let mut k: usize = 0;
    while k < mushrooms.len()
        invariant
            k <= mushrooms@.len(),
            p.wf(),
            mushrooms_wf(mushrooms@),
            forall|j: int|
                0 <= j < k ==> !(mushrooms@[j].kind == Mushroom::Poison && #[trigger] touches(
                    mushrooms@[j].pos,
                    p,
                    SHROOM_CONTACT as int,
                )),
        decreases mushrooms@.len() - k,
    {
        let m = mushrooms[k];
        assert(mushrooms@[k as int].wf());
        if m.kind == Mushroom::Poison && touch(m.pos, p, SHROOM_CONTACT) {
            return true;
        }
        k = k + 1;
    }
    false
}

/// Poisons and cures heads as `poisoned` describes.
pub fn head_gets_poisoned(segments: &mut Vec<SegmentEntity>, mushrooms: &Vec<MushroomEntity>)
    requires
        segments_wf(old(segments)@),
        mushrooms_wf(mushrooms@),
    ensures
        final(segments)@.len() == old(segments)@.len(),
        forall|i: int|
            0 <= i < old(segments)@.len() ==> #[trigger] final(segments)@[i] == poisoned(
                old(segments)@[i],
                mushrooms@,
            ),
        segments_wf(final(segments)@),
{
    let mut i: usize = 0;
    while i < segments.len()
        invariant
            i <= segments@.len(),
            segments@.len() == old(segments)@.len(),
            mushrooms_wf(mushrooms@),
            segments_wf(segments@),
            forall|j: int| 0 <= j < i ==> #[trigger] segments@[j] == poisoned(old(segments)@[j], mushrooms@),
            forall|j: int| i <= j < segments@.len() ==> #[trigger] segments@[j] == old(segments)@[j],
        decreases segments@.len() - i,
    {
        let e = segments[i];
        assert(segments@[i as int].wf());
        match e.segment {
            Segment::Head { direction, head_state: HeadState::Healthy } => {
                if touches_poison(e.pos, mushrooms) {
                    segments.set(
                        i,
                        SegmentEntity {
                            segment: Segment::Head { direction, head_state: HeadState::Poisoned },
                            ..e
                        },
                    );
                }
            },
            Segment::Head { direction, head_state: HeadState::Poisoned } => {
                if e.pos.y < POISON_RECOVERY_HEIGHT {
                    segments.set(
                        i,
                        SegmentEntity {
                            segment: Segment::Head { direction, head_state: HeadState::Healthy },
                            ..e
                        },
                    );
                }
            },
            Segment::Body { .. } => {},
        }
        i = i + 1;
    }
}

/// The colour a segment is drawn in: heads show whether they are poisoned,
/// bodies keep theirs.
pub open spec fn recolored(e: SegmentEntity) -> SegmentEntity {
    match e.segment {
        Segment::Head { head_state: HeadState::Healthy, .. } => SegmentEntity {
            color: SegmentColor::Head,
            ..e
        },
        Segment::Head { head_state: HeadState::Poisoned, .. } => SegmentEntity {
            color: SegmentColor::PoisonedHead,
            ..e
        },
        Segment::Body { .. } => e,
    }
}

/// Gives every head the colour of its state.
pub fn update_head_color(segments: &mut Vec<SegmentEntity>)
    requires
        segments_wf(old(segments)@),
    ensures
        final(segments)@.len() == old(segments)@.len(),
        forall|i: int|
            0 <= i < old(segments)@.len() ==> #[trigger] final(segments)@[i] == recolored(
                old(segments)@[i],
            ),
        segments_wf(final(segments)@),
{
    let mut i: usize = 0;
    while i < segments.len()
        invariant
            i <= segments@.len(),
            segments@.len() == old(segments)@.len(),
            segments_wf(segments@),
            forall|j: int| 0 <= j < i ==> #[trigger] segments@[j] == recolored(old(segments)@[j]),
            forall|j: int| i <= j < segments@.len() ==> #[trigger] segments@[j] == old(segments)@[j],
        decreases segments@.len() - i,
    {
        let e = segments[i];
        assert(segments@[i as int].wf());
        match e.segment {
            Segment::Head { head_state: HeadState::Healthy, .. } => {
                segments.set(i, SegmentEntity { color: SegmentColor::Head, ..e });
            },
            Segment::Head { head_state: HeadState::Poisoned, .. } => {
                segments.set(i, SegmentEntity { color: SegmentColor::PoisonedHead, ..e });
            },
            Segment::Body { .. } => {},
        }
        i = i + 1;
    }
}

/// Times the spawning of lone heads during a level.
#[derive(Clone, Copy, Debug, PartialEq, Eq, Structural)]
pub struct SegmentSpawnerTimer(pub Timer);

impl Default for SegmentSpawnerTimer {
    /// A paused timer, started once the millipede comes down low enough.
    fn default() -> (r: SegmentSpawnerTimer)
        ensures
            r.0 == (Timer {
                duration: SEGMENT_SPAWN_TIMER_DURATION,
                elapsed: 0,
                paused: true,
                just_finished: false,
            }),
    {
        let mut timer = Timer::new(SEGMENT_SPAWN_TIMER_DURATION);
        timer.pause();
        SegmentSpawnerTimer(timer)
    }
}

/// Height under which a segment starts the lone-head spawner.
pub const SPAWNER_START_HEIGHT: i64 = 20_000;

/// Whether some segment is lower than the spawner's start height.
pub open spec fn some_segment_low(s: Seq<SegmentEntity>) -> bool {
    exists|i: int| 0 <= i < s.len() && #[trigger] s[i].pos.y < SPAWNER_START_HEIGHT
}

/// Starts the paused lone-head spawner once a segment comes low enough.
pub fn start_segment_spawner_timer(timer: &mut SegmentSpawnerTimer, segments: &Vec<SegmentEntity>)
    ensures
        final(timer).0 == (if old(timer).0.paused && some_segment_low(segments@) {
            Timer { paused: false, ..old(timer).0 }
        } else {
            old(timer).0
        }),
{
    if !timer.0.paused {
        return;
    }
    let mut i: usize = 0;
    while i < segments.len()
        invariant
            i <= segments@.len(),
            *timer == *old(timer),
            old(timer).0.paused,
            forall|j: int| 0 <= j < i ==> !(#[trigger] segments@[j].pos.y < SPAWNER_START_HEIGHT),
        decreases segments@.len() - i,
    {
        if segments[i].pos.y < SPAWNER_START_HEIGHT {
            assert(segments@[i as int].pos.y < SPAWNER_START_HEIGHT);
            timer.0.unpause();
            return;
        }
        i = i + 1;
    }
}

/// Where a lone head appears: the left edge, at the top of the player's area.
pub open spec fn lone_head_origin() -> Pos {
    Pos { x: 0, y: TOP_BOUND }
}

/// While the level is not changing, advances the spawner and, on the tick it
/// finishes, spawns a lone head at the left edge and restarts the spawner.
pub fn spawn_lone_head(
    timer: &mut SegmentSpawnerTimer,
    level_state: LevelState,
    dt: u64,
    segments: &mut Vec<SegmentEntity>,
    ids: &mut EntityIds,
)
    requires
        old(timer).0.wf(),
        dt <= 1_000_000,
        old(ids).has_room(2),
        segments_wf(old(segments)@),
    ensures
        final(timer).0.wf(),
        segments_wf(final(segments)@),
        level_state == LevelState::Changing ==> *final(timer) == *old(timer) && final(segments)@
            == old(segments)@ && *final(ids) == *old(ids),
        level_state == LevelState::Unchanging ==> {
            let t = old(timer).0.ticked(dt);
            if t.just_finished {
                &&& final(timer).0 == (Timer { elapsed: 0, just_finished: false, ..t })
                &&& final(segments)@ == old(segments)@.push(chain_segment(lone_head_origin(), old(ids).next as int, 0))
                &&& final(ids).next == old(ids).next + 1
            } else {
                &&& final(timer).0 == t
                &&& final(segments)@ == old(segments)@
                &&& *final(ids) == *old(ids)
            }
        },
{
    if level_state == LevelState::Changing {
        return;
    }
    timer.0.tick(dt);
    if timer.0.just_finished {
        let ghost start = segments@.len() as int;
        Millipede::spawn(1, Pos { x: 0, y: TOP_BOUND }, segments, ids);
        assert(segments@[start + 0] == chain_segment(lone_head_origin(), old(ids).next as int, 0));
        assert(segments@ =~= old(segments)@.push(segments@[start]));
        timer.0.reset();
    }
}

/// Sum of the radii of the player and a segment.
pub const PLAYER_SEGMENT_CONTACT: i64 = 16_000;

/// Whether some segment overlaps the player.
pub open spec fn segment_touches_player(p: Pos, s: Seq<SegmentEntity>) -> bool {
    exists|i: int| 0 <= i < s.len() && #[trigger] overlaps(p, s[i].pos, PLAYER_SEGMENT_CONTACT as int)
}

/// Whether the player, if there is one, is hit by a segment this frame.
pub fn segment_hits_player(player: &Option<Player>, segments: &Vec<SegmentEntity>) -> (r: bool)
    requires
        *player matches Some(p) ==> p.pos.wf(),
        segments_wf(segments@),
    ensures
        r == (match *player {
            Some(p) => segment_touches_player(p.pos, segments@),
            None => false,
        }),
{
    let p = match *player {
        None => {
            return false;
        },
        Some(p) => p,
    };
    let mut i: usize = 0;
    while i < segments.len()
        invariant
            i <= segments@.len(),
            *player == Some(p),
            p.pos.wf(),
            segments_wf(segments@),
            forall|j: int|
                0 <= j < i ==> !#[trigger] overlaps(p.pos, segments@[j].pos, PLAYER_SEGMENT_CONTACT as int),
        decreases segments@.len() - i,
    {
        assert(segments@[i as int].wf());
        if overlap(p.pos, segments[i].pos, PLAYER_SEGMENT_CONTACT) {
            assert(overlaps(p.pos, segments@[i as int].pos, PLAYER_SEGMENT_CONTACT as int));
            return true;
        }
        i = i + 1;
    }
    false
}

/// Vertical reach within which two heads are on the same row.
pub const HEAD_ROW_REACH: i64 = 12_308;

/// Horizontal reach within which two heads on a row collide.
pub const HEAD_SIDE_REACH: i64 = 8_000;

pub open spec fn heads_close(a: Pos, b: Pos) -> bool {
    abs(a.y - b.y) <= HEAD_ROW_REACH && abs(a.x - b.x) <= HEAD_SIDE_REACH
}

/// A head that ran into another reverses, is pushed back by the push-back
/// amount plus `pushback`, and drops a row when `drop` is set.
pub open spec fn head_bounced(e: SegmentEntity, pushback: int, drop: bool) -> SegmentEntity {
    match e.segment {
        Segment::Head { direction, head_state } => {
            let dx = -direction.x;
            let x = clamp_spec(e.pos.x + dx * PUSH_BACK_AMOUNT + pushback);
            let y = if drop {
                clamp_spec(e.pos.y + DROP_AMOUNT * direction.y)
            } else {
                e.pos.y as int
            };
            SegmentEntity {
                pos: Pos { x: x as i64, y: y as i64 },
                segment: Segment::Head { direction: Heading { x: dx as i64, y: direction.y }, head_state },
                ..e
            }
        },
        Segment::Body { .. } => e,
    }
}

/// Bounces one head off another, with the random part given.
pub fn bounce_head(e: SegmentEntity, pushback: i64, drop: bool) -> (r: SegmentEntity)
    requires
        e.wf(),
        0 <= pushback <= PUSH_BACK_AMOUNT,
    ensures
        r == head_bounced(e, pushback as int, drop),
        r.wf(),
        r.id == e.id,
        r.is_head() == e.is_head(),
{
    match e.segment {
        Segment::Head { direction, head_state } => {
            let dx = -direction.x;
            let x = shift(e.pos.x, dx * PUSH_BACK_AMOUNT + pushback);
            let y = if drop {
                shift(e.pos.y, DROP_AMOUNT * direction.y)
            } else {
                e.pos.y
            };
            SegmentEntity {
                pos: Pos { x, y },
                segment: Segment::Head { direction: Heading { x: dx, y: direction.y }, head_state },
                ..e
            }
        },
        Segment::Body { .. } => e,
    }
}

fn close_heads(a: Pos, b: Pos) -> (r: bool)
    requires
        a.wf(),
        b.wf(),
    ensures
        r == heads_close(a, b),
{
    let dy = if a.y >= b.y {
        a.y - b.y
    } else {
        b.y - a.y
    };
    let dx = if a.x >= b.x {
        a.x - b.x
    } else {
        b.x - a.x
    };
    dy <= HEAD_ROW_REACH && dx <= HEAD_SIDE_REACH
}

/// How many of the first `j` segments are heads, other than `i`, that
/// head `i` runs into.
pub open spec fn partners_below(s: Seq<SegmentEntity>, i: int, j: int) -> nat
    decreases j,
{
    if j <= 0 {
        0
    } else {
        partners_below(s, i, j - 1) + if j - 1 != i && s[j - 1].is_head() && heads_close(
            s[i].pos,
            s[j - 1].pos,
        ) {
            1nat
        } else {
            0nat
        }
    }
}

/// How many other heads head `i` runs into; none for a body.
pub open spec fn partners(s: Seq<SegmentEntity>, i: int) -> nat {
    if s[i].is_head() {
        partners_below(s, i, s.len() as int)
    } else {
        0
    }
}

/// A segment bounced once for each roll, in order: each roll is the extra
/// push-back and whether to drop a row.
pub open spec fn bounced_times(e: SegmentEntity, rolls: Seq<(int, bool)>) -> SegmentEntity
    decreases rolls.len(),
{
    if rolls.len() == 0 {
        e
    } else {
        let r = rolls.last();
        head_bounced(bounced_times(e, rolls.drop_last()), r.0, r.1)
    }
}

/// Extra push-backs lie between nothing and nine pixels.
pub open spec fn pushes_ok(rolls: Seq<(int, bool)>) -> bool {
    forall|k: int| 0 <= k < rolls.len() ==> 0 <= (#[trigger] rolls[k]).0 <= 9_000
}

/// Whether `e` is segment `i` of `s` after one bounce for each head it ran
/// into, for some allowed rolls.
pub open spec fn bounced_from(s: Seq<SegmentEntity>, i: int, e: SegmentEntity) -> bool {
    exists|rolls: Seq<(int, bool)>|
        rolls.len() == partners(s, i) && pushes_ok(rolls) && e == #[trigger] bounced_times(s[i], rolls)
}

fn count_partners(segments: &Vec<SegmentEntity>, i: usize) -> (c: usize)
    requires
        i < segments@.len(),
        segments_wf(segments@),
    ensures
        c == partners_below(segments@, i as int, segments@.len() as int),
{
    let mut c: usize = 0;
    let mut j: usize = 0;
    while j < segments.len()
        invariant
            i < segments@.len(),
            j <= segments@.len(),
            segments_wf(segments@),
            c == partners_below(segments@, i as int, j as int),
            c <= j,
        decreases segments@.len() - j,
    {
        assert(segments@[i as int].wf() && segments@[j as int].wf());
        if j != i && segments[j].is_head_exec() && close_heads(segments[i].pos, segments[j].pos) {
            c = c + 1;
        }
        j = j + 1;
    }
    c
}

/// Heads that meet on a row turn back: every head is bounced once for each
/// other head it runs into (judged on where the heads were before any of
/// them moved), each time reversing, being pushed back by the push-back
/// amount plus a random extra of up to nine pixels and, with a small
/// chance, dropping a row, so that two heads cannot stay locked together.
/// Bodies, and heads that meet no other, are left as they were.
pub fn collide_with_head(segments: &mut Vec<SegmentEntity>)
    requires
        segments_wf(old(segments)@),
    ensures
        final(segments)@.len() == old(segments)@.len(),
        segments_wf(final(segments)@),
        forall|i: int|
            0 <= i < old(segments)@.len() ==> bounced_from(old(segments)@, i, #[trigger] final(segments)@[i]),
{
    let ghost orig = segments@;
    let n = segments.len();
    let mut counts: Vec<usize> = Vec::new();
    let mut i: usize = 0;
    while i < n
        invariant
            n == segments@.len(),
            segments@ == orig,
            segments_wf(orig),
            i <= n,
            counts@.len() == i,
            forall|k: int| 0 <= k < i ==> #[trigger] counts@[k] == partners(orig, k),
        decreases n - i,
    {
        let c = if segments[i].is_head_exec() {
            count_partners(segments, i)
        } else {
            0
        };
        counts.push(c);
        i = i + 1;
    }
    let mut k: usize = 0;
    while k < n
        invariant
            n == segments@.len(),
            orig.len() == n,
            orig == old(segments)@,
            k <= n,
            counts@.len() == n,
            segments_wf(orig),
            segments_wf(segments@),
            forall|m: int| 0 <= m < n ==> #[trigger] counts@[m] == partners(orig, m),
            forall|m: int| k <= m < n ==> #[trigger] segments@[m] == orig[m],
            forall|m: int| 0 <= m < k ==> bounced_from(orig, m, #[trigger] segments@[m]),
        decreases n - k,
    {
        let mut e = segments[k];
        let ghost mut rolls: Seq<(int, bool)> = Seq::empty();
        assert(rolls.len() == 0 && bounced_times(orig[k as int], rolls) == orig[k as int]);
        let count = counts[k];
        let mut t: usize = 0;
        while t < count
            invariant
                t <= count,
                count == partners(orig, k as int),
                k < n,
                orig.len() == n,
                segments_wf(orig),
                e.wf(),
                rolls.len() == t,
                pushes_ok(rolls),
                e == bounced_times(orig[k as int], rolls),
            decreases count - t,
        {
            let pushback = roll_range(0, 10) * 1000;
            let drop = roll_ratio(SEGMENT_DROP_RATE, PPM);
            let ghost before = rolls;
            e = bounce_head(e, pushback, drop);
            proof {
                rolls = rolls.push((pushback as int, drop));
                assert(rolls.drop_last() =~= before);
            }
            t = t + 1;
        }
        let ghost prev = segments@;
        segments.set(k, e);
        proof {
            assert forall|m: int| 0 <= m < k + 1 implies bounced_from(orig, m, #[trigger] segments@[m]) by {
                if m < k {
                    assert(prev[m] == segments@[m]);
                    assert(bounced_from(orig, m, prev[m]));
                } else {
                    assert(segments@[m] == bounced_times(orig[m], rolls));
                }
            }
            assert forall|m: int| 0 <= m < n implies #[trigger] segments@[m].wf() by {
                if m != k {
                    assert(segments@[m] == prev[m]);
                }
            }
        }
        k = k + 1;
    }
}

/// The millipede of `n` segments that `Millipede::spawn` builds at
/// `origin` from identifier `base` on.
pub open spec fn spawned_chain(origin: Pos, base: int, n: int) -> Seq<SegmentEntity> {
    Seq::new(n as nat, |i: int| chain_segment(origin, base, i))
}

/// The notice sent when segment `e` is shot: it carries the heading of a
/// head.
pub open spec fn death_notice(e: SegmentEntity) -> DespawnSegment {
    DespawnSegment {
        entity: e.id,
        direction: match e.segment {
            Segment::Head { direction, .. } => Some(direction),
            Segment::Body { .. } => None,
        },
    }
}

/// Shooting segment `k` of a millipede of `n` segments, other than its
/// tail, and promoting its orphans leaves two millipedes: the first `k`
/// segments as they were, and the `n - k - 1` segments behind it, led by
/// the one right behind the dead segment, now a healthy head with a
/// well-defined heading. Every body still follows the segment before it,
/// and no body is left following the dead segment.
pub proof fn lemma_orphan_promotion(origin: Pos, base: int, n: int, k: int)
    requires
        0 <= k < n - 1,
        0 <= base,
        base + n < u64::MAX,
    ensures
        ({
            let chain = spawned_chain(origin, base, n);
            let ev = death_notice(chain[k]);
            let after = chain.remove(k).map_values(|e: SegmentEntity| promoted(e, ev));
            &&& after.len() == n - 1
            &&& after[k].segment == (Segment::Head {
                direction: Heading::initial_spec(),
                head_state: HeadState::Healthy,
            })
            &&& after[k].id == base + k + 1
            &&& forall|j: int| 0 <= j < k ==> #[trigger] after[j] == chain[j]
            &&& forall|j: int| k < j < n - 1 ==> #[trigger] after[j] == chain[j + 1]
            &&& after[0].is_head()
            &&& forall|j: int|
                0 < j < n - 1 && j != k ==> #[trigger] after[j].segment == (Segment::Body {
                    parent: Some(after[j - 1].id),
                })
            &&& forall|j: int|
                0 <= j < n - 1 ==> #[trigger] after[j].segment != (Segment::Body {
                    parent: Some(chain[k].id),
                })
        }),
{
    let chain = spawned_chain(origin, base, n);
    let ev = death_notice(chain[k]);
    let rest = chain.remove(k);
    let after = rest.map_values(|e: SegmentEntity| promoted(e, ev));
    assert forall|j: int| 0 <= j < n - 1 implies #[trigger] rest[j] == (if j < k {
        chain[j]
    } else {
        chain[j + 1]
    }) by {}
    assert(after[k] == promoted(chain[k + 1], ev));
    assert forall|j: int| 0 <= j < k implies #[trigger] after[j] == chain[j] by {
        assert(after[j] == promoted(chain[j], ev));
    }
    assert forall|j: int| k < j < n - 1 implies #[trigger] after[j] == chain[j + 1] by {
        assert(after[j] == promoted(chain[j + 1], ev));
    }
    assert forall|j: int|
        0 < j < n - 1 && j != k implies #[trigger] after[j].segment == (Segment::Body {
        parent: Some(after[j - 1].id),
    }) by {
        if j < k {
            assert(after[j - 1] == chain[j - 1]);
        } else if j == k + 1 {
            assert(after[j] == chain[j + 1]);
        } else {
            assert(after[j - 1] == chain[j]);
        }
    }
    assert forall|j: int| 0 <= j < n - 1 implies #[trigger] after[j].segment != (Segment::Body {
        parent: Some(chain[k].id),
    }) by {
        if j < k {
            assert(after[j] == chain[j]);
        } else if j > k {
            assert(after[j] == chain[j + 1]);
        }
    }
    if k > 0 {
        assert(after[0] == chain[0]);
    }
}

/// The segments after the orphans of this frame's dead are promoted.
pub open spec fn promoted_seq(s: Seq<SegmentEntity>, evs: Seq<DespawnSegment>) -> Seq<SegmentEntity> {
    s.map_values(|e: SegmentEntity| promoted_all(e, evs))
}

/// The segments after one frame of movement against their own snapshot.
pub open spec fn moved_seq(s: Seq<SegmentEntity>, speed: int, dt: int) -> Seq<SegmentEntity> {
    s.map_values(|e: SegmentEntity| moved(e, snapshot_of(s), speed, dt))
}

pub open spec fn confined_seq(s: Seq<SegmentEntity>, field: Field) -> Seq<SegmentEntity> {
    s.map_values(|e: SegmentEntity| confined_segment(e, field))
}

pub open spec fn turned_seq(s: Seq<SegmentEntity>, field: Field) -> Seq<SegmentEntity> {
    s.map_values(|e: SegmentEntity| turned(e, field))
}

pub open spec fn poisoned_seq(s: Seq<SegmentEntity>, ms: Seq<MushroomEntity>) -> Seq<SegmentEntity> {
    s.map_values(|e: SegmentEntity| poisoned(e, ms))
}

pub open spec fn bounced_seq(s: Seq<SegmentEntity>, ms: Seq<MushroomEntity>) -> Seq<SegmentEntity> {
    s.map_values(|e: SegmentEntity| bounced_all(e, ms))
}

pub open spec fn recolored_seq(s: Seq<SegmentEntity>) -> Seq<SegmentEntity> {
    s.map_values(|e: SegmentEntity| recolored(e))
}

/// The segments once they have moved and been kept in the field: orphans
/// promoted, then every segment moved, then confined.
pub open spec fn segments_moved(
    s: Seq<SegmentEntity>,
    evs: Seq<DespawnSegment>,
    speed: int,
    dt: int,
    field: Field,
) -> Seq<SegmentEntity> {
    confined_seq(moved_seq(promoted_seq(s, evs), speed, dt), field)
}

/// The segments once the heads have turned at the edges, been poisoned or
/// cured, and bounced off the mushrooms `ms`.
pub open spec fn segments_steered(
    s: Seq<SegmentEntity>,
    evs: Seq<DespawnSegment>,
    ms: Seq<MushroomEntity>,
    speed: int,
    dt: int,
    field: Field,
) -> Seq<SegmentEntity> {
    bounced_seq(poisoned_seq(turned_seq(segments_moved(s, evs, speed, dt, field), field), ms), ms)
}

/// Whether `after` is what the millipede's turn makes of the steered
/// segments `s6`: perhaps a lone head appended, heads that meet bounced for
/// some allowed rolls, and every head coloured by its state.
pub open spec fn millipede_turn_ends(s6: Seq<SegmentEntity>, after: Seq<SegmentEntity>) -> bool {
    exists|s7: Seq<SegmentEntity>, x: Seq<SegmentEntity>| #[trigger] turn_through(s6, s7, x, after)
}

/// The steps of `millipede_turn_ends`: `s7` is `s6` perhaps with a lone
/// head appended, `x` is `s7` with meeting heads bounced, `after` is `x`
/// recoloured.
pub open spec fn turn_through(
    s6: Seq<SegmentEntity>,
    s7: Seq<SegmentEntity>,
    x: Seq<SegmentEntity>,
    after: Seq<SegmentEntity>,
) -> bool {
    &&& (s7 == s6 || exists|id: int| s7 == s6.push(#[trigger] chain_segment(lone_head_origin(), id, 0)))
    &&& x.len() == s7.len()
    &&& forall|i: int| 0 <= i < s7.len() ==> bounced_from(s7, i, #[trigger] x[i])
    &&& recolored_seq(x) == after
}

} // verus!
