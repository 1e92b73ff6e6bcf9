//! The spider: it runs to the centre of the field, wanders, dives at the
//! player and finally leaves.
use crate::constants::{
    PPM, SPIDER_CENTER_EPSILON, SPIDER_DIRECTION_CHANGE_RATE, SPIDER_MAX_SPEED, SPIDER_SPAWN_RATE,
    TOP_UI_HEIGHT,
};
use crate::entity::{Entity, EntityIds};
use crate::geometry::{
    abs, clamp_spec, dt_ok, isqrt, lemma_isqrt_exists, root, scale, scale_spec, shift, touch,
    touches, travel, travel_spec, Field, LIMIT, Pos, UNIT,
};
use crate::player::{player_pos, Player};
use crate::rng::{roll_range, roll_ratio};
use crate::timer::{Timer, MAX_DURATION};
use vstd::prelude::*;

verus! {

#[derive(Clone, Copy, Debug, PartialEq, Eq, Structural)]
pub enum SpiderState {
    Centering,
    Attacking,
    Wandering,
    Leaving,
}

/// A direction of travel in thousandths: each component lies in
/// `[-UNIT, UNIT]`.
#[derive(Clone, Copy, Debug, PartialEq, Eq, Structural)]
pub struct Direction {
    pub x: i64,
    pub y: i64,
}

impl Direction {
    pub open spec fn wf(self) -> bool {
        -UNIT <= self.x <= UNIT && -UNIT <= self.y <= UNIT
    }
}

#[derive(Clone, Copy, Debug, PartialEq, Eq, Structural)]
pub struct Spider {
    pub id: Entity,
    pub pos: Pos,
    pub state: SpiderState,
    pub direction: Direction,
}

impl Spider {
    pub open spec fn wf(self) -> bool {
        self.pos.wf() && self.direction.wf()
    }
}

/// Time before another spider may come.
#[derive(Clone, Copy, Debug, PartialEq, Eq, Structural)]
pub struct SpiderTimer(pub Timer);

pub open spec fn spider_opt_wf(s: Option<Spider>) -> bool {
    s matches Some(sp) ==> sp.wf()
}

impl Spider {
    /// Places a spider at `pos` heading along `direction`; it starts by
    /// running to the centre.
    pub fn spawn(pos: Pos, direction: Direction, spider: &mut Option<Spider>, ids: &mut EntityIds)
        requires
            old(ids).has_room(1),
        ensures
            *final(spider) == Some(
                Spider { id: old(ids).next, pos, state: SpiderState::Centering, direction },
            ),
            final(ids).next == old(ids).next + 1,
    {
        let id = ids.fresh();
        *spider = Some(Spider { id, pos, state: SpiderState::Centering, direction });
    }

    /// Removes the spider and restarts the wait for the next one, with the
    /// wait `length` (microseconds) of the current level.
    pub fn despawn(spider: &mut Option<Spider>, timer: &mut SpiderTimer, length: u64)
        requires
            0 < length <= MAX_DURATION,
        ensures
            *final(spider) == None::<Spider>,
            final(timer).0 == Timer::new_spec(length),
            final(timer).0.wf(),
    {
        *spider = None;
        *timer = SpiderTimer(Timer::new(length));
    }
}

/// The unit vector of `(x, y)` in thousandths, rounded toward zero; the
/// zero vector stays zero.
pub open spec fn unit_of(x: int, y: int) -> Direction {
    let len = root(x * x + y * y);
    if len == 0 {
        Direction { x: 0, y: 0 }
    } else {
        Direction {
            x: scale_spec(x, UNIT as int, len) as i64,
            y: scale_spec(y, UNIT as int, len) as i64,
        }
    }
}

proof fn lemma_component_le_root(x: int, y: int)
    ensures
        abs(x) <= root(x * x + y * y),
        abs(y) <= root(x * x + y * y),
        root(x * x + y * y) >= 0,
{
    assert(x * x + y * y >= 0) by (nonlinear_arith);
    lemma_isqrt_exists(x * x + y * y);
    let r = root(x * x + y * y);
    assert(abs(x) <= r && abs(y) <= r) by (nonlinear_arith)
        requires
            x * x + y * y < (r + 1) * (r + 1),
            r >= 0,
            abs(x) == x || abs(x) == -x,
            abs(y) == y || abs(y) == -y,
    ;
}

fn unit_component(v: i64, len: i64) -> (r: i64)
    requires
        abs(v as int) <= len,
        0 < len <= 4 * LIMIT,
    ensures
        r == scale_spec(v as int, UNIT as int, len as int),
        -UNIT <= r <= UNIT,
{
    let a: i128 = if v >= 0 {
        v as i128
    } else {
        -(v as i128)
    };
    assert(a * 1000 <= 1000 * len) by (nonlinear_arith)
        requires
            0 <= a <= len,
    ;
    assert(a * 1000 / (len as int) <= 1000) by (nonlinear_arith)
        requires
            a * 1000 <= 1000 * len,
            len > 0,
            a >= 0,
    ;
    let m: i128 = a * 1000 / (len as i128);
    if v >= 0 {
        m as i64
    } else {
        -(m as i64)
    }
}

/// Normalises `(x, y)` as `unit_of` describes.
pub fn normalize_or_zero(x: i64, y: i64) -> (r: Direction)
    requires
        -2 * LIMIT <= x <= 2 * LIMIT,
        -2 * LIMIT <= y <= 2 * LIMIT,
    ensures
        r == unit_of(x as int, y as int),
        r.wf(),
{
    proof {
        lemma_component_le_root(x as int, y as int);
    }
    let xx: i128 = x as i128;
    let yy: i128 = y as i128;
    assert(0 <= xx * xx <= 4 * LIMIT * LIMIT && 0 <= yy * yy <= 4 * LIMIT * LIMIT) by (nonlinear_arith)
        requires
            -2 * LIMIT <= xx <= 2 * LIMIT,
            -2 * LIMIT <= yy <= 2 * LIMIT,
    ;
    let d2: i128 = xx * xx + yy * yy;
    let len = isqrt(d2 as u128);
    if len == 0 {
        return Direction { x: 0, y: 0 };
    }
    assert(len <= 4 * LIMIT) by (nonlinear_arith)
        requires
            len * len <= x * x + y * y,
            -2 * LIMIT <= x <= 2 * LIMIT,
            -2 * LIMIT <= y <= 2 * LIMIT,
            len >= 0,
    ;
    Direction { x: unit_component(x, len as i64), y: unit_component(y, len as i64) }
}

/// The random outcomes one frame of spider steering may use.
#[derive(Clone, Copy, Debug, PartialEq, Eq, Structural)]
pub struct SpiderRolls {
    /// Vertical drift while centering, in thousandths.
    pub drift: i64,
    /// Whether a wandering spider picks a new direction.
    pub change: bool,
    /// The new direction before normalising, in thousandths.
    pub rx: i64,
    pub ry: i64,
    /// Whether a wandering spider that changed direction dives at the player.
    pub attack: bool,
    /// Whether a spider that reached the bottom leaves.
    pub leave: bool,
    /// Whether a leaving spider exits to the right.
    pub right: bool,
}

impl SpiderRolls {
    pub open spec fn wf(self) -> bool {
        -UNIT <= self.drift <= UNIT && -UNIT <= self.rx <= UNIT && -UNIT <= self.ry <= UNIT
    }
}

/// One frame of the spider's state machine.
///
/// Centering: it heads for the middle of the field with a small vertical
/// drift, and starts wandering once within a small band around the middle.
/// Wandering: on a direction change it takes a new random direction, and
/// then, on an attack roll with a player present, dives at the player:
/// horizontally toward the player, straight down. Attacking: at the bottom
/// of the field it leaves or wanders again. Leaving: it picks a side to exit
/// by, once, and climbs out diagonally.
pub open spec fn steered(s: Spider, field: Field, player: Option<Pos>, rolls: SpiderRolls) -> Spider {
    match s.state {
        SpiderState::Centering => {
            let center = field.width / 2;
            let (state, dx) = if center - SPIDER_CENTER_EPSILON <= s.pos.x <= center
                + SPIDER_CENTER_EPSILON {
                (SpiderState::Wandering, s.direction.x)
            } else if s.pos.x > center {
                (SpiderState::Centering, (-UNIT) as i64)
            } else {
                (SpiderState::Centering, UNIT as i64)
            };
            Spider { state, direction: Direction { x: dx, y: rolls.drift }, ..s }
        },
        SpiderState::Wandering => if !rolls.change {
            s
        } else {
            let d = unit_of(rolls.rx as int, rolls.ry as int);
            match player {
                Some(p) if rolls.attack => Spider {
                    state: SpiderState::Attacking,
                    direction: Direction {
                        x: unit_of(p.x - s.pos.x, p.y - s.pos.y).x,
                        y: (-UNIT) as i64,
                    },
                    ..s
                },
                _ => Spider { direction: d, ..s },
            }
        },
        SpiderState::Attacking => if s.pos.y <= 0 {
            Spider {
                state: if rolls.leave {
                    SpiderState::Leaving
                } else {
                    SpiderState::Wandering
                },
                ..s
            }
        } else {
            s
        },
        SpiderState::Leaving => if s.direction.x == (-UNIT) as i64 || s.direction.x == UNIT {
            s
        } else {
            Spider {
                direction: Direction {
                    x: if rolls.right {
                        UNIT as i64
                    } else {
                        (-UNIT) as i64
                    },
                    y: UNIT as i64,
                },
                ..s
            }
        },
    }
}

/// Steers a spider for one frame, with the random outcomes given.
pub fn steer(s: Spider, field: Field, player: Option<Pos>, rolls: SpiderRolls) -> (r: Spider)
    requires
        s.wf(),
        field.wf(),
        player matches Some(p) ==> p.wf(),
        rolls.wf(),
    ensures
        r == steered(s, field, player, rolls),
        r.wf(),
        r.id == s.id,
        r.pos == s.pos,
{
    match s.state {
        SpiderState::Centering => {
            let center = field.width / 2;
            let mut dir = s.direction;
            let mut state = SpiderState::Centering;
            if s.pos.x >= center - SPIDER_CENTER_EPSILON && s.pos.x <= center + SPIDER_CENTER_EPSILON {
                state = SpiderState::Wandering;
            } else if s.pos.x > center {
                dir.x = -UNIT;
            } else {
                dir.x = UNIT;
            }
            dir.y = rolls.drift;
            Spider { state, direction: dir, ..s }
        },
        SpiderState::Wandering => {
            if !rolls.change {
                return s;
            }
            let d = normalize_or_zero(rolls.rx, rolls.ry);
            if rolls.attack {
                if let Some(p) = player {
                    let toward = normalize_or_zero(p.x - s.pos.x, p.y - s.pos.y);
                    return Spider {
                        state: SpiderState::Attacking,
                        direction: Direction { x: toward.x, y: -UNIT },
                        ..s
                    };
                }
            }
            Spider { direction: d, ..s }
        },
        SpiderState::Attacking => {
            if s.pos.y <= 0 {
                let state = if rolls.leave {
                    SpiderState::Leaving
                } else {
                    SpiderState::Wandering
                };
                Spider { state, ..s }
            } else {
                s
            }
        },
        SpiderState::Leaving => {
            if s.direction.x == -UNIT || s.direction.x == UNIT {
                s
            } else {
                let x = if rolls.right {
                    UNIT
                } else {
                    -UNIT
                };
                Spider { direction: Direction { x, y: UNIT }, ..s }
            }
        },
    }
}

/// Largest vertical drift of a centering spider, in thousandths.
pub const SPIDER_DRIFT: i64 = 250;

/// What the random outcomes of a frame are known to satisfy: the ranges
/// they were drawn from, and the certain outcomes of rates of zero and one.
pub open spec fn rolls_fit(r: SpiderRolls, attack_rate: u32, leave_rate: u32) -> bool {
    &&& r.wf()
    &&& -SPIDER_DRIFT <= r.drift < SPIDER_DRIFT
    &&& (attack_rate == 0 ==> !r.attack)
    &&& (attack_rate == PPM ==> r.attack)
    &&& (leave_rate == 0 ==> !r.leave)
    &&& (leave_rate == PPM ==> r.leave)
}

/// Steers the spider, if there is one, for one frame, drawing the random
/// outcomes it needs: the result is `steered` for some outcomes that fit
/// the given rates (parts per million).
pub fn set_spider_direction(
    spider: &mut Option<Spider>,
    field: Field,
    player: &Option<Player>,
    attack_rate: u32,
    leave_rate: u32,
)
    requires
        spider_opt_wf(*old(spider)),
        field.wf(),
        *player matches Some(p) ==> p.pos.wf(),
        attack_rate <= PPM,
        leave_rate <= PPM,
    ensures
        spider_opt_wf(*final(spider)),
        match *old(spider) {
            None => *final(spider) == None::<Spider>,
            Some(s) => exists|r: SpiderRolls|
                rolls_fit(r, attack_rate, leave_rate) && *final(spider) == Some(
                    #[trigger] steered(s, field, player_pos(*player), r),
                ),
        },
{
    if let Some(s) = *spider {
        let rolls = SpiderRolls {
            drift: roll_range(-SPIDER_DRIFT, SPIDER_DRIFT),
            change: roll_ratio(SPIDER_DIRECTION_CHANGE_RATE, PPM),
            rx: roll_range(-UNIT, UNIT),
            ry: roll_range(-UNIT, UNIT),
            attack: roll_ratio(attack_rate, PPM),
            leave: roll_ratio(leave_rate, PPM),
            right: roll_ratio(1, 2),
        };
        let target = match *player {
            Some(p) => Some(p.pos),
            None => None,
        };
        let ns = steer(s, field, target, rolls);
        *spider = Some(ns);
        assert(rolls_fit(rolls, attack_rate, leave_rate));
    }
}

/// `step` scaled by the direction component `c`, in thousandths, rounded
/// toward zero.
pub open spec fn along(step: int, c: int) -> int {
    if c >= 0 {
        scale_spec(step, c, UNIT as int)
    } else {
        -scale_spec(step, -c, UNIT as int)
    }
}

fn along_exec(step: i64, c: i64) -> (r: i64)
    requires
        0 <= step <= 10_000_000,
        -UNIT <= c <= UNIT,
    ensures
        r == along(step as int, c as int),
        abs(r as int) <= step,
{
    if c >= 0 {
        scale(step, c, UNIT)
    } else {
        -scale(step, -c, UNIT)
    }
}

/// Moves the spider along its direction at its speed, half again as fast
/// vertically.
pub fn move_spider(spider: &mut Option<Spider>, speed: i64, dt: i64)
    requires
        spider_opt_wf(*old(spider)),
        0 <= speed <= SPIDER_MAX_SPEED,
        dt_ok(dt as int),
    ensures
        spider_opt_wf(*final(spider)),
        *final(spider) == (match *old(spider) {
            Some(s) => Some(
                Spider {
                    pos: Pos {
                        x: clamp_spec(s.pos.x + along(travel_spec(speed as int, dt as int), s.direction.x as int)) as i64,
                        y: clamp_spec(
                            s.pos.y + along(travel_spec(speed * 3 / 2, dt as int), s.direction.y as int),
                        ) as i64,
                    },
                    ..s
                },
            ),
            None => None,
        }),
{
    if let Some(s) = *spider {
        let sx = travel(speed, dt);
        let sy = travel(speed * 3 / 2, dt);
        let x = shift(s.pos.x, along_exec(sx, s.direction.x));
        let y = shift(s.pos.y, along_exec(sy, s.direction.y));
        *spider = Some(Spider { pos: Pos { x, y }, ..s });
    }
}

/// Keeps a spider inside the field, below the top bar, by bouncing it off
/// the edges; a leaving spider may cross the left and right edges.
pub open spec fn confined(s: Spider, field: Field) -> Spider {
    let upper = field.height - TOP_UI_HEIGHT;
    let (x1, dx1) = if s.state == SpiderState::Leaving {
        (s.pos.x as int, s.direction.x as int)
    } else if s.pos.x < 0 {
        (0, -s.direction.x)
    } else if s.pos.x > field.width {
        (field.width as int, -s.direction.x)
    } else {
        (s.pos.x as int, s.direction.x as int)
    };
    let (y1, dy1) = if s.pos.y > upper {
        (upper, -s.direction.y)
    } else {
        (s.pos.y as int, s.direction.y as int)
    };
    let (y2, dy2) = if y1 < 0 {
        (0, -dy1)
    } else {
        (y1, dy1)
    };
    Spider { pos: Pos { x: x1 as i64, y: y2 as i64 }, direction: Direction { x: dx1 as i64, y: dy2 as i64 }, ..s }
}

/// Bounces the spider, if there is one, off the edges of the field.
pub fn confine_spider_movement(spider: &mut Option<Spider>, field: Field)
    requires
        spider_opt_wf(*old(spider)),
        field.wf(),
    ensures
        spider_opt_wf(*final(spider)),
        *final(spider) == (match *old(spider) {
            Some(s) => Some(confined(s, field)),
            None => None,
        }),
{
    if let Some(s) = *spider {
        let upper = field.height - TOP_UI_HEIGHT;
        let mut pos = s.pos;
        let mut dir = s.direction;
        if s.state != SpiderState::Leaving {
            if pos.x < 0 {
                pos.x = 0;
                dir.x = -dir.x;
            } else if pos.x > field.width {
                pos.x = field.width;
                dir.x = -dir.x;
            }
        }
        if pos.y > upper {
            pos.y = upper;
            dir.y = -dir.y;
        }
        if pos.y < 0 {
            pos.y = 0;
            dir.y = -dir.y;
        }
        *spider = Some(Spider { pos, direction: dir, ..s });
    }
}

/// Whether a leaving spider has got out: past the left edge, or higher up
/// than the field is wide.
pub open spec fn spider_gone(s: Spider, field: Field) -> bool {
    s.state == SpiderState::Leaving && (s.pos.x < 0 || s.pos.y > field.width)
}

/// Removes a spider that has left, restarting the wait for the next one
/// with the wait `length` (microseconds) of the current level.
pub fn despawn_spider(spider: &mut Option<Spider>, timer: &mut SpiderTimer, field: Field, length: u64)
    requires
        old(timer).0.wf(),
        0 < length <= MAX_DURATION,
    ensures
        final(timer).0.wf(),
        match *old(spider) {
            Some(s) => if spider_gone(s, field) {
                *final(spider) == None::<Spider> && final(timer).0 == Timer::new_spec(length)
            } else {
                *final(spider) == *old(spider) && *final(timer) == *old(timer)
            },
            None => *final(spider) == None::<Spider> && *final(timer) == *old(timer),
        },
{
    if let Some(s) = *spider {
        if s.state == SpiderState::Leaving && (s.pos.x < 0 || s.pos.y > field.width) {
            Spider::despawn(spider, timer, length);
        }
    }
}

/// Sum of the radii of the spider and the player.
pub const SPIDER_PLAYER_CONTACT: i64 = 16_000;

/// Whether the spider and the player are both there and touch.
pub fn spider_hits_player(spider: &Option<Spider>, player: &Option<Player>) -> (r: bool)
    requires
        spider_opt_wf(*spider),
        *player matches Some(p) ==> p.pos.wf(),
    ensures
        r == (match (*spider, *player) {
            (Some(s), Some(p)) => touches(s.pos, p.pos, SPIDER_PLAYER_CONTACT as int),
            _ => false,
        }),
{
    match (*spider, *player) {
        (Some(s), Some(p)) => touch(s.pos, p.pos, SPIDER_PLAYER_CONTACT),
        _ => false,
    }
}

/// Half the height of the band a spider may appear in.
pub const SPIDER_SPAWN_JITTER: i64 = 50_000;

/// Whether `s` is a spider as `spawn_spider` makes one: running to the
/// centre from the left or the right edge, toward the field, within the
/// jitter of `height`.
pub open spec fn fresh_spider(s: Spider, id: u64, field: Field, height: int) -> bool {
    &&& s.id == id
    &&& s.state == SpiderState::Centering
    &&& ((s.pos.x == 0 && s.direction == Direction { x: UNIT, y: 0 }) || (s.pos.x == field.width
        && s.direction == Direction { x: (-UNIT) as i64, y: 0 }))
    &&& height - SPIDER_SPAWN_JITTER <= s.pos.y < height + SPIDER_SPAWN_JITTER
}

/// Where a spider enters and which way it heads: from the right edge
/// heading left when `right` is set, from the left edge heading right
/// otherwise, at height `y`.
pub open spec fn spider_entry(field: Field, right: bool, y: i64) -> (Pos, Direction) {
    if right {
        (Pos { x: field.width, y }, Direction { x: (-UNIT) as i64, y: 0 })
    } else {
        (Pos { x: 0, y }, Direction { x: UNIT, y: 0 })
    }
}

/// Chooses the entry of a spider, with the random side and height given.
pub fn spider_entry_point(field: Field, right: bool, y: i64) -> (r: (Pos, Direction))
    ensures
        r == spider_entry(field, right, y),
{
    if right {
        (Pos { x: field.width, y }, Direction { x: -UNIT, y: 0 })
    } else {
        (Pos { x: 0, y }, Direction { x: UNIT, y: 0 })
    }
}

/// While there is no spider: advances the wait, and once it is over, on a
/// spawn roll, brings a spider in from a random side at a random height
/// around `height`.
pub fn spawn_spider(
    spider: &mut Option<Spider>,
    timer: &mut SpiderTimer,
    dt: u64,
    field: Field,
    height: i64,
    ids: &mut EntityIds,
)
    requires
        old(timer).0.wf(),
        dt <= 1_000_000,
        field.wf(),
        0 <= height <= 1_000_000_000,
        old(ids).has_room(1),
    ensures
        final(timer).0.wf(),
        spider_opt_wf(*final(spider)) || *final(spider) == *old(spider),
        old(spider).is_some() ==> *final(spider) == *old(spider) && *final(timer) == *old(timer)
            && *final(ids) == *old(ids),
        old(spider).is_none() ==> {
            &&& final(timer).0 == old(timer).0.ticked(dt)
            &&& !final(timer).0.is_finished() ==> final(spider).is_none()
            &&& match *final(spider) {
                Some(s) => fresh_spider(s, old(ids).next, field, height as int) && final(ids).next
                    == old(ids).next + 1 && s.wf(),
                None => *final(ids) == *old(ids),
            }
        },
{
    if spider.is_some() {
        return;
    }
    timer.0.tick(dt);
    if !timer.0.finished() {
        return;
    }
    if !roll_ratio(SPIDER_SPAWN_RATE, PPM) {
        return;
    }
    let right = roll_ratio(1, 2);
    let y = roll_range(height - SPIDER_SPAWN_JITTER, height + SPIDER_SPAWN_JITTER);
    let (pos, dir) = spider_entry_point(field, right, y);
    Spider::spawn(pos, dir, spider, ids);
}

} // verus!
