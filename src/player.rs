//! The player: a shooter confined to a band at the bottom of the field.
use crate::constants::{PLAYER_SIZE, PLAYER_SPEED, TOP_BOUND};
use crate::entity::{Entity, EntityIds};
use crate::geometry::{clamp_spec, dt_ok, shift, travel, travel_spec, Field, Pos};
use crate::state::PlayerState;
use crate::timer::Timer;
use crate::explosion::ExplosionEvent;
use vstd::prelude::*;

verus! {

#[derive(Clone, Copy, Debug, PartialEq, Eq, Structural)]
pub struct Player {
    pub id: Entity,
    pub pos: Pos,
}

/// Lives left in the run.
#[derive(Clone, Copy, Debug, PartialEq, Eq, Structural)]
pub struct Lives(pub u8);

/// Time to wait before the next level or the next life.
#[derive(Clone, Copy, Debug, PartialEq, Eq, Structural)]
pub struct DownTimer(pub Timer);

/// The movement keys held this frame.
#[derive(Clone, Copy, Debug, PartialEq, Eq, Structural)]
pub struct MoveInput {
    pub left: bool,
    pub right: bool,
    pub up: bool,
    pub down: bool,
}

/// Where the player is, if there is one.
pub open spec fn player_pos(player: Option<Player>) -> Option<Pos> {
    match player {
        Some(p) => Some(p.pos),
        None => None,
    }
}

impl Player {
    /// Places the player at `pos`; the player is then alive.
    pub fn spawn(pos: Pos, player: &mut Option<Player>, state: &mut PlayerState, ids: &mut EntityIds)
        requires
            old(ids).has_room(1),
        ensures
            *final(player) == Some(Player { id: old(ids).next, pos }),
            *final(state) == PlayerState::Alive,
            final(ids).next == old(ids).next + 1,
    {
        let id = ids.fresh();
        *player = Some(Player { id, pos });
        *state = PlayerState::Alive;
    }

    /// Removes the player, shows an explosion where it was, takes a life,
    /// restarts the down timer and marks the player dead.
    pub fn kill(
        player: &mut Option<Player>,
        state: &mut PlayerState,
        lives: &mut Lives,
        down_timer: &mut DownTimer,
        explosions: &mut Vec<ExplosionEvent>,
    )
        requires
            old(down_timer).0.wf(),
        ensures
            *final(player) == None::<Player>,
            *final(state) == PlayerState::Dead,
            final(lives).0 == (if old(lives).0 > 0 {
                old(lives).0 - 1
            } else {
                0
            }),
            final(down_timer).0 == (Timer { elapsed: 0, just_finished: false, ..old(down_timer).0 }),
            final(explosions)@ == (match *old(player) {
                Some(p) => old(explosions)@.push(ExplosionEvent(p.pos)),
                None => old(explosions)@,
            }),
    {
        if let Some(p) = *player {
            explosions.push(ExplosionEvent(p.pos));
        }
        *player = None;
        *state = PlayerState::Dead;
        if lives.0 > 0 {
            lives.0 = lives.0 - 1;
        }
        down_timer.0.reset();
    }
}

/// Removes the player, if there is one.
pub fn despawn_player(player: &mut Option<Player>)
    ensures
        *final(player) == None::<Player>,
{
    *player = None;
}

/// The player after one frame of movement: its speed for each key held,
/// diagonal moves adding both axes.
pub open spec fn moved_player(player: Option<Player>, input: MoveInput, dt: int) -> Option<Player> {
    match player {
        Some(p) => {
            let s = travel_spec(PLAYER_SPEED as int, dt);
            let x1 = if input.left { clamp_spec(p.pos.x - s) } else { p.pos.x as int };
            let x2 = if input.right { clamp_spec(x1 + s) } else { x1 };
            let y1 = if input.up { clamp_spec(p.pos.y + s) } else { p.pos.y as int };
            let y2 = if input.down { clamp_spec(y1 - s) } else { y1 };
            Some(Player { pos: Pos { x: x2 as i64, y: y2 as i64 }, ..p })
        },
        None => None,
    }
}

/// The player kept inside its band.
pub open spec fn confined_player(player: Option<Player>, field: Field) -> Option<Player> {
    match player {
        Some(p) => Some(
            Player {
                pos: Pos {
                    x: clamp_between(p.pos.x as int, PLAYER_SIZE / 2, field.width - PLAYER_SIZE / 2) as i64,
                    y: clamp_between(p.pos.y as int, PLAYER_SIZE / 2, TOP_BOUND - PLAYER_SIZE / 2) as i64,
                },
                ..p
            },
        ),
        None => None,
    }
}

/// Moves the player by its speed for each key held; diagonal moves add
/// both axes.
pub fn move_player(player: &mut Option<Player>, input: MoveInput, dt: i64)
    requires
        dt_ok(dt as int),
        *old(player) matches Some(p) ==> p.pos.wf(),
    ensures
        *final(player) == moved_player(*old(player), input, dt as int),
        *final(player) matches Some(p) ==> p.pos.wf(),
{
    if let Some(p) = *player {
        let s = travel(PLAYER_SPEED, dt);
        let mut pos = p.pos;
        if input.left {
            pos.x = shift(pos.x, -s);
        }
        if input.right {
            pos.x = shift(pos.x, s);
        }
        if input.up {
            pos.y = shift(pos.y, s);
        }
        if input.down {
            pos.y = shift(pos.y, -s);
        }
        *player = Some(Player { pos, ..p });
    }
}

pub open spec fn clamp_between(v: int, lo: int, hi: int) -> int {
    if v < lo {
        lo
    } else if v > hi {
        hi
    } else {
        v
    }
}

/// Keeps the player inside the band `[half, width - half] x [half,
/// TOP_BOUND - half]`, where `half` is half the player's size.
pub fn confine_player_movement(player: &mut Option<Player>, field: Field)
    requires
        field.wf(),
        *old(player) matches Some(p) ==> p.pos.wf(),
    ensures
        *final(player) == confined_player(*old(player), field),
        *final(player) matches Some(p) ==> p.pos.wf(),
{
    if let Some(p) = *player {
        let half = PLAYER_SIZE / 2;
        let x_min = half;
        let x_max = field.width - half;
        let y_min = half;
        let y_max = TOP_BOUND - half;
        let mut pos = p.pos;
        if pos.x < x_min {
            pos.x = x_min;
        } else if pos.x > x_max {
            pos.x = x_max;
        }
        if pos.y < y_min {
            pos.y = y_min;
        } else if pos.y > y_max {
            pos.y = y_max;
        }
        *player = Some(Player { pos, ..p });
    }
}

} // verus!
