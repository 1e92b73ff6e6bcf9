//! Levels: the difficulty parameters and how they grow from level to level.
use crate::constants::{
    MILLIPEDE_MAX_LENGTH, MILLIPEDE_MAX_SPEED, MILLIPEDE_SPEED, MILLIPEDE_SPEED_CHANGE_RATE,
    MILLIPEDE_STARTING_LENGTH, PPM, SPIDER_ATTACK_RATE, SPIDER_AVERAGE_SPAWN_HEIGHT,
    SPIDER_LEAVE_RATE, SPIDER_MAX_SPEED, SPIDER_REWARD, SPIDER_SPAWN_RATE, SPIDER_SPEED,
    SPIDER_TIMER,
};
use crate::timer::{Timer, MAX_DURATION};
use vstd::prelude::*;

verus! {

/// The level being played; zero before the first.
#[derive(Clone, Copy, Debug, PartialEq, Eq, Structural)]
pub struct Level(pub u32);

/// Time during which a restart from the game-over screen is ignored.
#[derive(Clone, Copy, Debug, PartialEq, Eq, Structural)]
pub struct GameOverTimer(pub Timer);

/// The difficulty parameters of the current level.
#[derive(Clone, Copy, Debug, PartialEq, Eq, Structural)]
pub struct GameVariables {
    pub millipede_length: usize,
    /// Milli-pixels per second.
    pub millipede_speed: i64,
    /// Milli-pixels per second.
    pub spider_speed: i64,
    /// Parts per million.
    pub spider_attack_rate: u32,
    /// Parts per million.
    pub spider_leave_rate: u32,
    /// Microseconds.
    pub spider_timer_length: u64,
    /// Parts per million.
    pub spider_spawn_rate: u32,
    /// Milli-pixels.
    pub spider_average_spawn_height: i64,
    pub spider_reward: u32,
}

impl GameVariables {
    pub open spec fn wf(self) -> bool {
        &&& 1 <= self.millipede_length <= MILLIPEDE_MAX_LENGTH
        &&& 0 < self.millipede_speed <= MILLIPEDE_MAX_SPEED
        &&& 0 <= self.spider_speed <= SPIDER_MAX_SPEED
        &&& self.spider_attack_rate <= PPM
        &&& self.spider_leave_rate <= PPM
        &&& 0 < self.spider_timer_length <= MAX_DURATION
        &&& self.spider_spawn_rate <= PPM
        &&& 0 <= self.spider_average_spawn_height <= 1_000_000_000
        &&& self.spider_reward <= 1_000_000
    }

    /// The parameters of a new run.
    pub open spec fn initial() -> GameVariables {
        GameVariables {
            millipede_length: MILLIPEDE_STARTING_LENGTH,
            millipede_speed: MILLIPEDE_SPEED,
            spider_speed: SPIDER_SPEED,
            spider_attack_rate: SPIDER_ATTACK_RATE,
            spider_leave_rate: SPIDER_LEAVE_RATE,
            spider_timer_length: SPIDER_TIMER,
            spider_spawn_rate: SPIDER_SPAWN_RATE,
            spider_average_spawn_height: SPIDER_AVERAGE_SPAWN_HEIGHT,
            spider_reward: SPIDER_REWARD,
        }
    }

    /// Back to the parameters of a new run.
    pub fn reset(&mut self)
        ensures
            *final(self) == GameVariables::initial(),
            final(self).wf(),
    {
        self.millipede_length = MILLIPEDE_STARTING_LENGTH;
        self.millipede_speed = MILLIPEDE_SPEED;
        self.spider_speed = SPIDER_SPEED;
        self.spider_attack_rate = SPIDER_ATTACK_RATE;
        self.spider_leave_rate = SPIDER_LEAVE_RATE;
        self.spider_timer_length = SPIDER_TIMER;
        self.spider_spawn_rate = SPIDER_SPAWN_RATE;
        self.spider_average_spawn_height = SPIDER_AVERAGE_SPAWN_HEIGHT;
        self.spider_reward = SPIDER_REWARD;
    }

    /// The parameters for the level after `level`: the millipede grows by one
    /// segment up to its maximum length and speeds up by two and a half per
    /// cent while that stays within its maximum speed; the spider speeds up
    /// and attacks more often by a tenth of a per cent (up to its ceilings)
    /// and leaves about one per cent less often; after level 5 and again
    /// after level 10 the spider comes sooner, lower, and is worth more.
    pub open spec fn escalated(self, level: u32) -> GameVariables {
        let length = if self.millipede_length < MILLIPEDE_MAX_LENGTH {
            (self.millipede_length + 1) as usize
        } else {
            self.millipede_length
        };
        let faster = self.millipede_speed * MILLIPEDE_SPEED_CHANGE_RATE / 1000;
        let speed = if faster <= MILLIPEDE_MAX_SPEED {
            faster as i64
        } else {
            self.millipede_speed
        };
        let ss = self.spider_speed * 1001 / 1000;
        let aa = self.spider_attack_rate * 1001 / 1000;
        let base = GameVariables {
            millipede_length: length,
            millipede_speed: speed,
            spider_speed: if ss <= SPIDER_MAX_SPEED {
                ss as i64
            } else {
                SPIDER_MAX_SPEED
            },
            spider_attack_rate: if aa <= PPM {
                aa as u32
            } else {
                PPM
            },
            spider_leave_rate: (self.spider_leave_rate * 100 / 101) as u32,
            ..self
        };
        if level <= 5 {
            GameVariables { spider_timer_length: SPIDER_TIMER, ..base }
        } else if level <= 10 {
            GameVariables {
                spider_timer_length: (SPIDER_TIMER - 4_000_000) as u64,
                spider_reward: (SPIDER_REWARD * 2) as u32,
                spider_average_spawn_height: (SPIDER_AVERAGE_SPAWN_HEIGHT - 150_000) as i64,
                ..base
            }
        } else {
            GameVariables {
                spider_timer_length: (SPIDER_TIMER - 8_000_000) as u64,
                spider_reward: (SPIDER_REWARD * 4) as u32,
                spider_average_spawn_height: (SPIDER_AVERAGE_SPAWN_HEIGHT - 250_000) as i64,
                ..base
            }
        }
    }

    /// Moves the parameters on from `level` to the next level.
    pub fn escalate(&mut self, level: u32)
        requires
            old(self).wf(),
        ensures
            *final(self) == old(self).escalated(level),
            final(self).wf(),
    {
        if self.millipede_length < MILLIPEDE_MAX_LENGTH {
            self.millipede_length = self.millipede_length + 1;
        }
        let faster = self.millipede_speed * MILLIPEDE_SPEED_CHANGE_RATE / 1000;
        if faster <= MILLIPEDE_MAX_SPEED {
            self.millipede_speed = faster;
        }
        let ss = self.spider_speed * 1001 / 1000;
        self.spider_speed = if ss <= SPIDER_MAX_SPEED {
            ss
        } else {
            SPIDER_MAX_SPEED
        };
        let aa = self.spider_attack_rate as u64 * 1001 / 1000;
        self.spider_attack_rate = if aa <= PPM as u64 {
            aa as u32
        } else {
            PPM
        };
        self.spider_leave_rate = (self.spider_leave_rate as u64 * 100 / 101) as u32;
        if level <= 5 {
            self.spider_timer_length = SPIDER_TIMER;
        } else if level <= 10 {
            self.spider_timer_length = SPIDER_TIMER - 4_000_000;
            self.spider_reward = SPIDER_REWARD * 2;
            self.spider_average_spawn_height = SPIDER_AVERAGE_SPAWN_HEIGHT - 150_000;
        } else {
            self.spider_timer_length = SPIDER_TIMER - 8_000_000;
            self.spider_reward = SPIDER_REWARD * 4;
            self.spider_average_spawn_height = SPIDER_AVERAGE_SPAWN_HEIGHT - 250_000;
        }
    }
}

impl Default for GameVariables {
    fn default() -> (r: GameVariables)
        ensures
            r == GameVariables::initial(),
    {
        GameVariables {
            millipede_length: MILLIPEDE_STARTING_LENGTH,
            millipede_speed: MILLIPEDE_SPEED,
            spider_speed: SPIDER_SPEED,
            spider_attack_rate: SPIDER_ATTACK_RATE,
            spider_leave_rate: SPIDER_LEAVE_RATE,
            spider_timer_length: SPIDER_TIMER,
            spider_spawn_rate: SPIDER_SPAWN_RATE,
            spider_average_spawn_height: SPIDER_AVERAGE_SPAWN_HEIGHT,
            spider_reward: SPIDER_REWARD,
        }
    }
}

/// The parameters after `n` more levels, starting from level `level`.
pub open spec fn escalated_times(v: GameVariables, level: u32, n: nat) -> GameVariables
    decreases n,
{
    if n == 0 {
        v
    } else {
        let l = if level < u32::MAX {
            (level + 1) as u32
        } else {
            level
        };
        escalated_times(v.escalated(level), l, (n - 1) as nat)
    }
}

proof fn lemma_escalated_wf(v: GameVariables, level: u32)
    requires
        v.wf(),
    ensures
        v.escalated(level).wf(),
{
    assert(v.spider_leave_rate * 100 / 101 <= v.spider_leave_rate) by (nonlinear_arith)
        requires
            v.spider_leave_rate >= 0,
    ;
    assert(v.millipede_speed * MILLIPEDE_SPEED_CHANGE_RATE / 1000 >= v.millipede_speed) by (nonlinear_arith)
        requires
            v.millipede_speed > 0,
    ;
    assert(v.spider_speed * 1001 / 1000 >= 0) by (nonlinear_arith)
        requires
            v.spider_speed >= 0,
    ;
}

/// However many levels go by, the millipede never gets longer than its
/// maximum length nor faster than its maximum speed, and every difficulty
/// parameter stays in its range.
pub proof fn lemma_level_escalation_bounds(v: GameVariables, level: u32, n: nat)
    requires
        v.wf(),
    ensures
        escalated_times(v, level, n).wf(),
        escalated_times(v, level, n).millipede_speed <= MILLIPEDE_MAX_SPEED,
        escalated_times(v, level, n).millipede_length <= MILLIPEDE_MAX_LENGTH,
    decreases n,
{
    if n > 0 {
        lemma_escalated_wf(v, level);
        let l = if level < u32::MAX {
            (level + 1) as u32
        } else {
            level
        };
        lemma_level_escalation_bounds(v.escalated(level), l, (n - 1) as nat);
    }
}

} // verus!
