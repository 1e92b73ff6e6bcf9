//! Tuning constants of the game, in milli-pixels, microseconds and
//! parts per million.
use vstd::prelude::*;

verus! {

/// Parts per million: the denominator of every probability.
pub const PPM: u32 = 1_000_000;

// Player
pub const PLAYER_SPEED: i64 = 250_000;
pub const PLAYER_SIZE: i64 = 16_000;
pub const STARTING_LIVES: u8 = 1;
pub const PLAYER_SPAWN_Y: i64 = 20_000;

// Projectile
pub const PROJECTILE_SPEED: i64 = 1_300_000;
pub const PROJECTILE_SIZE: i64 = 10_000;

// Map
pub const TOP_BOUND: i64 = 100_000;
pub const TOP_UI_HEIGHT: i64 = 24_000;
pub const DOWNTIMER: u64 = 2_000_000;
pub const GAMEOVER_TIMER: u64 = 1_000_000;

// Mushrooms
pub const MUSHROOM_SIZE: i64 = 11_000;
pub const MUSHROOM_MAX_AMOUNT: u8 = 100;
pub const MUSHROOM_MIN_AMOUNT: u8 = 70;
pub const SPAWN_MARGIN: i64 = 20_000;
pub const MUSHROOM_HEALTH: i8 = 3;

// Millipede
pub const MILLIPEDE_STARTING_LENGTH: usize = 9;
pub const MILLIPEDE_MAX_LENGTH: usize = 40;
pub const MILLIPEDE_SPEED: i64 = 300_000;
pub const MILLIPEDE_MAX_SPEED: i64 = 500_000;
/// Per-level growth of the millipede's speed, in thousandths.
pub const MILLIPEDE_SPEED_CHANGE_RATE: i64 = 1025;
pub const SEGMENT_SIZE: i64 = 16_000;
pub const SEGMENT_SPACING: i64 = 15_000;
pub const DROP_AMOUNT: i64 = 9_000;
pub const PUSH_BACK_AMOUNT: i64 = 10_000;
pub const SEGMENT_SPAWN_TIMER_DURATION: u64 = 9_000_000;
pub const SEGMENT_DROP_RATE: u32 = 100_000;

// Explosions
pub const EXPLOSION_DURATION: u64 = 100_000;

// Beetle
pub const BEETLE_SPEED: i64 = 500_000;
/// A beetle drops a mushroom on a roll of 1..=100 below this.
pub const BEETLE_SPAWN_RATE: i64 = 5;

// Spider
pub const SPIDER_TIMER: u64 = 10_000_000;
pub const SPIDER_SPAWN_RATE: u32 = 500_000;
pub const SPIDER_AVERAGE_SPAWN_HEIGHT: i64 = 500_000;
pub const SPIDER_DIRECTION_CHANGE_RATE: u32 = 70_000;
pub const SPIDER_SPEED: i64 = 275_000;
/// Ceiling of the spider's speed as it grows level after level.
pub const SPIDER_MAX_SPEED: i64 = 6_000_000;
pub const SPIDER_SIZE: i64 = 16_000;
pub const SPIDER_ATTACK_RATE: u32 = 100_000;
pub const SPIDER_LEAVE_RATE: u32 = 800_000;
/// Half-width of the band around the centre where a centering spider stops.
pub const SPIDER_CENTER_EPSILON: i64 = 2_000;

// Scorpion
pub const SCORPION_SPAWN_RATE: u32 = 500;
pub const SCORPION_SPAWN_HEIGHT: i64 = 100_000;
pub const SCORPION_SPEED: i64 = 250_000;
pub const SCORPION_SIZE: i64 = 16_000;

// Scoring
pub const MUSHROOM_REWARD: u32 = 1;
pub const SEGMENT_REWARD: u32 = 10;
pub const HEAD_REWARD: u32 = 100;
pub const BEETLE_REWARD: u32 = 15;
pub const SPIDER_REWARD: u32 = 500;
pub const SCORPION_REWARD: u32 = 1000;

} // verus!
