//! Simulation core of a Millipede-style arcade shooter.
//!
//! Positions are integer milli-pixels, times are microseconds and
//! probabilities are parts per million, so every rule of the game is
//! stated and proved over exact integer arithmetic.
pub mod animation;
pub mod beetle;
pub mod constants;
pub mod entity;
pub mod explosion;
pub mod game;
pub mod geometry;
pub mod level;
pub mod millipede;
pub mod player;
pub mod projectile;
pub mod score;
pub mod scorpion;
pub mod shroom;
pub mod spider;
pub mod state;
mod rng;
pub mod timer;
pub mod ui;
