//! Tuning constants of the simulation.
use vstd::prelude::*;

verus! {

/// Micro-units in one world unit.
pub const UNIT: i64 = 1_000_000;

/// Milli-units per second in one world unit per second.
pub const SPEED_UNIT: i64 = 1_000;

/// Bound on the magnitude of every stored coordinate, size and velocity.
pub const LIMIT: i64 = 17_592_186_044_416;

/// Longest collection of one kind that a level holds.
pub const MAX_ITEMS: usize = 1_000_000;

/// Longest frame, in milliseconds, that one update accepts.
pub const MAX_DT_MS: i64 = 4_096;

/// Gravity: each millisecond adds this many milli-units per second
/// to the downward velocity (800 units per second squared).
pub const GRAVITY: i64 = 800;

/// Horizontal damping applied once per frame, as the fraction
/// `DAMP_NUM / DAMP_DEN`.
pub const DAMP_NUM: i64 = 4;

pub const DAMP_DEN: i64 = 5;

/// Multipliers are stored in thousandths.
pub const BOOST_ONE: i64 = 1_000;

pub const SPEED_BOOST: i64 = 1_500;

pub const JUMP_BOOST: i64 = 1_300;

/// Walking speed per thousandth of speed multiplier (200 units/s at 1.0).
pub const WALK_SPEED: i64 = 200;

/// Jump impulse per thousandth of jump multiplier (500 units/s upwards at 1.0).
pub const JUMP_SPEED: i64 = 500;

/// Upward velocity after a stomp (300 units/s).
pub const STOMP_BOUNCE: i64 = -300_000;

/// Patrol speed of an enemy (50 units/s).
pub const ENEMY_SPEED: i64 = 50_000;

pub const PLAYER_SIZE: i64 = 32 * UNIT;

pub const ENEMY_SIZE: i64 = 24 * UNIT;

pub const COIN_SIZE: i64 = 16 * UNIT;

pub const POWERUP_SIZE: i64 = 20 * UNIT;

/// Where the player starts each level and returns after losing a life.
pub const START_X: i64 = 100 * UNIT;

pub const START_Y: i64 = 480 * UNIT;

pub const START_LIVES: i64 = 3;

/// A player whose top lies below this line has fallen off the world.
pub const WORLD_BOTTOM: i64 = 700 * UNIT;

/// An enemy whose bottom lies at most this far below a platform's top
/// stands on it, for the purpose of turning at its edges.
pub const STAND_TOLERANCE: i64 = 10 * UNIT;

/// The goal trigger spans this wide from the goal point, from
/// `GOAL_ABOVE` above it to `GOAL_BELOW` below it.
pub const GOAL_WIDTH: i64 = 50 * UNIT;

pub const GOAL_ABOVE: i64 = 100 * UNIT;

pub const GOAL_BELOW: i64 = 50 * UNIT;

pub const STOMP_SCORE: i64 = 100;

pub const COIN_SCORE: i64 = 10;

pub const POWERUP_SCORE: i64 = 50;

pub const GOAL_SCORE: i64 = 1_000;

/// Half the screen, for centring the camera on the player.
pub const HALF_SCREEN_W: i64 = 400 * UNIT;

pub const HALF_SCREEN_H: i64 = 300 * UNIT;

} // verus!
