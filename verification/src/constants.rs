//! Game tuning constants.
//!
//! Continuous quantities (positions, velocities, multipliers) are fixed-point
//! integers scaled by `FX_SCALE`: a value of 1000 stands for 1.0 grid cells.
//! Angles are measured in tenths of a degree, so `FULL_TURN` units make one
//! revolution.

use vstd::prelude::*;

verus! {

/// Fixed-point scale: milli-cells per cell.
pub const FX_SCALE: i64 = 1000;

/// Largest magnitude a velocity component may take, in milli-cells per frame.
pub const VEL_LIMIT: i64 = 1_000_000_000;

/// Largest value an upgrade multiplier may take, in milli-units (x500000.0).
pub const MULT_LIMIT: i64 = 500_000_000;

/// Largest value the game speed multiplier may take, in milli-units (x400.0).
pub const GAME_SPEED_LIMIT: i64 = 400_000;

/// Positions always stay below this bound: the field is at most
/// `u16::MAX` cells wide, so wrapped coordinates are below 65535 cells.
pub const POS_LIMIT: i64 = 65_535_000;

// --- Difficulty progression ---
pub const INITIAL_ASTEROID_SPAWN_RATE: u64 = 100;
pub const INITIAL_MAX_ASTEROIDS: usize = 4;
/// Frames between difficulty escalations (60 seconds at 60 frames/second).
pub const DIFFICULTY_INCREASE_INTERVAL_FRAMES: u64 = 3600;
/// Spawn rate decay on escalation: multiplied by 9/10 and rounded.
pub const ASTEROID_SPAWN_RATE_DECREASE_NUM: u64 = 9;
pub const ASTEROID_SPAWN_RATE_DECREASE_DEN: u64 = 10;
pub const MIN_ASTEROID_SPAWN_RATE: u64 = 10;
/// Initial game speed multiplier, milli-units (0.1).
pub const INITIAL_GAME_SPEED_MULTIPLIER: i64 = 100;
/// Additive escalation step of the game speed multiplier, milli-units (0.05).
pub const GAME_SPEED_MULTIPLIER_INCREASE: i64 = 50;

// --- Ship handling ---
/// Angular impulse per rotate input, tenth-degrees per frame (about 0.1 rad).
pub const SHIP_ROTATION_SPEED: i64 = 57;
/// Thrust acceleration per frame, milli-cells per frame squared (0.05).
pub const SHIP_THRUST_POWER: i64 = 50;
/// Linear friction multiplier per frame, milli-units (0.98).
pub const SHIP_FRICTION: i64 = 980;
/// Angular friction multiplier per frame, milli-units (0.9).
pub const SHIP_ANGULAR_FRICTION: i64 = 900;
/// Largest magnitude the angular velocity may take, tenth-degrees per frame.
pub const ANGULAR_VEL_LIMIT: i64 = 100_000;

// --- Bullets ---
/// Base bullet speed, milli-cells per frame (2.0).
pub const BULLET_SPEED: i64 = 2000;
pub const BULLET_LIFETIME: u32 = 30;
pub const BULLET_COOLDOWN: u64 = 10;

// --- Scoring ---
pub const SCORE_LARGE_ASTEROID: u32 = 20;
pub const SCORE_MEDIUM_ASTEROID: u32 = 50;
pub const SCORE_SMALL_ASTEROID: u32 = 100;

// --- Health and damage ---
pub const MAX_HEALTH: u32 = 1;
/// Frames of invincibility after a hit (2 seconds).
pub const INVINCIBILITY_FRAMES: u64 = 120;

// --- Upgrades ---
/// Collection radius around the ship, milli-cells (2.0).
pub const UPGRADE_COLLECTION_RADIUS: i64 = 2000;
/// Frames between upgrade box spawns (10 seconds).
pub const UPGRADE_BOX_SPAWN_RATE: u64 = 600;
/// Hits needed to break open an upgrade box.
pub const UPGRADE_BOX_HITS: u32 = 3;

/// Horizontal stretch applied to the aiming indicator, compensating for the
/// aspect ratio of terminal character cells.
pub const TERMINAL_ASPECT_RATIO_COMPENSATION: i64 = 2;

/// Frames a pickup notification banner stays on screen.
pub const BANNER_FRAMES: u64 = 60;

} // verus!
