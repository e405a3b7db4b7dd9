//! Tunable configuration values shared across the simulation.

use vstd::prelude::*;

verus! {

/// Arena width, in world units.
pub const WIDTH: i32 = 600;
/// Arena height, in world units.
pub const HEIGHT: i32 = 400;

/// Pawn movement step per fixed tick, in world units.
pub const PAWN_SPEED: u32 = 200;
/// Pawn movement step per fixed tick when sprinting, in world units.
pub const PAWN_SPEED_FAST: u32 = 300;

/// Pawn hitbox half-width, in world units.
pub const PAWN_HALF_WIDTH: u32 = 8;
/// Pawn hitbox half-height, in world units.
pub const PAWN_HALF_HEIGHT: u32 = 11;

/// Health a freshly spawned pawn starts with.
pub const PAWN_STARTING_HEALTH: u32 = 100;

/// Score awarded for a non-lethal weapon hit.
pub const HIT_SCORE: u32 = 10;

/// Bound on arena half-extents accepted in a spawn configuration.
pub const ARENA_LIMIT: i32 = 100_000;
/// Bound on hitbox half-extents, radii and per-tick speeds.
pub const SIZE_LIMIT: u32 = 10_000;
/// Bound on the coordinates of any live entity.
pub const POS_LIMIT: i32 = 200_000;
/// Bound on weapon animation frame indices.
pub const FRAME_LIMIT: u32 = 10_000;
/// Bound on the weapon's frame-advance timer period, in ticks.
pub const PERIOD_LIMIT: u32 = 1_000_000;

/// Candidate draws the spawn director makes before it falls back to a
/// deterministic clear spot.
pub const MAX_SPAWN_ATTEMPTS: u32 = 32;

} // verus!
