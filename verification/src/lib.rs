//! A minimal 2D arcade shooter core: a player ship moves inside a fixed
//! arena and fires bullets upward, while enemies spawn on a timer at the
//! top of the screen and descend until they leave it.
//!
//! All coordinates are screen-space half-units (origin top-left, y growing
//! downward): one half-unit is half of one screen unit, so that every
//! per-tick motion delta (2.5 screen units for a bullet, 0.5 for an enemy,
//! 1.0 for the player) is a whole number of half-units. Times are
//! milliseconds on a monotonic clock.

use vstd::prelude::*;

pub mod laws;
pub mod objects;
pub mod state;

verus! {

/// Half-units per screen unit.
pub const SCALE: i64 = 2;

/// Right edge of the arena (730 screen units), in half-units.
pub const ARENA_MAX_X: i64 = 1460;

/// Bottom edge of the arena (550 screen units), in half-units.
pub const ARENA_MAX_Y: i64 = 1100;

/// How far the player moves per held directional key per tick
/// (1.0 screen unit), in half-units.
pub const PLAYER_STEP: i64 = 2;

/// How far a bullet rises per tick (2.5 screen units), in half-units.
pub const BULLET_SPEED: i64 = 5;

/// How far an enemy descends per tick (0.5 screen units), in half-units.
pub const ENEMY_SPEED: i64 = 1;

/// Minimum time between two shots, in milliseconds.
pub const FIRE_RATE_MS: u64 = 100;

/// Minimum time between two enemy spawns, in milliseconds.
pub const ENEMY_SPAWN_RATE_MS: u64 = 1000;

/// Exclusive upper bound of the enemy spawn abscissa, in screen units.
pub const SPAWN_X_RANGE: u64 = 730;

/// A screen-space position in half-units.
#[derive(Clone, Copy, PartialEq, Eq, Structural, Debug)]
pub struct Pos {
    pub x: i64,
    pub y: i64,
}

/// The keyboard controls polled once per tick: one fire key and four
/// directional keys, each reported as held or not.
#[derive(Clone, Copy, PartialEq, Eq, Structural, Debug)]
pub struct InputState {
    pub fire: bool,
    pub up: bool,
    pub down: bool,
    pub left: bool,
    pub right: bool,
}

/// Which image a draw call shows.
#[derive(Clone, Copy, PartialEq, Eq, Structural, Debug)]
pub enum Sprite {
    Player,
    Bullet,
    Enemy,
}

/// One request to the renderer: show `sprite` at `pos`.
///
/// The draw phase is a pure projection of the game state into a sequence
/// of these; it mutates nothing.
#[derive(Clone, Copy, PartialEq, Eq, Structural, Debug)]
pub struct DrawCall {
    pub sprite: Sprite,
    pub pos: Pos,
}

} // verus!
