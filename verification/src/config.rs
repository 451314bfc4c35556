//! Configuration constants and unit conventions.
//!
//! Every quantity in the simulation is an exact fixed-point integer:
//!
//! - Positions and sizes are in *micro-units*: `1_000_000` micro-units make
//!   one world unit (`MICROS_PER_UNIT`).
//! - Rates (gravity, flap force, scroll speeds) are in *milli-units per
//!   second*: `1_000` of them make one world unit per second.
//! - Step times `dt` are in *milliseconds*.
//!
//! With these scales, `rate * dt` is already a position delta in micro-units
//! (`10^-3 * 10^-3 = 10^-6`), so every motion update is a plain integer
//! product with no division and no rounding anywhere.

use vstd::prelude::*;

verus! {

/// Micro-units per world unit: the scale of positions and sizes.
pub const MICROS_PER_UNIT: i64 = 1_000_000;

/// Milli-rate per (world unit per second): the scale of forces and speeds.
pub const MILLIS_PER_UNIT_RATE: i64 = 1_000;

/// Milliseconds per second: the scale of step times.
pub const MILLIS_PER_SECOND: i64 = 1_000;

/// Side of the player's square bounding box: 50 units.
pub const PLAYER_SIZE: i64 = 50_000_000;

/// Constant downward acceleration magnitude: 200 units per second.
pub const GRAVITY: i64 = 200_000;

/// Player start position x: -500 units (the player never moves horizontally).
pub const PLAYER_START_X: i64 = -500_000_000;

/// Player start position y: 0 units.
pub const PLAYER_START_Y: i64 = 0;

/// Seconds between pillar spawns, in milliseconds: 3.5 s.
pub const PILLAR_SPAWN_INTERVAL: i64 = 3_500;

/// Upward impulse added to the player's force per flap: 1000 units per second.
pub const PLAYER_FORCE_ON_FLAP: i64 = 1_000_000;

/// A force at or below this floor decays straight to zero: 100 units per second.
pub const FORCE_DECAY_FLOOR: i64 = 100_000;

/// Width of a pillar: 30 units.
pub const PILLAR_WIDTH: i64 = 30_000_000;

/// Pillar heights are sampled uniformly from `[0, this)`: 250 units.
pub const PILLAR_HEIGHT_SCALE_FACTOR: i64 = 250_000_000;

/// A pillar's own speed contribution at spawn: 0 units per second.
pub const PILLAR_DEFAULT_SPEED: i64 = 0;

/// Scroll speed the world adds to every pillar: 100 units per second.
pub const WORLD_DEFAULT_SPEED: i64 = 100_000;

/// Pillars spawn at this x: 500 units to the right of the visible area.
pub const PILLAR_SPAWN_X: i64 = 500_000_000;

/// Pillar spawn y-offsets are sampled uniformly from `[-this, this)`: 250 units.
pub const PILLAR_SPAWN_OFFSET_BOUND: i64 = 250_000_000;

/// Default culling threshold: a pillar whose centre scrolls left of -1000
/// units is fully behind the player's view and is removed.
pub const PILLAR_CULL_X: i64 = -1_000_000_000;

/// Machine bound on coordinates and sizes (10^9 world units), chosen so that
/// doubled coordinate differences and one step of motion fit in `i64`.
pub const COORD_LIMIT: i64 = 1_000_000_000_000_000;

/// Machine bound on forces and speeds (10^9 units per second).
pub const RATE_LIMIT: i64 = 1_000_000_000_000;

/// Machine bound on a single step time (1000 s).
pub const DT_LIMIT: i64 = 1_000_000;

} // verus!
