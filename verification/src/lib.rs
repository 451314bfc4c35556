//! Simulation core of a side-scrolling avoidance game: a player body pulled
//! down by constant gravity and pushed up by discrete flap impulses, a stream
//! of pillar obstacles scrolling toward the player, and strict axis-aligned
//! rectangle collision detection between the two.
//!
//! All quantities are exact fixed-point integers (see `config` for the unit
//! conventions), so every state update is stated and proved exactly.

pub mod collision;
pub mod config;
pub mod obstacle;
pub mod player;
mod sampling;
pub mod world;
