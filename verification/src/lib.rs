//! Core simulation for a tile-based miniature golf game.
//!
//! The library advances a single ball across a grid of typed tiles
//! (ground, wall, hole, portal), resolves collisions axis by axis,
//! projects an aim line while the ball is stationary, and drives the
//! top-level play state machine (aiming, hitting, rolling, in-hole,
//! stop).  All continuous quantities (sub-pixel position, velocity,
//! angle, power) are fixed-point integers with one million sub-units
//! per unit, so every rule of the physics is stated and proved exactly.
//!
//! Rendering, windowing and input polling are not part of the library:
//! a driver feeds one `Controls` value per tick into `GameState::update`
//! and reads the resulting geometry back out.

pub mod ball;
pub mod controls;
pub mod fixed;
pub mod game;
pub mod geo;
pub mod map;
pub mod sprites;
pub mod tiles;
pub mod trig;
