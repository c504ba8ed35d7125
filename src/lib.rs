//! Gameplay simulation core of a 2D side-scrolling action game.
//!
//! All quantities are fixed-point integers: lengths are thousandths of a
//! world unit, times are milliseconds, and rates are given per second.
pub mod enemy;
pub mod geometry;
pub mod layers;
pub mod level;
pub mod mech;
pub mod movement;
pub mod physics;
pub mod player;
pub mod projectile;
pub mod random;
pub mod spawner;
pub mod states;
pub mod timer;
pub mod transform;
pub mod transformation;
pub mod weapons;
