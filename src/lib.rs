//! The simulation core of a 2D arcade shooter: a player, enemies, bullets
//! and particles, a layer/mask collision test, a mass-weighted impulse, and
//! the per-frame choreography that ties them together. Geometry is kept in
//! fixed point: one game unit is `fixed::SCALE` sub-units.

pub mod bullet;
pub mod chance;
pub mod charge;
pub mod enemy;
pub mod fixed;
pub mod game_entity;
pub mod particle;
pub mod player;
pub mod sound;
pub mod world;
