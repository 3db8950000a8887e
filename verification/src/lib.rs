//! Gameplay core of a 2D tile-based action platformer.
//!
//! Every movable entity owns a velocity map, into which the systems that
//! want to move it write one slot each ([`physics`]). Once per frame the
//! entity is swept against the static colliders of the room and clamped to
//! the nearest contact on each axis ([`collision`]), and then moved by the sum
//! of its slots. Rooms are decoded from tile-layer images, kept on a stack,
//! and left through connection tiles ([`map`]).
//!
//! World coordinates are fixed-point integers: one world unit is
//! [`vector::UNIT`] steps, so every position, size and velocity is an exact
//! integer, and the contracts are stated over mathematical integers. Times
//! are milliseconds.

pub mod vector;
pub mod geometry;
pub mod string_map;
pub mod asset_loaders;
pub mod collision;
pub mod physics;
pub mod map;
pub mod player;
pub mod enemies;
pub mod combat;
pub mod checkpoint;
