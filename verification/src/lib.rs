//! Simulation core of a small two-dimensional platformer: player motion
//! and collision against level geometry, the level grid format, and the
//! level life cycle.

pub mod collision;
pub mod game;
pub mod laws;
pub mod level;
pub mod player;
pub mod tilemap;
pub mod timer;
