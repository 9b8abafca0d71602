//! Rules of a small tower-defense game, kept apart from the engine that draws it.
//!
//! Every function here decides something from plain values: which mode comes
//! next, which target a tower shoots at, which projectiles hit, what a click
//! selects. The engine side reads input, measures distances and spawns
//! entities; it hands the numbers in and carries the decisions out.

pub mod camera;
pub mod camera_controls;
pub mod data_load;
pub mod distance;
pub mod input_system;
pub mod main_menu;
pub mod pixel_camera;
pub mod projectile;
pub mod state;
pub mod target;
pub mod tower;
pub mod tower_build;
