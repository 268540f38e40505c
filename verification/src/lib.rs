//! Simulation core of an arcade shooter: level thresholds, player, enemy and
//! game state, formation paths, movement, collision resolution and the
//! high-score history.
//!
//! The core works on integers only. Lengths and positions are in thousandths
//! of a pixel, velocities and scales in thousandths of a unit, angles in
//! micro-radians and times in milliseconds.

pub mod consts;
pub mod tools;
pub mod entity;
pub mod text;
pub mod geometry;
mod random;
pub mod formation;
pub mod timer;
pub mod components;
pub mod world;
pub mod census;
pub mod movement;
pub mod collision;
pub mod damage;
pub mod explosion;
pub mod enemy;
pub mod player;
pub mod game_over;
pub mod audio_ctrl;
pub mod settings;
