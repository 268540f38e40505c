//! Fixed parameters of the game, in the integer units of the crate.

use vstd::prelude::*;

verus! {

/// One pixel, in length units.
pub const PIXEL: i64 = 1_000;

/// The value 1.0 of a velocity or a scale.
pub const UNIT: i64 = 1_000;

/// Depth layer of the ships.
pub const Z_COORDINATE: i64 = 10_000;

/// Width and height of the player's sprite.
pub const PLAYER_SIZE: (i64, i64) = (144_000, 75_000);

/// Width and height of a laser fired by the player.
pub const PLAYER_LASER_SIZE: (i64, i64) = (9_000, 54_000);

/// Game time that has to pass after a death before the player comes back.
pub const PLAYER_RESPAWN_DELAY: u64 = 2_000;

/// Lives at the start of a game.
pub const PLAYER_MAX_LIVES: u32 = 5;

/// Time after a spawn during which hits are ignored.
pub const PLAYER_INVINCIBLE_DURATION: u64 = 3_000;

/// Width and height of an enemy's sprite.
pub const ENEMY_SIZE: (i64, i64) = (144_000, 75_000);

/// Width and height of a laser fired by an enemy.
pub const ENEMY_LASER_SIZE: (i64, i64) = (17_000, 55_000);

/// Number of cells of the explosion sheet.
pub const EXPLOSION_LEN: usize = 16;

/// Time between two cells of an explosion.
pub const EXPLOSION_FRAME_DURATION: u64 = 50;

/// Time between two attempts to add an enemy.
pub const ENEMY_SPAWN_INTERVAL: u64 = 250;

/// Time between two attempts to put the player's ship in play.
pub const PLAYER_SPAWN_INTERVAL: u64 = 500;

/// Scale at which sprites are shown.
pub const SPRITE_SCALE: i64 = 500;

/// Simulation ticks per second; one tick lasts the inverse of it.
pub const TICK_RATE: i64 = 60;

/// Pixels per second covered at velocity 1.0.
pub const BASE_SPEED: i64 = 500;

/// Enemies that share one formation template.
pub const FORMATION_MEMBERS_MAX: u32 = 2;

/// Entries of the high-score history.
pub const HISTORY_LEN: usize = 4;

/// Distance beyond the window's edge at which a movable entity is removed.
pub const DESPAWN_MARGIN: i64 = 200_000;

/// One radian, in angle units; also the value 1.0 of a cosine or sine.
pub const ANGLE_UNIT: i64 = 1_000_000;

/// Pi, in angle units.
pub const PI_MICRO: i64 = 3_141_593;

/// Largest absolute speed of a formation.
pub const SPEED_MAX: i64 = 1_000_000_000;

/// Largest absolute coordinate the simulation keeps; positions saturate there.
pub const COORD_MAX: i64 = 1_000_000_000;

} // verus!
