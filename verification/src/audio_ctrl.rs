//! Which sound goes with which event.

use vstd::prelude::*;
use crate::entity::{GameLevel, Settings};

verus! {

/// The sounds of the game.
#[derive(Clone, Copy, PartialEq, Eq, Structural, Debug)]
pub enum Sound {
    LevelUpgrade,
    Explosion,
    PlayerFail,
    ShotLow,
    ShotMid,
    ShotHigh,
}

/// The pitch of a shot at a level: low at Basic and Middle, mid at Strong,
/// high above.
pub open spec fn shot_sound(level: GameLevel) -> Sound {
    match level {
        GameLevel::Basic | GameLevel::Middle => Sound::ShotLow,
        GameLevel::Strong => Sound::ShotMid,
        GameLevel::Powerful | GameLevel::Invincible => Sound::ShotHigh,
    }
}

/// The sound for a level gained, unless sound is off.
pub fn play_leve_upgrade(settings: &Settings) -> (sound: Option<Sound>)
    ensures
        sound == if settings.mute { None } else { Some(Sound::LevelUpgrade) },
{
    if !settings.mute {
        Some(Sound::LevelUpgrade)
    } else {
        None
    }
}

/// The sound for the explosion number `index` of a tick: only the first of
/// explosions at the same time is heard, and none while sound is off.
pub fn play_explosion(index: usize, settings: &Settings) -> (sound: Option<Sound>)
    ensures
        sound == if !settings.mute && index == 0 { Some(Sound::Explosion) } else { None },
{
    if !settings.mute && index == 0 {
        Some(Sound::Explosion)
    } else {
        None
    }
}

/// The sound for the player's death, unless sound is off.
pub fn play_game_over(settings: &Settings) -> (sound: Option<Sound>)
    ensures
        sound == if settings.mute { None } else { Some(Sound::PlayerFail) },
{
    if !settings.mute {
        Some(Sound::PlayerFail)
    } else {
        None
    }
}

/// The sound for a shot at the fire level `game_leve`, unless sound is off.
pub fn play_fire_shot(game_leve: GameLevel, settings: &Settings) -> (sound: Option<Sound>)
    ensures
        sound == if settings.mute { None } else { Some(shot_sound(game_leve)) },
{
    if !settings.mute {
        let music = match game_leve {
            GameLevel::Basic | GameLevel::Middle => Sound::ShotLow,
            GameLevel::Strong => Sound::ShotMid,
            GameLevel::Powerful | GameLevel::Invincible => Sound::ShotHigh,
        };
        Some(music)
    } else {
        None
    }
}

} // verus!
