//! The state that outlives single entities: window size, difficulty levels and
//! the player, enemy and game records.

use vstd::prelude::*;
use crate::consts::{COORD_MAX, PLAYER_INVINCIBLE_DURATION, PLAYER_MAX_LIVES};
use crate::tools::{elapsed, elapsed_since, now_unix_millis};

verus! {

/// Width and height of the play area.
#[derive(Clone, Copy, PartialEq, Eq, Structural, Debug)]
pub struct WinSize {
    pub w: i64,
    pub h: i64,
}

impl WinSize {
    /// Whether the play area has a size the simulation can work on: at least
    /// four length units wide, not negative in height, and within the
    /// coordinate range.
    pub open spec fn playable(self) -> bool {
        4 <= self.w <= COORD_MAX && 0 <= self.h <= COORD_MAX
    }

    /// Computes [`WinSize::playable`].
    pub fn is_playable(&self) -> (ok: bool)
        ensures
            ok == self.playable(),
    {
        4 <= self.w && self.w <= COORD_MAX && 0 <= self.h && self.h <= COORD_MAX
    }
}

/// Difficulty tier derived from a score, from the lowest to the highest.
#[derive(Clone, Copy, PartialEq, Eq, PartialOrd, Ord, Structural, Debug)]
pub enum GameLevel {
    Basic,
    Middle,
    Strong,
    Powerful,
    Invincible,
}

impl GameLevel {
    /// Position of the level in the order Basic < Middle < Strong < Powerful < Invincible.
    pub open spec fn rank(self) -> nat {
        match self {
            GameLevel::Basic => 0,
            GameLevel::Middle => 1,
            GameLevel::Strong => 2,
            GameLevel::Powerful => 3,
            GameLevel::Invincible => 4,
        }
    }

    /// Computes [`GameLevel::rank`].
    pub fn ordinal(self) -> (r: u8)
        ensures
            r == self.rank(),
    {
        match self {
            GameLevel::Basic => 0,
            GameLevel::Middle => 1,
            GameLevel::Strong => 2,
            GameLevel::Powerful => 3,
            GameLevel::Invincible => 4,
        }
    }

    /// Number of enemies kept in play at this level.
    pub open spec fn enemy_count(self) -> u32 {
        match self {
            GameLevel::Basic => 2,
            GameLevel::Middle => 3,
            GameLevel::Strong => 4,
            GameLevel::Powerful => 5,
            GameLevel::Invincible => 6,
        }
    }

    /// Vertical velocity of enemy lasers at this level; more negative is faster.
    pub open spec fn laser_velocity(self) -> i64 {
        match self {
            GameLevel::Basic => -500i64,
            GameLevel::Middle => -700i64,
            GameLevel::Strong => -900i64,
            GameLevel::Powerful => -1_100i64,
            GameLevel::Invincible => -1_300i64,
        }
    }
}

/// The level that belongs to a score: 0-9 Basic, 10-29 Middle, 30-59 Strong,
/// 60-99 Powerful, 100 and above Invincible.
pub open spec fn level_for_score(score: u32) -> GameLevel {
    if score <= 9 {
        GameLevel::Basic
    } else if score <= 29 {
        GameLevel::Middle
    } else if score <= 59 {
        GameLevel::Strong
    } else if score <= 99 {
        GameLevel::Powerful
    } else {
        GameLevel::Invincible
    }
}

/// A higher score never gives a lower level.
pub proof fn level_for_score_is_monotonic(s1: u32, s2: u32)
    requires
        s1 <= s2,
    ensures
        level_for_score(s1).rank() <= level_for_score(s2).rank(),
{
}

/// Every level is reached, each at the first score of its band.
pub proof fn level_for_score_bands()
    ensures
        forall|s: u32| #[trigger] level_for_score(s).rank() == 0 <==> s <= 9,
        forall|s: u32| #[trigger] level_for_score(s).rank() == 1 <==> 10 <= s <= 29,
        forall|s: u32| #[trigger] level_for_score(s).rank() == 2 <==> 30 <= s <= 59,
        forall|s: u32| #[trigger] level_for_score(s).rank() == 3 <==> 60 <= s <= 99,
        forall|s: u32| #[trigger] level_for_score(s).rank() == 4 <==> 100 <= s,
{
}

/// The lives stay between zero and the lives a game starts with, whatever
/// happens to the player.
pub proof fn lives_stay_in_range(ps: PlayerState, time: u64, now: u64)
    requires
        ps.lives_in_range(),
    ensures
        PlayerState::initial(now).lives_in_range(),
        ps.after_shot(time).lives_in_range(),
        ps.after_spawn(now).lives_in_range(),
        ps.after_hit_check(now).lives_in_range(),
        ps.after_shot(time).lives <= ps.lives,
{
}

/// Enemy population and fire speed for the current level.
#[derive(Clone, Copy, PartialEq, Eq, Structural, Debug)]
pub struct EnemyState {
    /// Enemies alive.
    pub count: u32,
    pub level: GameLevel,
    /// Enemies to keep in play at this level.
    pub level_count: u32,
    /// Vertical velocity of enemy lasers.
    pub velocity: i64,
}

/// Whether the game is over and whether the overlay for it is shown.
#[derive(Clone, Copy, PartialEq, Eq, Structural, Debug)]
pub struct GameState {
    pub show_over: bool,
    pub is_over: bool,
}

/// User settings.
#[derive(Clone, Copy, PartialEq, Eq, Structural, Debug)]
pub struct Settings {
    pub mute: bool,
}

/// The player's record across lives.
#[derive(Clone, Copy, PartialEq, Eq, Structural, Debug)]
pub struct PlayerState {
    /// Whether the player's ship is in play.
    pub on: bool,
    /// Game time of the last death; `None` while there was none since the last spawn.
    pub last_shot: Option<u64>,
    /// Wall-clock time of the last spawn.
    pub born: u64,
    pub invincible: bool,
    /// Enemies destroyed in this life.
    pub current_score: u32,
    /// Enemies destroyed in this game.
    pub total_score: u32,
    pub lives: u32,
}

impl PlayerState {
    /// The record at the start of a game whose clock reads `now`.
    pub open spec fn initial(now: u64) -> PlayerState {
        PlayerState {
            on: false,
            last_shot: None,
            born: now,
            invincible: true,
            current_score: 0,
            total_score: 0,
            lives: PLAYER_MAX_LIVES,
        }
    }

    /// Whether the lives are no more than a game starts with.
    pub open spec fn lives_in_range(self) -> bool {
        self.lives <= PLAYER_MAX_LIVES
    }

    /// The record of a game that starts at wall-clock time `now`.
    pub fn new(now: u64) -> (s: PlayerState)
        ensures
            s == PlayerState::initial(now),
    {
        PlayerState {
            on: false,
            last_shot: None,
            born: now,
            invincible: true,
            current_score: 0,
            total_score: 0,
            lives: PLAYER_MAX_LIVES,
        }
    }

    /// The record after a death at game time `time`.
    pub open spec fn after_shot(self, time: u64) -> PlayerState {
        PlayerState {
            on: false,
            last_shot: Some(time),
            lives: if self.lives > 0 { (self.lives - 1) as u32 } else { 0 },
            ..self
        }
    }

    /// Records a death at game time `time`: the ship is gone and one life is
    /// lost, as long as one is left. Returns the lives that remain.
    pub fn shot(&mut self, time: u64) -> (lives: u32)
        ensures
            *final(self) == old(self).after_shot(time),
            lives == final(self).lives,
    {
        self.on = false;
        self.last_shot = Some(time);
        if self.lives > 0 {
            self.lives -= 1;
        }
        self.lives
    }

    /// The record after a spawn at wall-clock time `now`.
    pub open spec fn after_spawn(self, now: u64) -> PlayerState {
        PlayerState {
            on: true,
            last_shot: None,
            born: now,
            invincible: true,
            current_score: 0,
            ..self
        }
    }

    /// Starts a life at wall-clock time `now`: the ship is in play and
    /// invincible, and the score of the life is zero.
    pub fn spawned_at(&mut self, now: u64)
        ensures
            *final(self) == old(self).after_spawn(now),
    {
        self.on = true;
        self.last_shot = None;
        self.born = now;
        self.invincible = true;
        self.current_score = 0;
    }

    /// Starts a life at the current wall-clock time.
    pub fn spawned(&mut self)
        ensures
            *final(self) == old(self).after_spawn(final(self).born),
    {
        let now = now_unix_millis();
        self.spawned_at(now);
    }

    /// Starts a new game: all lives back, total score zero.
    pub fn replay(&mut self)
        ensures
            *final(self) == (PlayerState { lives: PLAYER_MAX_LIVES, total_score: 0, ..*old(self) }),
    {
        self.lives = PLAYER_MAX_LIVES;
        self.total_score = 0;
    }

    /// Counts one destroyed enemy in both scores.
    pub fn increase_score(&mut self)
        requires
            old(self).total_score < u32::MAX,
            old(self).current_score < u32::MAX,
        ensures
            *final(self) == (PlayerState {
                total_score: (old(self).total_score + 1) as u32,
                current_score: (old(self).current_score + 1) as u32,
                ..*old(self)
            }),
    {
        self.total_score += 1;
        self.current_score += 1;
    }

    /// Whether the invincibility that began at `born` is over at `now`: more
    /// than the invincible duration has passed. A clock that reads earlier than
    /// `born` counts as no time passed.
    pub open spec fn invincibility_over(born: u64, now: u64) -> bool {
        elapsed(born, now) > PLAYER_INVINCIBLE_DURATION
    }

    /// The record after a hit at wall-clock time `now` was judged: invincibility
    /// ends once its duration has passed.
    pub open spec fn after_hit_check(self, now: u64) -> PlayerState {
        PlayerState {
            invincible: self.invincible && !PlayerState::invincibility_over(self.born, now),
            ..self
        }
    }

    /// Judges a hit at wall-clock time `now`. Returns whether it kills: it does
    /// not while the player is invincible, which lasts until more than the
    /// invincible duration has passed since the spawn.
    pub fn hit_to_die_at(&mut self, now: u64) -> (dies: bool)
        ensures
            *final(self) == old(self).after_hit_check(now),
            dies == !final(self).invincible,
    {
        if self.invincible {
            if elapsed_since(self.born, now) > PLAYER_INVINCIBLE_DURATION {
                self.invincible = false;
            }
        }
        !self.invincible
    }

    /// Judges a hit at the current wall-clock time. Whatever the clock reads, a
    /// player who was no longer invincible dies, and only the invincible flag
    /// can change.
    pub fn hit_to_die(&mut self) -> (dies: bool)
        ensures
            dies == !final(self).invincible,
            !old(self).invincible ==> dies,
            *final(self) == (PlayerState { invincible: final(self).invincible, ..*old(self) }),
    {
        let now = now_unix_millis();
        self.hit_to_die_at(now)
    }

    /// Level that shapes the player's fire: by the score of this life.
    pub fn get_fire_level(&self) -> (level: GameLevel)
        ensures
            level == level_for_score(self.current_score),
    {
        Self::compute_game_level(self.current_score)
    }

    /// Level that drives the enemies: by the score of this game.
    pub fn get_game_level(&self) -> (level: GameLevel)
        ensures
            level == level_for_score(self.total_score),
    {
        Self::compute_game_level(self.total_score)
    }

    /// The level of a score; every score has one.
    pub fn compute_game_level(score: u32) -> (level: GameLevel)
        ensures
            level == level_for_score(score),
    {
        if score <= 9 {
            GameLevel::Basic
        } else if score <= 29 {
            GameLevel::Middle
        } else if score <= 59 {
            GameLevel::Strong
        } else if score <= 99 {
            GameLevel::Powerful
        } else {
            GameLevel::Invincible
        }
    }
}

impl Default for PlayerState {
    /// The record of a game that starts now.
    fn default() -> (s: PlayerState)
        ensures
            s == PlayerState::initial(s.born),
    {
        PlayerState::new(now_unix_millis())
    }
}

impl EnemyState {
    /// The state for `level` with `count` enemies alive.
    pub open spec fn at_level(count: u32, level: GameLevel) -> EnemyState {
        EnemyState {
            count,
            level,
            level_count: level.enemy_count(),
            velocity: level.laser_velocity(),
        }
    }

    /// Whether the population target and the fire speed are those of the level.
    pub open spec fn consistent(self) -> bool {
        self == EnemyState::at_level(self.count, self.level)
    }

    /// The state after `update(level)`.
    pub open spec fn updated(self, level: GameLevel) -> EnemyState {
        if self.level == level {
            self
        } else {
            EnemyState::at_level(self.count, level)
        }
    }

    /// Moves to `level`. Nothing changes where the level is the current one;
    /// else the level, the population target and the fire speed are set
    /// together. Returns whether the level changed.
    pub fn update(&mut self, level: GameLevel) -> (changed: bool)
        ensures
            changed == (old(self).level != level),
            *final(self) == old(self).updated(level),
    {
        if self.level == level {
            return false;
        }
        match level {
            GameLevel::Basic => {
                self.level = GameLevel::Basic;
                self.level_count = 2;
                self.velocity = -500;
            },
            GameLevel::Middle => {
                self.level = GameLevel::Middle;
                self.level_count = 3;
                self.velocity = -700;
            },
            GameLevel::Strong => {
                self.level = GameLevel::Strong;
                self.level_count = 4;
                self.velocity = -900;
            },
            GameLevel::Powerful => {
                self.level = GameLevel::Powerful;
                self.level_count = 5;
                self.velocity = -1_100;
            },
            GameLevel::Invincible => {
                self.level = GameLevel::Invincible;
                self.level_count = 6;
                self.velocity = -1_300;
            },
        }
        true
    }
}

impl Default for EnemyState {
    /// No enemy alive, at the Basic level.
    fn default() -> (s: EnemyState)
        ensures
            s == EnemyState::at_level(0, GameLevel::Basic),
    {
        EnemyState { count: 0, level: GameLevel::Basic, level_count: 2, velocity: -500 }
    }
}

/// A consistent state stays consistent under `update`, and then holds the
/// table's values for the level asked for, whatever the level was before.
pub proof fn update_keeps_consistency(s: EnemyState, level: GameLevel)
    requires
        s.consistent(),
    ensures
        s.updated(level).consistent(),
        s.updated(level) == EnemyState::at_level(s.count, level),
{
}

impl GameState {
    /// Clears both flags for a new game.
    pub fn reset(&mut self)
        ensures
            *final(self) == (GameState { show_over: false, is_over: false }),
    {
        self.show_over = false;
        self.is_over = false;
    }
}

impl Default for GameState {
    /// A game in play.
    fn default() -> (s: GameState)
        ensures
            s == (GameState { show_over: false, is_over: false }),
    {
        GameState { show_over: false, is_over: false }
    }
}

impl Default for Settings {
    /// Sound is off until it is switched on.
    fn default() -> (s: Settings)
        ensures
            s.mute,
    {
        Settings { mute: true }
    }
}

} // verus!
