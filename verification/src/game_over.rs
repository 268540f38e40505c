//! The end of a game: the overlay, the high-score entry, replay and exit.

use vstd::prelude::*;
use crate::consts::PLAYER_MAX_LIVES;
use crate::entity::{GameState, PlayerState};
use crate::text::{inserted, History};

verus! {

/// Where a game stands.
#[derive(Clone, Copy, PartialEq, Eq, Structural, Debug)]
pub enum GamePhase {
    /// The game is in play.
    Playing,
    /// The game is over and the overlay is not shown yet.
    OverPending,
    /// The game is over and the overlay is shown.
    OverShown,
}

impl GameState {
    /// The phase that the two flags stand for.
    pub open spec fn phase(self) -> GamePhase {
        if !self.is_over {
            GamePhase::Playing
        } else if !self.show_over {
            GamePhase::OverPending
        } else {
            GamePhase::OverShown
        }
    }

    /// Computes [`GameState::phase`].
    pub fn get_phase(&self) -> (p: GamePhase)
        ensures
            p == self.phase(),
    {
        if !self.is_over {
            GamePhase::Playing
        } else if !self.show_over {
            GamePhase::OverPending
        } else {
            GamePhase::OverShown
        }
    }
}

/// What the caller has to do after a step of the game-over handling.
#[derive(Clone, Copy, PartialEq, Eq, Structural, Debug)]
pub struct GameOverOutcome {
    /// Show the overlay and the history block.
    pub show_overlay: bool,
    /// Remove the overlay and show lives and scores anew: a new game began.
    pub replay: bool,
    /// End the process.
    pub exit: bool,
}

/// What a step asks of the caller, for the game state before it and the keys
/// newly pressed. The overlay is asked for once, when the game is over and it
/// is not shown yet. While the game is over the continue key starts a new
/// game; the quit key ends the process unless the continue key is pressed
/// too.
pub open spec fn outcome_of(gs: GameState, continue_pressed: bool, quit_pressed: bool)
    -> GameOverOutcome {
    GameOverOutcome {
        show_overlay: gs.is_over && !gs.show_over,
        replay: gs.is_over && continue_pressed,
        exit: gs.is_over && !continue_pressed && quit_pressed,
    }
}

/// The game state after a step.
pub open spec fn game_after(gs: GameState, continue_pressed: bool) -> GameState {
    if !gs.is_over {
        gs
    } else if continue_pressed {
        GameState { show_over: false, is_over: false }
    } else {
        GameState { show_over: true, is_over: true }
    }
}

/// The player's record after a step: a new game has all lives and no total
/// score.
pub open spec fn player_after(gs: GameState, ps: PlayerState, continue_pressed: bool)
    -> PlayerState {
    if gs.is_over && continue_pressed {
        PlayerState { lives: PLAYER_MAX_LIVES, total_score: 0, ..ps }
    } else {
        ps
    }
}

/// The history after a step: the total score is offered to it when the
/// overlay is first shown, and at no other time.
pub open spec fn history_after(gs: GameState, ps: PlayerState, h: Seq<u32>) -> Seq<u32> {
    if gs.is_over && !gs.show_over {
        inserted(h, ps.total_score)
    } else {
        h
    }
}

/// One step of the game-over handling. While the game is in play nothing
/// happens. Once it is over, the first step shows the overlay and offers the
/// total score to the history. From then on the continue key starts a new
/// game, with the game state reset and the player's lives and total score
/// restored, and the quit key asks for the end of the process.
pub fn game_over_system(
    game_state: &mut GameState,
    player_state: &mut PlayerState,
    history: &mut History,
    continue_pressed: bool,
    quit_pressed: bool,
) -> (outcome: GameOverOutcome)
    ensures
        outcome == outcome_of(*old(game_state), continue_pressed, quit_pressed),
        *final(game_state) == game_after(*old(game_state), continue_pressed),
        *final(player_state) == player_after(*old(game_state), *old(player_state), continue_pressed),
        final(history)@ == history_after(*old(game_state), *old(player_state), old(history)@),
{
    let mut outcome = GameOverOutcome { show_overlay: false, replay: false, exit: false };
    if !game_state.is_over {
        return outcome;
    }
    if !game_state.show_over {
        game_state.show_over = true;
        history.record(player_state.total_score);
        outcome.show_overlay = true;
    }
    if continue_pressed {
        game_state.reset();
        player_state.replay();
        outcome.replay = true;
    } else if quit_pressed {
        outcome.exit = true;
    }
    outcome
}

/// The phases follow each other in one order: a game in play stays so until
/// its flag is set from outside; a game that is over shows its overlay at
/// the next step; from there only the continue key leads back into play.
pub proof fn phases_follow_in_order(gs: GameState, continue_pressed: bool)
    ensures
        gs.phase() == GamePhase::Playing ==> game_after(gs, continue_pressed) == gs,
        gs.phase() != GamePhase::Playing && !continue_pressed ==> game_after(
            gs,
            continue_pressed,
        ).phase() == GamePhase::OverShown,
        gs.phase() != GamePhase::Playing && continue_pressed ==> game_after(
            gs,
            continue_pressed,
        ).phase() == GamePhase::Playing,
{
}

/// A replay gives back all lives and clears the total score, and leaves the
/// history as it is once the overlay was shown.
pub proof fn replay_keeps_the_history(gs: GameState, ps: PlayerState, h: Seq<u32>)
    requires
        gs.phase() == GamePhase::OverShown,
    ensures
        player_after(gs, ps, true).lives == PLAYER_MAX_LIVES,
        player_after(gs, ps, true).total_score == 0,
        history_after(gs, ps, h) == h,
        game_after(gs, true).phase() == GamePhase::Playing,
{
}

} // verus!
