use invaders::audio_ctrl::{play_explosion, play_fire_shot, play_game_over, play_leve_upgrade, Sound};
use invaders::entity::{GameLevel, GameState, PlayerState, Settings};
use invaders::game_over::{game_over_system, GameOverOutcome, GamePhase};
use invaders::settings::{setting_audio_system, AudioIcon};
use invaders::text::History;
use invaders::tools::{elapsed_since, millis_of, now_unix_millis, now_unix_sec, seconds_of};

fn nothing() -> GameOverOutcome {
    GameOverOutcome { show_overlay: false, replay: false, exit: false }
}

#[test]
fn game_in_play_ignores_the_keys() {
    let mut gs = GameState::default();
    let mut ps = PlayerState::new(0);
    ps.total_score = 30;
    ps.lives = 2;
    let mut h = History::new();
    assert_eq!(game_over_system(&mut gs, &mut ps, &mut h, true, true), nothing());
    assert_eq!(gs, GameState::default());
    assert_eq!(ps.lives, 2);
    assert_eq!(ps.total_score, 30);
    assert_eq!(h.entries(), vec![0, 0, 0, 0]);
    assert_eq!(gs.get_phase(), GamePhase::Playing);
}

#[test]
fn game_over_shows_the_overlay_once() {
    let mut gs = GameState { show_over: false, is_over: true };
    assert_eq!(gs.get_phase(), GamePhase::OverPending);
    let mut ps = PlayerState::new(0);
    ps.total_score = 30;
    ps.lives = 0;
    let mut h = History::new();
    let out = game_over_system(&mut gs, &mut ps, &mut h, false, false);
    assert_eq!(out, GameOverOutcome { show_overlay: true, replay: false, exit: false });
    assert_eq!(gs, GameState { show_over: true, is_over: true });
    assert_eq!(gs.get_phase(), GamePhase::OverShown);
    assert_eq!(h.entries(), vec![30, 0, 0, 0]);
    let out = game_over_system(&mut gs, &mut ps, &mut h, false, false);
    assert_eq!(out, nothing());
    assert_eq!(h.entries(), vec![30, 0, 0, 0]);
    assert_eq!(ps.lives, 0);
}

#[test]
fn continue_key_starts_a_new_game() {
    let mut gs = GameState { show_over: true, is_over: true };
    let mut ps = PlayerState::new(0);
    ps.total_score = 30;
    ps.current_score = 4;
    ps.lives = 0;
    let mut h = History([50, 30, 0, 0]);
    let out = game_over_system(&mut gs, &mut ps, &mut h, true, false);
    assert_eq!(out, GameOverOutcome { show_overlay: false, replay: true, exit: false });
    assert_eq!(gs, GameState { show_over: false, is_over: false });
    assert_eq!(ps.lives, 5);
    assert_eq!(ps.total_score, 0);
    assert_eq!(ps.current_score, 4);
    assert_eq!(h.entries(), vec![50, 30, 0, 0]);
}

#[test]
fn quit_key_asks_for_the_exit() {
    let mut gs = GameState { show_over: true, is_over: true };
    let mut ps = PlayerState::new(0);
    ps.lives = 0;
    let mut h = History::new();
    let out = game_over_system(&mut gs, &mut ps, &mut h, false, true);
    assert_eq!(out, GameOverOutcome { show_overlay: false, replay: false, exit: true });
    assert_eq!(gs, GameState { show_over: true, is_over: true });
    assert_eq!(ps.lives, 0);
}

#[test]
fn continue_key_wins_over_the_quit_key() {
    let mut gs = GameState { show_over: true, is_over: true };
    let mut ps = PlayerState::new(0);
    let mut h = History::new();
    let out = game_over_system(&mut gs, &mut ps, &mut h, true, true);
    assert_eq!(out, GameOverOutcome { show_overlay: false, replay: true, exit: false });
}

#[test]
fn keys_count_in_the_step_that_shows_the_overlay() {
    let mut gs = GameState { show_over: false, is_over: true };
    let mut ps = PlayerState::new(0);
    ps.total_score = 12;
    ps.lives = 0;
    let mut h = History::new();
    let out = game_over_system(&mut gs, &mut ps, &mut h, true, false);
    assert_eq!(out, GameOverOutcome { show_overlay: true, replay: true, exit: false });
    assert_eq!(gs, GameState { show_over: false, is_over: false });
    assert_eq!(h.entries(), vec![12, 0, 0, 0]);
    assert_eq!(ps.total_score, 0);
    assert_eq!(ps.lives, 5);
}

#[test]
fn lives_run_out_then_replay() {
    let mut ps = PlayerState::new(0);
    ps.spawned_at(0);
    ps.lives = 1;
    ps.total_score = 20;
    let mut gs = GameState::default();
    let mut h = History([5, 3, 0, 0]);
    assert!(ps.hit_to_die_at(3_001));
    if ps.shot(100) == 0 {
        gs.is_over = true;
    }
    assert!(gs.is_over);
    game_over_system(&mut gs, &mut ps, &mut h, false, false);
    assert_eq!(h.entries(), vec![20, 5, 3, 0]);
    game_over_system(&mut gs, &mut ps, &mut h, true, false);
    assert_eq!(ps.lives, 5);
    assert_eq!(ps.total_score, 0);
    assert!(!gs.is_over);
    assert!(!gs.show_over);
    assert_eq!(h.entries(), vec![20, 5, 3, 0]);
}

#[test]
fn sounds_are_silent_while_muted() {
    let muted = Settings { mute: true };
    assert_eq!(play_leve_upgrade(&muted), None);
    assert_eq!(play_explosion(0, &muted), None);
    assert_eq!(play_game_over(&muted), None);
    assert_eq!(play_fire_shot(GameLevel::Strong, &muted), None);
}

#[test]
fn sounds_by_event() {
    let on = Settings { mute: false };
    assert_eq!(play_leve_upgrade(&on), Some(Sound::LevelUpgrade));
    assert_eq!(play_game_over(&on), Some(Sound::PlayerFail));
    assert_eq!(play_explosion(0, &on), Some(Sound::Explosion));
    assert_eq!(play_explosion(1, &on), None);
    assert_eq!(play_explosion(7, &on), None);
}

#[test]
fn shot_pitch_by_level() {
    let on = Settings { mute: false };
    assert_eq!(play_fire_shot(GameLevel::Basic, &on), Some(Sound::ShotLow));
    assert_eq!(play_fire_shot(GameLevel::Middle, &on), Some(Sound::ShotLow));
    assert_eq!(play_fire_shot(GameLevel::Strong, &on), Some(Sound::ShotMid));
    assert_eq!(play_fire_shot(GameLevel::Powerful, &on), Some(Sound::ShotHigh));
    assert_eq!(play_fire_shot(GameLevel::Invincible, &on), Some(Sound::ShotHigh));
}

#[test]
fn sound_button_toggles() {
    let mut s = Settings::default();
    assert_eq!(setting_audio_system(&mut s, AudioIcon::VoiceOff, false), AudioIcon::VoiceOff);
    assert!(s.mute);
    assert_eq!(setting_audio_system(&mut s, AudioIcon::VoiceOff, true), AudioIcon::VoiceOn);
    assert!(!s.mute);
    assert_eq!(setting_audio_system(&mut s, AudioIcon::VoiceOn, false), AudioIcon::VoiceOn);
    assert!(!s.mute);
    assert_eq!(setting_audio_system(&mut s, AudioIcon::VoiceOn, true), AudioIcon::VoiceOff);
    assert!(s.mute);
}

#[test]
fn clock_reads_the_present() {
    let secs = now_unix_sec();
    let millis = now_unix_millis();
    assert!(secs > 1_600_000_000);
    assert!(millis / 1_000 >= secs);
    assert!(millis / 1_000 <= secs + 5);
}

#[test]
fn elapsed_time_is_clamped_at_zero() {
    assert_eq!(elapsed_since(10, 25), 15);
    assert_eq!(elapsed_since(25, 10), 0);
    assert_eq!(elapsed_since(7, 7), 0);
    assert_eq!(elapsed_since(0, u64::MAX), u64::MAX);
}

#[test]
fn clock_before_the_epoch_reads_zero() {
    assert_eq!(seconds_of(None), 0);
    assert_eq!(millis_of(None), 0);
}

#[test]
fn clock_readings_are_taken_as_they_are() {
    assert_eq!(seconds_of(Some(0)), 0);
    assert_eq!(seconds_of(Some(1_700_000_000)), 1_700_000_000);
    assert_eq!(seconds_of(Some(u64::MAX)), u64::MAX);
    assert_eq!(millis_of(Some(0)), 0);
    assert_eq!(millis_of(Some(1_700_000_000_123)), 1_700_000_000_123);
    assert_eq!(millis_of(Some(u64::MAX as u128)), u64::MAX);
}

#[test]
fn milliseconds_saturate() {
    assert_eq!(millis_of(Some(u64::MAX as u128 + 1)), u64::MAX);
    assert_eq!(millis_of(Some(u128::MAX)), u64::MAX);
}
