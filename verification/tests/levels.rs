use invaders::entity::{EnemyState, GameLevel, GameState, PlayerState, Settings, WinSize};

#[test]
fn level_thresholds_are_exact() {
    assert_eq!(PlayerState::compute_game_level(0), GameLevel::Basic);
    assert_eq!(PlayerState::compute_game_level(9), GameLevel::Basic);
    assert_eq!(PlayerState::compute_game_level(10), GameLevel::Middle);
    assert_eq!(PlayerState::compute_game_level(29), GameLevel::Middle);
    assert_eq!(PlayerState::compute_game_level(30), GameLevel::Strong);
    assert_eq!(PlayerState::compute_game_level(59), GameLevel::Strong);
    assert_eq!(PlayerState::compute_game_level(60), GameLevel::Powerful);
    assert_eq!(PlayerState::compute_game_level(99), GameLevel::Powerful);
    assert_eq!(PlayerState::compute_game_level(100), GameLevel::Invincible);
    assert_eq!(PlayerState::compute_game_level(u32::MAX), GameLevel::Invincible);
}

#[test]
fn level_never_falls_with_the_score() {
    let mut last = PlayerState::compute_game_level(0).ordinal();
    let mut score: u32 = 1;
    while score <= 300 {
        let rank = PlayerState::compute_game_level(score).ordinal();
        assert!(rank >= last);
        last = rank;
        score += 1;
    }
    assert_eq!(last, 4);
}

#[test]
fn levels_are_ordered() {
    assert!(GameLevel::Basic < GameLevel::Middle);
    assert!(GameLevel::Middle < GameLevel::Strong);
    assert!(GameLevel::Strong < GameLevel::Powerful);
    assert!(GameLevel::Powerful < GameLevel::Invincible);
    assert!(PlayerState::compute_game_level(9) < PlayerState::compute_game_level(10));
    assert!(PlayerState::compute_game_level(10) <= PlayerState::compute_game_level(29));
}

#[test]
fn ordinals_follow_the_order_of_the_levels() {
    assert_eq!(GameLevel::Basic.ordinal(), 0);
    assert_eq!(GameLevel::Middle.ordinal(), 1);
    assert_eq!(GameLevel::Strong.ordinal(), 2);
    assert_eq!(GameLevel::Powerful.ordinal(), 3);
    assert_eq!(GameLevel::Invincible.ordinal(), 4);
}

#[test]
fn fire_level_goes_by_the_score_of_the_life() {
    let mut p = PlayerState::new(0);
    p.current_score = 9;
    p.total_score = 30;
    assert_eq!(p.get_fire_level(), GameLevel::Basic);
    assert_eq!(p.get_game_level(), GameLevel::Strong);
    p.current_score = 10;
    assert_eq!(p.get_fire_level(), GameLevel::Middle);
}

#[test]
fn new_player_state_has_all_lives() {
    let p = PlayerState::new(77);
    assert!(!p.on);
    assert_eq!(p.last_shot, None);
    assert_eq!(p.born, 77);
    assert!(p.invincible);
    assert_eq!(p.current_score, 0);
    assert_eq!(p.total_score, 0);
    assert_eq!(p.lives, 5);
}

#[test]
fn default_player_state_is_born_now() {
    let before = invaders::tools::now_unix_millis();
    let p = PlayerState::default();
    let after = invaders::tools::now_unix_millis();
    assert!(before <= p.born && p.born <= after);
    assert_eq!(p, PlayerState::new(p.born));
}

#[test]
fn shot_takes_a_life_and_the_ship() {
    let mut p = PlayerState::new(0);
    p.spawned_at(10);
    assert!(p.on);
    assert_eq!(p.shot(1_500), 4);
    assert!(!p.on);
    assert_eq!(p.last_shot, Some(1_500));
    assert_eq!(p.lives, 4);
}

#[test]
fn shot_without_lives_stays_at_zero() {
    let mut p = PlayerState::new(0);
    p.lives = 0;
    assert_eq!(p.shot(3), 0);
    assert_eq!(p.lives, 0);
    assert_eq!(p.last_shot, Some(3));
}

#[test]
fn spawned_at_resets_the_life() {
    let mut p = PlayerState::new(0);
    p.current_score = 12;
    p.total_score = 40;
    p.invincible = false;
    p.shot(900);
    p.spawned_at(5_000);
    assert!(p.on);
    assert_eq!(p.last_shot, None);
    assert_eq!(p.born, 5_000);
    assert!(p.invincible);
    assert_eq!(p.current_score, 0);
    assert_eq!(p.total_score, 40);
    assert_eq!(p.lives, 4);
}

#[test]
fn spawned_reads_the_clock() {
    let mut p = PlayerState::new(0);
    p.current_score = 3;
    let before = invaders::tools::now_unix_millis();
    p.spawned();
    let after = invaders::tools::now_unix_millis();
    assert!(before <= p.born && p.born <= after);
    assert!(p.on);
    assert!(p.invincible);
    assert_eq!(p.current_score, 0);
}

#[test]
fn replay_restores_lives_and_total_score() {
    let mut p = PlayerState::new(0);
    p.lives = 0;
    p.total_score = 55;
    p.current_score = 7;
    p.replay();
    assert_eq!(p.lives, 5);
    assert_eq!(p.total_score, 0);
    assert_eq!(p.current_score, 7);
}

#[test]
fn increase_score_counts_in_both_scores() {
    let mut p = PlayerState::new(0);
    p.total_score = 9;
    p.current_score = 2;
    p.increase_score();
    assert_eq!(p.total_score, 10);
    assert_eq!(p.current_score, 3);
}

#[test]
fn hit_within_the_invincible_duration_is_ignored() {
    let mut p = PlayerState::new(1_000);
    assert!(!p.hit_to_die_at(1_000));
    assert!(!p.hit_to_die_at(3_999));
    assert!(!p.hit_to_die_at(4_000));
    assert!(p.invincible);
}

#[test]
fn hit_after_the_invincible_duration_kills() {
    let mut p = PlayerState::new(1_000);
    assert!(p.hit_to_die_at(4_001));
    assert!(!p.invincible);
    assert!(p.hit_to_die_at(1_000));
}

#[test]
fn clock_before_the_spawn_counts_as_no_time() {
    let mut p = PlayerState::new(10_000);
    assert!(!p.hit_to_die_at(0));
    assert!(p.invincible);
}

#[test]
fn hit_to_die_reads_the_clock() {
    let mut p = PlayerState::new(0);
    assert!(p.hit_to_die());
    assert!(!p.invincible);
    let mut q = PlayerState::new(u64::MAX);
    assert!(!q.hit_to_die());
    assert!(q.invincible);
}

#[test]
fn enemy_state_table() {
    let mut e = EnemyState::default();
    assert_eq!(e, EnemyState { count: 0, level: GameLevel::Basic, level_count: 2, velocity: -500 });
    assert!(e.update(GameLevel::Middle));
    assert_eq!((e.level_count, e.velocity), (3, -700));
    assert!(e.update(GameLevel::Strong));
    assert_eq!((e.level_count, e.velocity), (4, -900));
    assert!(e.update(GameLevel::Powerful));
    assert_eq!((e.level_count, e.velocity), (5, -1_100));
    assert!(e.update(GameLevel::Invincible));
    assert_eq!((e.level_count, e.velocity), (6, -1_300));
    assert!(e.update(GameLevel::Basic));
    assert_eq!((e.level, e.level_count, e.velocity), (GameLevel::Basic, 2, -500));
}

#[test]
fn enemy_state_update_to_the_same_level_changes_nothing() {
    let mut e = EnemyState { count: 3, level: GameLevel::Strong, level_count: 9, velocity: 1 };
    assert!(!e.update(GameLevel::Strong));
    assert_eq!(e, EnemyState { count: 3, level: GameLevel::Strong, level_count: 9, velocity: 1 });
    assert!(e.update(GameLevel::Middle));
    assert_eq!(e, EnemyState { count: 3, level: GameLevel::Middle, level_count: 3, velocity: -700 });
}

#[test]
fn game_state_reset_clears_both_flags() {
    let mut g = GameState { show_over: true, is_over: true };
    g.reset();
    assert_eq!(g, GameState { show_over: false, is_over: false });
    assert_eq!(GameState::default(), g);
}

#[test]
fn settings_start_muted() {
    assert!(Settings::default().mute);
}

#[test]
fn window_size_check() {
    assert!(WinSize { w: 598_000, h: 676_000 }.is_playable());
    assert!(WinSize { w: 4, h: 0 }.is_playable());
    assert!(!WinSize { w: 3, h: 10 }.is_playable());
    assert!(!WinSize { w: 10, h: -1 }.is_playable());
    assert!(!WinSize { w: 1_000_000_001, h: 10 }.is_playable());
    assert!(!WinSize { w: 10, h: 1_000_000_001 }.is_playable());
}
