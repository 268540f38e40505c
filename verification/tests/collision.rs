use invaders::census::count_enemies;
use invaders::collision::player_laser_hit_enemy_system;
use invaders::components::{Kind, Movable, Owner, SpriteSize, Velocity};
use invaders::damage::enemy_laser_hit_player_system;
use invaders::entity::{EnemyState, GameLevel, GameState, PlayerState};
use invaders::formation::Formation;
use invaders::world::World;

fn path() -> Formation {
    Formation {
        start: (-399_000, 0),
        radius: (100_000, 100_000),
        pivot: (0, 0),
        speed: 500,
        angle: 0,
    }
}

fn enemy(world: &mut World, at: (i64, i64)) -> u64 {
    world.spawn(Kind::Enemy(path()), at, (500, 500), SpriteSize((144_000, 75_000)), None, None)
}

fn shot(world: &mut World, at: (i64, i64)) -> u64 {
    world.spawn(
        Kind::Laser(Owner::FromPlayer),
        at,
        (500, 500),
        SpriteSize((9_000, 54_000)),
        Some(Velocity { x: 0, y: 1_000 }),
        Some(Movable { auto_despawn: true }),
    )
}

fn bolt(world: &mut World, at: (i64, i64)) -> u64 {
    world.spawn(
        Kind::Laser(Owner::FromEnemy),
        at,
        (500, 500),
        SpriteSize((17_000, 55_000)),
        Some(Velocity { x: 0, y: -500 }),
        Some(Movable { auto_despawn: true }),
    )
}

fn ship(world: &mut World, at: (i64, i64)) -> u64 {
    world.spawn(
        Kind::Player,
        at,
        (500, 500),
        SpriteSize((144_000, 75_000)),
        Some(Velocity { x: 0, y: 0 }),
        Some(Movable { auto_despawn: false }),
    )
}

fn enemies(count: u32) -> EnemyState {
    EnemyState { count, level: GameLevel::Basic, level_count: 2, velocity: -500 }
}

#[test]
fn laser_destroys_the_enemy_it_touches() {
    let mut w = World::new();
    enemy(&mut w, (0, 0));
    shot(&mut w, (10_000, -5_000));
    let mut es = enemies(1);
    let mut ps = PlayerState::new(0);
    let hits = player_laser_hit_enemy_system(&mut w, &mut es, &mut ps);
    assert_eq!(hits, 1);
    assert_eq!(w.len(), 1);
    let e = w.get(0);
    assert_eq!(e.id, 2);
    assert_eq!(e.kind, Kind::ExplosionToSpawn);
    assert_eq!(e.translation, (0, 0));
    assert_eq!(e.scale, (1_000, 1_000));
    assert_eq!(e.size, SpriteSize((0, 0)));
    assert_eq!(e.velocity, None);
    assert_eq!(e.movable, None);
    assert_eq!(es.count, 0);
    assert_eq!(ps.total_score, 1);
    assert_eq!(ps.current_score, 1);
}

#[test]
fn laser_that_touches_nothing_flies_on() {
    let mut w = World::new();
    enemy(&mut w, (0, 0));
    shot(&mut w, (76_500, 0));
    shot(&mut w, (0, 64_500));
    shot(&mut w, (-76_500, -64_500));
    let mut es = enemies(1);
    let mut ps = PlayerState::new(0);
    assert_eq!(player_laser_hit_enemy_system(&mut w, &mut es, &mut ps), 0);
    assert_eq!(w.len(), 4);
    assert_eq!(es, enemies(1));
    assert_eq!(ps, PlayerState::new(0));
}

#[test]
fn boxes_that_just_overlap_collide() {
    let mut w = World::new();
    enemy(&mut w, (0, 0));
    shot(&mut w, (76_499, 64_499));
    assert!(w.get(0).collides_with(&w.get(1)));
    assert!(w.get(1).collides_with(&w.get(0)));
    let mut es = enemies(1);
    let mut ps = PlayerState::new(0);
    assert_eq!(player_laser_hit_enemy_system(&mut w, &mut es, &mut ps), 1);
    assert!(!w.get(0).collides_with(&w.get(0)));
}

#[test]
fn each_laser_and_each_enemy_is_consumed_once() {
    let mut w = World::new();
    enemy(&mut w, (1_000, 0));
    shot(&mut w, (0, 0));
    shot(&mut w, (0, 0));
    enemy(&mut w, (-1_000, 0));
    shot(&mut w, (0, 0));
    let mut es = enemies(2);
    let mut ps = PlayerState::new(0);
    ps.total_score = 8;
    ps.current_score = 3;
    let hits = player_laser_hit_enemy_system(&mut w, &mut es, &mut ps);
    assert_eq!(hits, 2);
    assert_eq!(w.len(), 3);
    assert_eq!(w.get(0).id, 4);
    assert_eq!(w.get(0).kind, Kind::Laser(Owner::FromPlayer));
    assert_eq!((w.get(1).id, w.get(1).kind, w.get(1).translation), (5, Kind::ExplosionToSpawn, (1_000, 0)));
    assert_eq!((w.get(2).id, w.get(2).kind, w.get(2).translation), (6, Kind::ExplosionToSpawn, (-1_000, 0)));
    assert_eq!(es, EnemyState { count: 0, level: GameLevel::Middle, level_count: 3, velocity: -700 });
    assert_eq!(ps.total_score, 10);
    assert_eq!(ps.current_score, 5);
    assert_eq!(w.ids_left(), u64::MAX - 7);
}

#[test]
fn more_enemies_than_lasers() {
    let mut w = World::new();
    assert_eq!(count_enemies(&w), 0);
    shot(&mut w, (0, 0));
    enemy(&mut w, (0, 0));
    enemy(&mut w, (0, 0));
    enemy(&mut w, (0, 0));
    assert_eq!(count_enemies(&w), 3);
    let mut es = enemies(3);
    let mut ps = PlayerState::new(0);
    assert_eq!(player_laser_hit_enemy_system(&mut w, &mut es, &mut ps), 1);
    assert_eq!(w.len(), 3);
    assert_eq!(w.get(0).id, 2);
    assert_eq!(w.get(1).id, 3);
    assert_eq!(w.get(2).kind, Kind::ExplosionToSpawn);
    assert_eq!(es.count, 2);
}

#[test]
fn laser_takes_the_first_enemy_in_arena_order() {
    let mut w = World::new();
    enemy(&mut w, (500_000, 0));
    enemy(&mut w, (20_000, 0));
    enemy(&mut w, (0, 0));
    shot(&mut w, (0, 0));
    let mut es = enemies(3);
    let mut ps = PlayerState::new(0);
    assert_eq!(player_laser_hit_enemy_system(&mut w, &mut es, &mut ps), 1);
    assert_eq!(w.len(), 3);
    assert_eq!(w.get(0).id, 0);
    assert_eq!(w.get(1).id, 2);
    assert_eq!(w.get(2).translation, (20_000, 0));
}

#[test]
fn enemy_lasers_do_not_hurt_enemies() {
    let mut w = World::new();
    enemy(&mut w, (0, 0));
    bolt(&mut w, (0, 0));
    ship(&mut w, (0, 0));
    let mut es = enemies(1);
    let mut ps = PlayerState::new(0);
    assert_eq!(player_laser_hit_enemy_system(&mut w, &mut es, &mut ps), 0);
    assert_eq!(w.len(), 3);
}

#[test]
fn empty_world_has_no_collisions() {
    let mut w = World::new();
    let mut es = enemies(0);
    let mut ps = PlayerState::new(0);
    let mut gs = GameState::default();
    assert_eq!(player_laser_hit_enemy_system(&mut w, &mut es, &mut ps), 0);
    assert!(!enemy_laser_hit_player_system(&mut w, &mut ps, &mut gs, 0, 0));
    assert_eq!(w.len(), 0);
}

#[test]
fn invincible_player_survives_a_hit() {
    let mut w = World::new();
    ship(&mut w, (0, -300_000));
    bolt(&mut w, (0, -300_000));
    let mut ps = PlayerState::new(0);
    ps.spawned_at(10_000);
    let mut gs = GameState::default();
    assert!(!enemy_laser_hit_player_system(&mut w, &mut ps, &mut gs, 10_000 + 2_999, 700));
    assert!(!enemy_laser_hit_player_system(&mut w, &mut ps, &mut gs, 10_000 + 3_000, 700));
    assert_eq!(w.len(), 2);
    assert_eq!(ps.lives, 5);
    assert!(ps.on);
    assert!(ps.invincible);
    assert_eq!(ps.last_shot, None);
    assert!(!gs.is_over);
}

#[test]
fn hit_after_the_invincibility_costs_a_life() {
    let mut w = World::new();
    bolt(&mut w, (80_000, -300_000));
    ship(&mut w, (0, -300_000));
    bolt(&mut w, (5_000, -300_000));
    let mut ps = PlayerState::new(0);
    ps.spawned_at(10_000);
    let mut gs = GameState::default();
    assert!(enemy_laser_hit_player_system(&mut w, &mut ps, &mut gs, 10_000 + 3_001, 700));
    assert_eq!(ps.lives, 4);
    assert!(!ps.on);
    assert!(!ps.invincible);
    assert_eq!(ps.last_shot, Some(700));
    assert!(!gs.is_over);
    assert_eq!(w.len(), 2);
    assert_eq!(w.get(0).id, 2);
    assert_eq!(w.get(1).id, 3);
    assert_eq!(w.get(1).kind, Kind::ExplosionToSpawn);
    assert_eq!(w.get(1).translation, (0, -300_000));
}

#[test]
fn only_the_first_laser_hits() {
    let mut w = World::new();
    ship(&mut w, (0, 0));
    bolt(&mut w, (0, 0));
    bolt(&mut w, (0, 0));
    let mut ps = PlayerState::new(0);
    ps.invincible = false;
    ps.on = true;
    let mut gs = GameState::default();
    assert!(enemy_laser_hit_player_system(&mut w, &mut ps, &mut gs, 0, 1));
    assert_eq!(w.len(), 2);
    assert_eq!(w.get(0).id, 2);
    assert_eq!(w.get(0).kind, Kind::Laser(Owner::FromEnemy));
    assert_eq!(ps.lives, 4);
    assert!(!enemy_laser_hit_player_system(&mut w, &mut ps, &mut gs, 0, 2));
    assert_eq!(ps.lives, 4);
}

#[test]
fn player_lasers_do_not_hurt_the_player() {
    let mut w = World::new();
    ship(&mut w, (0, 0));
    shot(&mut w, (0, 0));
    bolt(&mut w, (80_500, 0));
    let mut ps = PlayerState::new(0);
    ps.invincible = false;
    let mut gs = GameState::default();
    assert!(!enemy_laser_hit_player_system(&mut w, &mut ps, &mut gs, 0, 0));
    assert_eq!(w.len(), 3);
    assert_eq!(ps.lives, 5);
}

#[test]
fn two_players_count_as_none() {
    let mut w = World::new();
    ship(&mut w, (0, 0));
    ship(&mut w, (0, 0));
    bolt(&mut w, (0, 0));
    let mut ps = PlayerState::new(0);
    ps.invincible = false;
    let mut gs = GameState::default();
    assert!(!enemy_laser_hit_player_system(&mut w, &mut ps, &mut gs, 0, 0));
    assert_eq!(w.len(), 3);
    assert_eq!(ps.lives, 5);
}

#[test]
fn last_life_ends_the_game() {
    let mut w = World::new();
    ship(&mut w, (0, 0));
    bolt(&mut w, (0, 0));
    let mut ps = PlayerState::new(0);
    ps.spawned_at(1_000);
    ps.lives = 1;
    ps.total_score = 42;
    let mut gs = GameState::default();
    assert!(enemy_laser_hit_player_system(&mut w, &mut ps, &mut gs, 4_001, 9_000));
    assert_eq!(ps.lives, 0);
    assert!(gs.is_over);
    assert!(!gs.show_over);
    assert_eq!(ps.total_score, 42);
}
