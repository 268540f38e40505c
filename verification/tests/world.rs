use invaders::components::{
    Entity, ExplosionTimer, Kind, Movable, Owner, SpriteSize, Velocity,
};
use invaders::entity::WinSize;
use invaders::formation::Formation;
use invaders::movement::movable_system;
use invaders::consts::{ENEMY_SPAWN_INTERVAL, PLAYER_SPAWN_INTERVAL};
use invaders::timer::Timer;
use invaders::world::{find_single_player, World};

fn laser(world: &mut World, at: (i64, i64), velocity: (i64, i64)) -> u64 {
    world.spawn(
        Kind::Laser(Owner::FromPlayer),
        at,
        (500, 500),
        SpriteSize((9_000, 54_000)),
        Some(Velocity { x: velocity.0, y: velocity.1 }),
        Some(Movable { auto_despawn: true }),
    )
}

fn ship(world: &mut World, at: (i64, i64)) -> u64 {
    world.spawn(
        Kind::Player,
        at,
        (500, 500),
        SpriteSize((144_000, 75_000)),
        Some(Velocity { x: 0, y: 0 }),
        Some(Movable { auto_despawn: false }),
    )
}

fn window() -> WinSize {
    WinSize { w: 598_000, h: 676_000 }
}

#[test]
fn new_world_is_empty() {
    let w = World::new();
    assert_eq!(w.len(), 0);
    assert_eq!(w.ids_left(), u64::MAX);
    assert_eq!(World::default().len(), 0);
}

#[test]
fn spawn_gives_rising_handles() {
    let mut w = World::new();
    assert_eq!(laser(&mut w, (1, 2), (0, 1_000)), 0);
    assert_eq!(ship(&mut w, (3, 4)), 1);
    assert_eq!(w.len(), 2);
    assert_eq!(w.ids_left(), u64::MAX - 2);
    assert_eq!(
        w.get(0),
        Entity {
            id: 0,
            kind: Kind::Laser(Owner::FromPlayer),
            translation: (1, 2),
            scale: (500, 500),
            size: SpriteSize((9_000, 54_000)),
            velocity: Some(Velocity { x: 0, y: 1_000 }),
            movable: Some(Movable { auto_despawn: true }),
        }
    );
    assert_eq!(w.get(1).id, 1);
    assert_eq!(w.get(1).kind, Kind::Player);
}

#[test]
fn spawn_brings_positions_into_range() {
    let mut w = World::new();
    laser(&mut w, (i64::MAX, i64::MIN), (0, 0));
    assert_eq!(w.get(0).translation, (1_000_000_000, -1_000_000_000));
}

#[test]
fn replace_keeps_the_place() {
    let mut w = World::new();
    laser(&mut w, (0, 0), (0, 0));
    laser(&mut w, (5, 5), (0, 0));
    let mut e = w.get(1);
    e.translation = (7, 8);
    w.replace(1, e);
    assert_eq!(w.get(1).translation, (7, 8));
    assert_eq!(w.get(0).translation, (0, 0));
    assert_eq!(w.len(), 2);
}

#[test]
fn retain_removes_the_flagged() {
    let mut w = World::new();
    laser(&mut w, (0, 0), (0, 0));
    laser(&mut w, (1, 1), (0, 0));
    laser(&mut w, (2, 2), (0, 0));
    laser(&mut w, (3, 3), (0, 0));
    w.retain(&vec![true, false, true, false]);
    assert_eq!(w.len(), 2);
    assert_eq!(w.get(0).id, 1);
    assert_eq!(w.get(1).id, 3);
    assert_eq!(laser(&mut w, (9, 9), (0, 0)), 4);
}

#[test]
fn translations_of_kept_lists_the_places() {
    let mut w = World::new();
    laser(&mut w, (0, 0), (0, 0));
    laser(&mut w, (1, 1), (0, 0));
    laser(&mut w, (2, 2), (0, 0));
    assert_eq!(w.translations_of_kept(&vec![false, true, false]), vec![(0, 0), (2, 2)]);
    assert_eq!(w.len(), 3);
}

#[test]
fn single_player_is_found() {
    let mut w = World::new();
    assert_eq!(find_single_player(&w), None);
    laser(&mut w, (0, 0), (0, 0));
    assert_eq!(find_single_player(&w), None);
    ship(&mut w, (0, 0));
    assert_eq!(find_single_player(&w), Some(1));
    laser(&mut w, (0, 0), (0, 0));
    assert_eq!(find_single_player(&w), Some(1));
    ship(&mut w, (0, 0));
    assert_eq!(find_single_player(&w), None);
}

#[test]
fn roles_are_told_apart() {
    let f = Formation {
        start: (0, 0),
        radius: (1, 1),
        pivot: (0, 0),
        speed: 0,
        angle: 0,
    };
    let mut w = World::new();
    ship(&mut w, (0, 0));
    w.spawn(Kind::Enemy(f), (0, 0), (500, 500), SpriteSize((1, 1)), None, None);
    w.spawn(Kind::Laser(Owner::FromEnemy), (0, 0), (500, 500), SpriteSize((1, 1)), None, None);
    assert!(w.get(0).has_player_role());
    assert!(!w.get(0).has_enemy_role());
    assert!(w.get(1).has_enemy_role());
    assert!(!w.get(1).has_player_role());
    assert!(w.get(2).is_laser_from(Owner::FromEnemy));
    assert!(!w.get(2).is_laser_from(Owner::FromPlayer));
    assert!(!w.get(1).is_laser_from(Owner::FromEnemy));
}

#[test]
fn sprite_size_from_a_pair() {
    assert_eq!(SpriteSize::from((144_000, 75_000)), SpriteSize((144_000, 75_000)));
}

#[test]
fn lasers_move_by_their_velocity() {
    let mut w = World::new();
    laser(&mut w, (10, 20), (0, 1_000));
    laser(&mut w, (10, 20), (-500, -1_300));
    movable_system(&mut w, &window());
    assert_eq!(w.len(), 2);
    assert_eq!(w.get(0).translation, (10, 20 + 8_333));
    assert_eq!(w.get(1).translation, (10 - 4_166, 20 - 10_833));
}

#[test]
fn entity_at_199_pixels_beyond_the_edge_stays() {
    let mut w = World::new();
    laser(&mut w, (0, 338_000 + 199_000), (0, 0));
    movable_system(&mut w, &window());
    assert_eq!(w.len(), 1);
    assert_eq!(w.get(0).translation, (0, 537_000));
}

#[test]
fn entity_at_201_pixels_beyond_the_edge_is_removed() {
    let mut w = World::new();
    laser(&mut w, (0, 338_000 + 201_000), (0, 0));
    laser(&mut w, (0, 0), (0, 0));
    movable_system(&mut w, &window());
    assert_eq!(w.len(), 1);
    assert_eq!(w.get(0).id, 1);
}

#[test]
fn entity_at_the_margin_stays() {
    let mut w = World::new();
    laser(&mut w, (0, 338_000 + 200_000), (0, 0));
    laser(&mut w, (299_000 + 200_000, 0), (0, 0));
    laser(&mut w, (0, -338_000 - 200_000), (0, 0));
    laser(&mut w, (-299_000 - 200_000, 0), (0, 0));
    movable_system(&mut w, &window());
    assert_eq!(w.len(), 4);
}

#[test]
fn entity_leaves_by_the_position_after_the_move() {
    let mut w = World::new();
    laser(&mut w, (0, 338_000 + 200_000), (0, 1_000));
    laser(&mut w, (0, 338_000 + 200_000 + 1), (0, -1_000));
    movable_system(&mut w, &window());
    assert_eq!(w.len(), 1);
    assert_eq!(w.get(0).id, 1);
    assert_eq!(w.get(0).translation, (0, 538_001 - 8_333));
}

#[test]
fn player_never_leaves_by_the_margin() {
    let mut w = World::new();
    ship(&mut w, (0, 900_000));
    movable_system(&mut w, &window());
    assert_eq!(w.len(), 1);
}

#[test]
fn entity_without_velocity_or_mark_is_not_moved() {
    let mut w = World::new();
    w.spawn(
        Kind::Laser(Owner::FromEnemy),
        (0, 2_000_000),
        (500, 500),
        SpriteSize((1, 1)),
        Some(Velocity { x: 1_000, y: 1_000 }),
        None,
    );
    w.spawn(
        Kind::Laser(Owner::FromEnemy),
        (0, 2_000_000),
        (500, 500),
        SpriteSize((1, 1)),
        None,
        Some(Movable { auto_despawn: true }),
    );
    movable_system(&mut w, &window());
    assert_eq!(w.len(), 2);
    assert_eq!(w.get(0).translation, (0, 2_000_000));
    assert_eq!(w.get(1).translation, (0, 2_000_000));
}

#[test]
fn step_of_a_single_entity() {
    let mut w = World::new();
    laser(&mut w, (0, 0), (1_000, -1_000));
    let e = w.get(0).step();
    assert_eq!(e.translation, (8_333, -8_333));
    assert_eq!(e.id, 0);
}

#[test]
fn timer_repeats() {
    let mut t = Timer::repeating(50);
    assert_eq!(t.get_period(), 50);
    assert_eq!(t.get_elapsed(), 0);
    assert!(!t.tick(20));
    assert_eq!(t.get_elapsed(), 20);
    assert!(!t.tick(29));
    assert!(t.tick(1));
    assert_eq!(t.get_elapsed(), 0);
    assert!(t.tick(120));
    assert_eq!(t.get_elapsed(), 20);
    assert!(t.tick(u64::MAX));
    assert_eq!(t.get_elapsed(), (20 + (u64::MAX % 50)) % 50);
    assert_eq!(t.get_period(), 50);
}

#[test]
fn spawn_gates_fire_at_their_intervals() {
    let mut enemy_gate = Timer::repeating(ENEMY_SPAWN_INTERVAL);
    let mut player_gate = Timer::repeating(PLAYER_SPAWN_INTERVAL);
    let mut enemy_fires = 0;
    let mut player_fires = 0;
    let mut frame = 0;
    while frame < 1_000 {
        if enemy_gate.tick(16) {
            enemy_fires += 1;
        }
        if player_gate.tick(16) {
            player_fires += 1;
        }
        frame += 1;
    }
    assert_eq!(enemy_fires, 64);
    assert_eq!(player_fires, 32);
}

#[test]
fn explosion_timer_starts_at_zero() {
    let t = ExplosionTimer::default();
    assert_eq!(t.0.get_period(), 50);
    assert_eq!(t.0.get_elapsed(), 0);
    assert_eq!(t, ExplosionTimer(Timer::repeating(50)));
}
