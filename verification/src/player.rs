//! The player's ship: when it appears, how it is steered, how it fires.

use vstd::prelude::*;
use crate::components::{Entity, Kind, Movable, Owner, SpriteSize, Velocity};
use crate::consts::{
    COORD_MAX, PIXEL, PLAYER_LASER_SIZE, PLAYER_RESPAWN_DELAY, PLAYER_SIZE, SPRITE_SCALE, UNIT,
};
use crate::entity::{level_for_score, GameLevel, GameState, PlayerState, WinSize};
use crate::geometry::{clamp_coord, div_toward_zero, saturate, trunc_div};
use crate::random::gen_ratio;
use crate::census::{
    census_of_concat, census_of_none, census_of_push, census_of_same_places, enemies_in,
};
use crate::world::{find_single_player, player_position, World};

verus! {

/// Decides at random whether the player's guns are ready in this tick: with a
/// chance of ten in sixty.
pub fn player_fire_criteria() -> (ready: bool) {
    gen_ratio(10, 60)
}

/// Whether a ship is due at game time `now`: none is in play, and the player
/// was never shot in this life or more than the respawn delay has passed
/// since.
pub open spec fn respawn_due(ps: PlayerState, now: u64) -> bool {
    !ps.on && (ps.last_shot is None || now > ps.last_shot->0 + PLAYER_RESPAWN_DELAY)
}

/// Height at which the ship appears: half its scaled height plus 5 pixels
/// above the lower edge of the window.
pub open spec fn player_start_y(win: WinSize) -> int {
    trunc_div(-win.h, 2) + trunc_div(PLAYER_SIZE.1 / 2 * SPRITE_SCALE, UNIT as int) + 5 * PIXEL
}

/// The ship as it appears: at rest in the middle of the lower edge, never
/// removed for leaving the screen.
pub open spec fn new_player(id: u64, win: WinSize) -> Entity {
    World::spawned(
        id,
        Kind::Player,
        (0, clamp_coord(player_start_y(win))),
        (SPRITE_SCALE, SPRITE_SCALE),
        SpriteSize(PLAYER_SIZE),
        Some(Velocity { x: 0, y: 0 }),
        Some(Movable { auto_despawn: false }),
    )
}

/// Puts the ship in play where the game is not over and a ship is due at game
/// time `now`; the life then starts at wall-clock time `wall_now`. Returns
/// whether it did.
pub fn player_spawn_system(
    world: &mut World,
    player_state: &mut PlayerState,
    game_state: &GameState,
    now: u64,
    wall_now: u64,
    win_size: &WinSize,
) -> (spawned: bool)
    requires
        old(world).wf(),
        !game_state.is_over && respawn_due(*old(player_state), now) ==> old(world).next_id()
            < u64::MAX,
    ensures
        final(world).wf(),
        spawned == (!game_state.is_over && respawn_due(*old(player_state), now)),
        spawned ==> {
            &&& final(world)@ == old(world)@.push(new_player(old(world).next_id(), *win_size))
            &&& final(world).next_id() == old(world).next_id() + 1
            &&& *final(player_state) == old(player_state).after_spawn(wall_now)
        },
        !spawned ==> {
            &&& final(world)@ == old(world)@
            &&& final(world).next_id() == old(world).next_id()
            &&& *final(player_state) == *old(player_state)
        },
        enemies_in(final(world)@) == enemies_in(old(world)@),
{
    if game_state.is_over {
        return false;
    }
    let due = !player_state.on && match player_state.last_shot {
        None => true,
        Some(t) => now as u128 > t as u128 + PLAYER_RESPAWN_DELAY as u128,
    };
    if !due {
        return false;
    }
    let bottom: i128 = div_toward_zero(-(win_size.h as i128), 2);
    let half: i128 = div_toward_zero((PLAYER_SIZE.1 / 2 * SPRITE_SCALE) as i128, UNIT as i128);
    let y: i64 = saturate(bottom + half + 5 * PIXEL as i128);
    proof {
        census_of_push(world@, new_player(world.next_id(), *win_size));
    }
    world.spawn(
        Kind::Player,
        (0, y),
        (SPRITE_SCALE, SPRITE_SCALE),
        SpriteSize(PLAYER_SIZE),
        Some(Velocity { x: 0, y: 0 }),
        Some(Movable { auto_despawn: false }),
    );
    player_state.spawned_at(wall_now);
    true
}

/// Which of the four directions are asked for.
#[derive(Clone, Copy, PartialEq, Eq, Structural, Debug)]
pub struct Keys {
    pub left: bool,
    pub right: bool,
    pub up: bool,
    pub down: bool,
}

/// The velocity that the keys give a ship at `at`: one unit along each axis in
/// the direction asked for, left before right and up before down, and none
/// toward an edge of the window that the ship has reached.
pub open spec fn steering(at: (i64, i64), win: WinSize, keys: Keys) -> Velocity {
    Velocity {
        x: if keys.left && 2 * at.0 > -win.w {
            (-UNIT) as i64
        } else if keys.right && 2 * at.0 < win.w {
            UNIT
        } else {
            0
        },
        y: if keys.up && 2 * at.1 < win.h {
            UNIT
        } else if keys.down && 2 * at.1 > -win.h {
            (-UNIT) as i64
        } else {
            0
        },
    }
}

/// The ship after the keys were read.
pub open spec fn steered(e: Entity, win: WinSize, keys: Keys) -> Entity {
    Entity { velocity: Some(steering(e.translation, win, keys)), ..e }
}

/// Sets the velocity of the ship from the keys; see [`steering`]. Nothing
/// happens unless the arena holds exactly one player, and that one has a
/// velocity.
pub fn player_keyboard_event_system(world: &mut World, win_size: &WinSize, keys: Keys)
    requires
        old(world).wf(),
    ensures
        final(world).wf(),
        final(world).next_id() == old(world).next_id(),
        final(world)@ == match player_position(old(world)@) {
            Some(p) => if old(world)@[p].velocity is Some {
                old(world)@.update(p, steered(old(world)@[p], *win_size, keys))
            } else {
                old(world)@
            },
            None => old(world)@,
        },
        enemies_in(final(world)@) == enemies_in(old(world)@),
{
    match find_single_player(world) {
        Some(p) => {
            let e = world.get(p);
            if e.velocity.is_some() {
                let x2: i128 = 2 * e.translation.0 as i128;
                let y2: i128 = 2 * e.translation.1 as i128;
                let w: i128 = win_size.w as i128;
                let h: i128 = win_size.h as i128;
                let vx: i64 = if keys.left && x2 > -w {
                    -UNIT
                } else if keys.right && x2 < w {
                    UNIT
                } else {
                    0
                };
                let vy: i64 = if keys.up && y2 < h {
                    UNIT
                } else if keys.down && y2 > -h {
                    -UNIT
                } else {
                    0
                };
                world.replace(p, Entity { velocity: Some(Velocity { x: vx, y: vy }), ..e });
                proof {
                    census_of_same_places(old(world)@, world@);
                }
            }
        },
        None => {},
    }
}

/// Distance of the outer guns from the middle of the ship: half the scaled
/// width of the ship, less 5 pixels.
pub open spec fn gun_offset() -> int {
    trunc_div(PLAYER_SIZE.0 / 2 * SPRITE_SCALE, UNIT as int) - 5 * PIXEL
}

/// Where the lasers of one salvo start, sideways from the middle of the ship:
/// one in the middle at the Basic level; two at the outer guns at Middle; the
/// three of both at Strong; at Powerful two more, 10 pixels further out; at
/// Invincible those four and, in place of the middle one, two 5 pixels either
/// side of the middle.
pub open spec fn fire_offsets(level: GameLevel) -> Seq<i64> {
    let o = gun_offset() as i64;
    let far = (gun_offset() + 10 * PIXEL) as i64;
    let near = (5 * PIXEL) as i64;
    match level {
        GameLevel::Basic => seq![0i64],
        GameLevel::Middle => seq![o, (-o) as i64],
        GameLevel::Strong => seq![0i64, o, (-o) as i64],
        GameLevel::Powerful => seq![0i64, o, (-o) as i64, far, (-far) as i64],
        GameLevel::Invincible => seq![near, (-near) as i64, o, (-o) as i64, far, (-far) as i64],
    }
}

/// A level's salvo has one laser at Basic, then two, three, five and six.
pub proof fn salvo_sizes()
    ensures
        fire_offsets(GameLevel::Basic).len() == 1,
        fire_offsets(GameLevel::Middle).len() == 2,
        fire_offsets(GameLevel::Strong).len() == 3,
        fire_offsets(GameLevel::Powerful).len() == 5,
        fire_offsets(GameLevel::Invincible).len() == 6,
        gun_offset() == 31 * PIXEL,
{
}

/// A laser of the player: it starts 15 pixels above the ship at `at`, `offset`
/// to the side, flies straight up at unit velocity, and is removed off
/// screen.
pub open spec fn player_laser(id: u64, at: (i64, i64), offset: i64) -> Entity {
    World::spawned(
        id,
        Kind::Laser(Owner::FromPlayer),
        ((at.0 + offset) as i64, (at.1 + 15 * PIXEL) as i64),
        (SPRITE_SCALE, SPRITE_SCALE),
        SpriteSize(PLAYER_LASER_SIZE),
        Some(Velocity { x: 0, y: UNIT }),
        Some(Movable { auto_despawn: true }),
    )
}

/// The lasers of one salvo of a ship at `at`, with handles from `first_id` on.
pub open spec fn salvo(at: (i64, i64), level: GameLevel, first_id: u64) -> Seq<Entity> {
    Seq::new(
        fire_offsets(level).len(),
        |j: int| player_laser((first_id + j) as u64, at, fire_offsets(level)[j]),
    )
}

/// Computes [`fire_offsets`].
pub fn offsets_for(level: GameLevel) -> (v: Vec<i64>)
    ensures
        v@ == fire_offsets(level),
        1 <= v@.len() <= 6,
        forall|j: int| 0 <= j < v@.len() ==> -41 * PIXEL <= #[trigger] v@[j] <= 41 * PIXEL,
{
    let o: i64 = PLAYER_SIZE.0 / 2 * SPRITE_SCALE / UNIT - 5 * PIXEL;
    let far: i64 = o + 10 * PIXEL;
    let near: i64 = 5 * PIXEL;
    let mut v: Vec<i64> = Vec::new();
    match level {
        GameLevel::Basic => {
            v.push(0);
        },
        GameLevel::Middle => {
            v.push(o);
            v.push(-o);
        },
        GameLevel::Strong => {
            v.push(0);
            v.push(o);
            v.push(-o);
        },
        GameLevel::Powerful => {
            v.push(0);
            v.push(o);
            v.push(-o);
            v.push(far);
            v.push(-far);
        },
        GameLevel::Invincible => {
            v.push(near);
            v.push(-near);
            v.push(o);
            v.push(-o);
            v.push(far);
            v.push(-far);
        },
    }
    v
}

/// Fires one salvo where the fire key is held and the arena holds exactly
/// one player. The number and the places of the lasers go by the level of the
/// score of this life; see [`fire_offsets`]. Returns the number of lasers.
pub fn player_fire_system(world: &mut World, player_state: &PlayerState, fire_pressed: bool) -> (fired:
    usize)
    requires
        old(world).wf(),
        fire_pressed && player_position(old(world)@) is Some ==> old(world).next_id()
            + fire_offsets(level_for_score(player_state.current_score)).len() <= u64::MAX,
    ensures
        final(world).wf(),
        final(world).next_id() == old(world).next_id() + fired,
        final(world)@ == match player_position(old(world)@) {
            Some(p) => if fire_pressed {
                old(world)@ + salvo(
                    old(world)@[p].translation,
                    level_for_score(player_state.current_score),
                    old(world).next_id(),
                )
            } else {
                old(world)@
            },
            None => old(world)@,
        },
        fired == final(world)@.len() - old(world)@.len(),
        enemies_in(final(world)@) == enemies_in(old(world)@),
{
    let ghost s = world@;
    let p = match find_single_player(world) {
        Some(p) => p,
        None => {
            return 0;
        },
    };
    if !fire_pressed {
        return 0;
    }
    let at = world.get(p).translation;
    let level = player_state.get_fire_level();
    let offsets = offsets_for(level);
    let ghost shots = salvo(at, level, old(world).next_id());
    let m = offsets.len();
    let mut j: usize = 0;
    while j < m
        invariant
            j <= m,
            m == offsets@.len(),
            m <= 6,
            offsets@ == fire_offsets(level),
            forall|k: int| 0 <= k < m ==> -41 * PIXEL <= #[trigger] offsets@[k] <= 41 * PIXEL,
            shots == salvo(at, level, old(world).next_id()),
            -COORD_MAX <= at.0 <= COORD_MAX,
            -COORD_MAX <= at.1 <= COORD_MAX,
            world.wf(),
            world.next_id() == old(world).next_id() + j,
            old(world).next_id() + m <= u64::MAX,
            world@ == s + shots.take(j as int),
        decreases m - j,
    {
        world.spawn(
            Kind::Laser(Owner::FromPlayer),
            (at.0 + offsets[j], at.1 + 15 * PIXEL),
            (SPRITE_SCALE, SPRITE_SCALE),
            SpriteSize(PLAYER_LASER_SIZE),
            Some(Velocity { x: 0, y: UNIT }),
            Some(Movable { auto_despawn: true }),
        );
        j += 1;
    }
    proof {
        census_of_concat(s, shots);
        census_of_none(shots);
    }
    m
}

} // verus!
