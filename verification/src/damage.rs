//! Hits of enemy lasers on the player.

use vstd::prelude::*;
use crate::collision::explosion_request;
use crate::components::{Entity, Kind, Owner, SpriteSize};
use crate::consts::{PLAYER_INVINCIBLE_DURATION, UNIT};
use crate::entity::{GameState, PlayerState};
use crate::tools::elapsed;
use crate::census::{census_of_kept_enemies, census_of_push, enemies_in};
use crate::world::{find_single_player, kept, no_flags, player_position, World};

verus! {

/// Whether the entity at `l` is an enemy's laser that touches the entity at `p`.
pub open spec fn is_threat(s: Seq<Entity>, p: int, l: int) -> bool {
    &&& 0 <= l < s.len()
    &&& s[l].is_laser_of(Owner::FromEnemy)
    &&& s[l].touches(s[p])
}

/// Position of the first enemy laser at or after `from` that touches the
/// entity at `p`; the length where there is none.
pub open spec fn first_threat(s: Seq<Entity>, p: int, from: int) -> int
    decreases s.len() - from,
{
    if from >= s.len() {
        s.len() as int
    } else if is_threat(s, p, from) {
        from
    } else {
        first_threat(s, p, from + 1)
    }
}

/// A position with the properties of the first threat is the first threat.
pub proof fn first_threat_is_unique(s: Seq<Entity>, p: int, from: int, l: int)
    requires
        0 <= from <= l <= s.len(),
        forall|k: int| from <= k < l ==> !is_threat(s, p, k),
        l < s.len() ==> is_threat(s, p, l),
    ensures
        first_threat(s, p, from) == l,
    decreases l - from,
{
    if from < l {
        first_threat_is_unique(s, p, from + 1, l);
    }
}

/// The player's record after a hit at wall-clock time `wall_now` and game time
/// `game_time`: an invincible player whose invincibility has not run out is
/// untouched; else the invincibility is over and the player is shot.
pub open spec fn struck(ps: PlayerState, wall_now: u64, game_time: u64) -> PlayerState {
    let checked = ps.after_hit_check(wall_now);
    if checked.invincible {
        checked
    } else {
        checked.after_shot(game_time)
    }
}

/// Whether a hit at wall-clock time `wall_now` kills.
pub open spec fn lethal(ps: PlayerState, wall_now: u64) -> bool {
    !ps.after_hit_check(wall_now).invincible
}

/// A hit within the invincible duration after the spawn costs no life and
/// changes nothing; a hit after it costs a life and takes the ship out of
/// play. A clock that reads earlier than the spawn counts as no time passed.
pub proof fn invincibility_lasts_its_duration(ps: PlayerState, wall_now: u64, game_time: u64)
    requires
        ps.invincible,
        ps.lives > 0,
    ensures
        elapsed(ps.born, wall_now) <= PLAYER_INVINCIBLE_DURATION ==> struck(ps, wall_now, game_time)
            == ps,
        elapsed(ps.born, wall_now) > PLAYER_INVINCIBLE_DURATION ==> {
            &&& struck(ps, wall_now, game_time).lives == ps.lives - 1
            &&& !struck(ps, wall_now, game_time).on
            &&& struck(ps, wall_now, game_time).last_shot == Some(game_time)
        },
        wall_now < ps.born ==> struck(ps, wall_now, game_time) == ps,
{
}

/// The game state after the player was shot and has `lives` left: the game is
/// over once no life is left.
pub open spec fn after_death(gs: GameState, lives: u32) -> GameState {
    GameState { is_over: gs.is_over || lives == 0, ..gs }
}

/// A player on the last life who is hit after the invincibility ran out has
/// no life left, and the game is over.
pub proof fn last_life_ends_the_game(ps: PlayerState, gs: GameState, wall_now: u64, game_time: u64)
    requires
        ps.lives == 1,
        lethal(ps, wall_now),
    ensures
        struck(ps, wall_now, game_time).lives == 0,
        after_death(gs, struck(ps, wall_now, game_time).lives).is_over,
{
}

/// Flags for the player at `p` and the laser at `l`.
pub open spec fn both_gone(n: nat, p: int, l: int) -> Seq<bool> {
    no_flags(n).update(p, true).update(l, true)
}

/// The player and the laser that hits it: the only player of the arena and
/// the first laser of an enemy, in arena order, that touches it. `None` where
/// the arena does not hold exactly one player, or no such laser touches it.
pub open spec fn hit_on_player(s: Seq<Entity>) -> Option<(int, int)> {
    match player_position(s) {
        Some(p) => if first_threat(s, p, 0) < s.len() {
            Some((p, first_threat(s, p, 0)))
        } else {
            None
        },
        None => None,
    }
}

/// The arena after the player at `p` died of the laser at `l`: both are
/// removed, and an explosion request is left at the player's place.
pub open spec fn after_player_death(s: Seq<Entity>, p: int, l: int, next_id: u64) -> Seq<Entity> {
    kept(s, both_gone(s.len(), p, l)).push(explosion_request(next_id, s[p].translation))
}

/// One pass of the enemies' lasers against the player. Nothing happens unless
/// the arena holds exactly one player and a laser of an enemy touches it.
/// Only the first such laser in arena order counts. While the player is
/// invincible the hit is ignored. Else the player and the laser are removed,
/// an explosion request is left at the player's place, the death is recorded
/// at game time `game_time`, and the game is over once no life is left.
/// Returns whether the player died.
pub fn enemy_laser_hit_player_system(
    world: &mut World,
    player_state: &mut PlayerState,
    game_state: &mut GameState,
    wall_now: u64,
    game_time: u64,
) -> (died: bool)
    requires
        old(world).wf(),
        hit_on_player(old(world)@) is Some && lethal(*old(player_state), wall_now) ==> old(
            world,
        ).next_id() < u64::MAX,
    ensures
        final(world).wf(),
        match hit_on_player(old(world)@) {
            None => !died && *final(player_state) == *old(player_state),
            Some((p, l)) => {
                &&& died == lethal(*old(player_state), wall_now)
                &&& *final(player_state) == struck(*old(player_state), wall_now, game_time)
                &&& died ==> {
                    &&& final(world)@ == after_player_death(
                        old(world)@,
                        p,
                        l,
                        old(world).next_id(),
                    )
                    &&& final(world).next_id() == old(world).next_id() + 1
                    &&& *final(game_state) == after_death(
                        *old(game_state),
                        final(player_state).lives,
                    )
                }
            },
        },
        !died ==> {
            &&& final(world)@ == old(world)@
            &&& final(world).next_id() == old(world).next_id()
            &&& *final(game_state) == *old(game_state)
        },
        enemies_in(final(world)@) == enemies_in(old(world)@),
{
    let ghost s = world@;
    let n = world.len();
    let p = match find_single_player(world) {
        Some(p) => p,
        None => {
            return false;
        },
    };
    let player = world.get(p);
    let mut l: usize = 0;
    let mut found = false;
    while l < n && !found
        invariant
            l <= n,
            n == s.len(),
            world@ == s,
            p < n,
            player == s[p as int],
            !found ==> forall|k: int| 0 <= k < l ==> !is_threat(s, p as int, k),
            found ==> l < n && is_threat(s, p as int, l as int) && forall|k: int|
                0 <= k < l ==> !is_threat(s, p as int, k),
        decreases n - l + if found { 0int } else { 1int },
    {
        let laser = world.get(l);
        if laser.is_laser_from(Owner::FromEnemy) && laser.collides_with(&player) {
            found = true;
        } else {
            l += 1;
        }
    }
    proof {
        first_threat_is_unique(s, p as int, 0, l as int);
    }
    if !found {
        return false;
    }
    if !player_state.hit_to_die_at(wall_now) {
        return false;
    }
    let lives = player_state.shot(game_time);
    if lives == 0 {
        game_state.is_over = true;
    }
    let mut gone: Vec<bool> = Vec::new();
    let mut i: usize = 0;
    while i < n
        invariant
            i <= n,
            gone@.len() == i,
            forall|k: int| 0 <= k < i ==> gone@[k] == (k == p || k == l),
        decreases n - i,
    {
        gone.push(i == p || i == l);
        i += 1;
    }
    assert(gone@ =~= both_gone(n as nat, p as int, l as int));
    proof {
        census_of_kept_enemies(s, gone@);
        census_of_push(kept(s, gone@), explosion_request(world.next_id(), player.translation));
    }
    world.retain(&gone);
    world.spawn(Kind::ExplosionToSpawn, player.translation, (UNIT, UNIT), SpriteSize((0, 0)), None, None);
    true
}

} // verus!
