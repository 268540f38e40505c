//! Collisions of the player's lasers with the enemies.

use vstd::prelude::*;
use crate::components::{Entity, Kind, Owner, SpriteSize};
use crate::consts::UNIT;
use crate::entity::{level_for_score, EnemyState, PlayerState};
use crate::census::{
    census_of_concat, census_of_kept, census_of_none, enemies_in, enemies_left,
};
use crate::world::{count_set, kept, no_flags, World};

verus! {

impl Entity {
    /// Whether the boxes of two entities overlap.
    pub open spec fn touches(self, other: Entity) -> bool {
        self.bounds().overlaps(other.bounds())
    }

    /// Computes [`Entity::touches`].
    pub fn collides_with(&self, other: &Entity) -> (hit: bool)
        ensures
            hit == self.touches(*other),
    {
        let a = self.bounding_box();
        let b = other.bounding_box();
        a.collides(&b)
    }
}

/// Whether the entity at `e` is an enemy that is still there and that the
/// entity at `l` touches.
pub open spec fn is_target(s: Seq<Entity>, gone: Seq<bool>, l: int, e: int) -> bool {
    &&& 0 <= e < s.len()
    &&& s[e].is_enemy()
    &&& !gone[e]
    &&& s[l].touches(s[e])
}

/// Position of the first target of the laser at `l` at or after `from`; the
/// length where there is none.
pub open spec fn first_target(s: Seq<Entity>, gone: Seq<bool>, l: int, from: int) -> int
    decreases s.len() - from,
{
    if from >= s.len() {
        s.len() as int
    } else if is_target(s, gone, l, from) {
        from
    } else {
        first_target(s, gone, l, from + 1)
    }
}

/// What `first_target` finds: a target with no target between `from` and it,
/// or the length where no target follows `from`.
pub proof fn first_target_is_first(s: Seq<Entity>, gone: Seq<bool>, l: int, from: int)
    requires
        0 <= from,
    ensures
        from <= first_target(s, gone, l, from) || first_target(s, gone, l, from) == s.len(),
        first_target(s, gone, l, from) <= s.len(),
        first_target(s, gone, l, from) < s.len() ==> is_target(
            s,
            gone,
            l,
            first_target(s, gone, l, from),
        ),
        forall|e: int| from <= e < first_target(s, gone, l, from) ==> !is_target(s, gone, l, e),
    decreases s.len() - from,
{
    if from < s.len() && !is_target(s, gone, l, from) {
        first_target_is_first(s, gone, l, from + 1);
    }
}

/// A position with the properties of the first target is the first target.
pub proof fn first_target_is_unique(s: Seq<Entity>, gone: Seq<bool>, l: int, from: int, e: int)
    requires
        0 <= from <= e <= s.len(),
        forall|k: int| from <= k < e ==> !is_target(s, gone, l, k),
        e < s.len() ==> is_target(s, gone, l, e),
    ensures
        first_target(s, gone, l, from) == e,
    decreases e - from,
{
    if from < e {
        first_target_is_unique(s, gone, l, from + 1, e);
    }
}

/// The state of a scan: which entities were consumed, and the pairs of laser
/// and enemy that met, by position and in the order of the hits.
pub struct Scan {
    pub gone: Seq<bool>,
    pub pairs: Seq<(int, int)>,
}

/// The scan after the entities at positions below `k` had their turn as
/// lasers. Each laser of the player, in arena order, consumes the first enemy
/// in arena order that it touches and that no earlier laser consumed, and is
/// consumed with it.
pub open spec fn scan(s: Seq<Entity>, k: int) -> Scan
    decreases k,
{
    if k <= 0 {
        Scan { gone: no_flags(s.len()), pairs: Seq::empty() }
    } else {
        let prev = scan(s, k - 1);
        let l = k - 1;
        let e = first_target(s, prev.gone, l, 0);
        if l < s.len() && s[l].is_laser_of(Owner::FromPlayer) && e < s.len() {
            Scan {
                gone: prev.gone.update(l, true).update(e, true),
                pairs: prev.pairs.push((l, e)),
            }
        } else {
            prev
        }
    }
}

/// The scan of the whole arena.
pub open spec fn full_scan(s: Seq<Entity>) -> Scan {
    scan(s, s.len() as int)
}

/// Number of hits in one pass over the arena.
pub open spec fn hits_in(s: Seq<Entity>) -> nat {
    full_scan(s).pairs.len()
}

/// The pairs of a scan only grow in number from turn to turn.
pub proof fn scan_grows(s: Seq<Entity>, j: int, k: int)
    requires
        0 <= j <= k,
    ensures
        scan(s, j).pairs.len() <= scan(s, k).pairs.len(),
    decreases k - j,
{
    if j < k {
        scan_grows(s, j, k - 1);
    }
}

/// Whether a scan state fits the first `k` turns: every pair is a laser of
/// the player below `k` and an enemy that touch and are both flagged, lasers
/// come in rising order, no enemy occurs twice, only lasers below `k` and
/// enemies are flagged, and two flags are set for each pair.
pub open spec fn scan_inv(s: Seq<Entity>, k: int, sc: Scan) -> bool {
    &&& sc.gone.len() == s.len()
    &&& sc.pairs.len() <= k
    &&& forall|a: int|
        0 <= a < sc.pairs.len() ==> {
            let p = #[trigger] sc.pairs[a];
            &&& 0 <= p.0 < k
            &&& p.0 < s.len()
            &&& 0 <= p.1 < s.len()
            &&& s[p.0].is_laser_of(Owner::FromPlayer)
            &&& s[p.1].is_enemy()
            &&& s[p.0].touches(s[p.1])
            &&& sc.gone[p.0]
            &&& sc.gone[p.1]
        }
    &&& forall|a: int, b: int|
        0 <= a < b < sc.pairs.len() ==> (#[trigger] sc.pairs[a]).0 < (#[trigger] sc.pairs[b]).0
    &&& forall|a: int, b: int|
        0 <= a < b < sc.pairs.len() ==> (#[trigger] sc.pairs[a]).1 != (#[trigger] sc.pairs[b]).1
    &&& forall|i: int|
        0 <= i < s.len() && #[trigger] sc.gone[i] ==> s[i].is_enemy() || (s[i].is_laser_of(
            Owner::FromPlayer,
        ) && i < k)
    &&& count_set(sc.gone) == 2 * sc.pairs.len()
    &&& enemies_left(s, sc.gone) + sc.pairs.len() == enemies_left(s, no_flags(s.len()))
}

/// Setting a flag that was not set adds one to the flags set, and takes one
/// from the enemies left where the entity is an enemy.
pub proof fn flag_counts(s: Seq<Entity>, gone: Seq<bool>, i: int)
    requires
        gone.len() == s.len(),
        0 <= i < s.len(),
        !gone[i],
    ensures
        count_set(gone.update(i, true)) == count_set(gone) + 1,
        s[i].is_enemy() ==> enemies_left(s, gone.update(i, true)) + 1 == enemies_left(s, gone),
        !s[i].is_enemy() ==> enemies_left(s, gone.update(i, true)) == enemies_left(s, gone),
    decreases s.len(),
{
    let g2 = gone.update(i, true);
    if i == s.len() - 1 {
        assert(g2.drop_last() =~= gone.drop_last());
    } else {
        flag_counts(s.drop_last(), gone.drop_last(), i);
        assert(g2.drop_last() =~= gone.drop_last().update(i, true));
    }
}

/// No flag set: none counted.
pub proof fn no_flags_counts(n: nat)
    ensures
        count_set(no_flags(n)) == 0,
    decreases n,
{
    if n > 0 {
        no_flags_counts((n - 1) as nat);
        assert(no_flags(n).drop_last() =~= no_flags((n - 1) as nat));
    }
}

/// The scan keeps its invariant turn by turn.
pub proof fn scan_keeps_inv(s: Seq<Entity>, k: int)
    requires
        0 <= k <= s.len(),
    ensures
        scan_inv(s, k, scan(s, k)),
    decreases k,
{
    if k <= 0 {
        no_flags_counts(s.len());
    } else {
        scan_keeps_inv(s, k - 1);
        let prev = scan(s, k - 1);
        let l = k - 1;
        let e = first_target(s, prev.gone, l, 0);
        first_target_is_first(s, prev.gone, l, 0);
        if s[l].is_laser_of(Owner::FromPlayer) && e < s.len() {
            flag_counts(s, prev.gone, l);
            flag_counts(s, prev.gone.update(l, true), e);
        }
    }
}

/// At most once: in one pass no laser and no enemy is consumed twice, every
/// pair consumed is a laser of the player and an enemy that touch, and the
/// entities removed are two for each pair.
pub proof fn each_hit_consumes_one_laser_and_one_enemy(s: Seq<Entity>)
    ensures
        forall|a: int, b: int|
            0 <= a < b < full_scan(s).pairs.len() ==> (#[trigger] full_scan(s).pairs[a]).0 != (
            #[trigger] full_scan(s).pairs[b]).0,
        forall|a: int, b: int|
            0 <= a < b < full_scan(s).pairs.len() ==> (#[trigger] full_scan(s).pairs[a]).1 != (
            #[trigger] full_scan(s).pairs[b]).1,
        forall|a: int|
            0 <= a < full_scan(s).pairs.len() ==> {
                let p = #[trigger] full_scan(s).pairs[a];
                &&& 0 <= p.0 < s.len()
                &&& 0 <= p.1 < s.len()
                &&& s[p.0].is_laser_of(Owner::FromPlayer)
                &&& s[p.1].is_enemy()
                &&& s[p.0].touches(s[p.1])
            },
        count_set(full_scan(s).gone) == 2 * full_scan(s).pairs.len(),
        hits_in(s) <= enemies_in(s),
        hits_in(s) <= s.len(),
        explosions(s, full_scan(s).pairs, 0).len() == hits_in(s),
{
    scan_keeps_inv(s, s.len() as int);
}

/// The explosion request left where an enemy was destroyed.
pub open spec fn explosion_request(id: u64, at: (i64, i64)) -> Entity {
    World::spawned(id, Kind::ExplosionToSpawn, at, (UNIT, UNIT), SpriteSize((0, 0)), None, None)
}

/// The explosion requests of a pass: one for each pair, in the order of the
/// hits, at the place of the enemy, with handles from `first_id` on.
pub open spec fn explosions(s: Seq<Entity>, pairs: Seq<(int, int)>, first_id: u64) -> Seq<
    Entity,
> {
    Seq::new(
        pairs.len(),
        |j: int| explosion_request((first_id + j) as u64, s[pairs[j].1].translation),
    )
}

/// Pairs of positions as the scan states them.
pub open spec fn positions(pairs: Seq<(usize, usize)>) -> Seq<(int, int)> {
    Seq::new(pairs.len(), |j: int| (pairs[j].0 as int, pairs[j].1 as int))
}

/// The player's record after `hits` enemies were destroyed.
pub open spec fn scored(p: PlayerState, hits: nat) -> PlayerState {
    PlayerState {
        total_score: (p.total_score + hits) as u32,
        current_score: (p.current_score + hits) as u32,
        ..p
    }
}

/// The enemy state after `hits` enemies were destroyed, the player's total
/// score having been `total` before: for each hit one enemy less, then the
/// level of the new total score.
pub open spec fn enemy_state_after(es: EnemyState, total: u32, hits: nat) -> EnemyState
    decreases hits,
{
    if hits == 0 {
        es
    } else {
        let prev = enemy_state_after(es, total, (hits - 1) as nat);
        (EnemyState { count: (prev.count - 1) as u32, ..prev }).updated(
            level_for_score((total + hits) as u32),
        )
    }
}

/// After at least one hit a consistent enemy state holds the table's values
/// for the level of the new total score.
pub proof fn enemy_state_follows_score(es: EnemyState, total: u32, hits: nat)
    requires
        es.consistent(),
        hits <= es.count,
        total + hits <= u32::MAX,
    ensures
        enemy_state_after(es, total, hits).consistent(),
        enemy_state_after(es, total, hits).count == es.count - hits,
        hits > 0 ==> enemy_state_after(es, total, hits).level == level_for_score(
            (total + hits) as u32,
        ),
    decreases hits,
{
    if hits > 0 {
        enemy_state_follows_score(es, total, (hits - 1) as nat);
    }
}

/// One pass of the player's lasers against the enemies. Each laser of the
/// player, in arena order, destroys the first enemy in arena order that it
/// touches and that is still there, and is removed with it; see [`scan`].
/// Each hit leaves an explosion request at the enemy's place, counts in both
/// scores, takes one from the enemies alive and moves the enemy state to the
/// level of the new total score. Returns the number of hits.
pub fn player_laser_hit_enemy_system(
    world: &mut World,
    enemy_state: &mut EnemyState,
    player_state: &mut PlayerState,
) -> (hits: usize)
    requires
        old(world).wf(),
        old(world).next_id() + hits_in(old(world)@) <= u64::MAX,
        old(player_state).total_score + hits_in(old(world)@) <= u32::MAX,
        old(player_state).current_score + hits_in(old(world)@) <= u32::MAX,
        old(enemy_state).count >= hits_in(old(world)@),
    ensures
        hits == hits_in(old(world)@),
        final(world)@ == kept(old(world)@, full_scan(old(world)@).gone) + explosions(
            old(world)@,
            full_scan(old(world)@).pairs,
            old(world).next_id(),
        ),
        final(world).next_id() == old(world).next_id() + hits,
        final(world).wf(),
        *final(player_state) == scored(*old(player_state), hits as nat),
        *final(enemy_state) == enemy_state_after(
            *old(enemy_state),
            old(player_state).total_score,
            hits as nat,
        ),
        final(enemy_state).count == old(enemy_state).count - hits,
        enemies_in(final(world)@) == enemies_in(old(world)@) - hits,
{
    let n = world.len();
    let ghost s = world@;
    let mut gone: Vec<bool> = Vec::new();
    let mut i: usize = 0;
    while i < n
        invariant
            i <= n,
            gone@ == no_flags(i as nat),
        decreases n - i,
    {
        gone.push(false);
        i += 1;
    }
    let mut pairs: Vec<(usize, usize)> = Vec::new();
    let mut spots: Vec<(i64, i64)> = Vec::new();
    let mut l: usize = 0;
    proof {
        scan_keeps_inv(s, 0);
    }
    while l < n
        invariant
            l <= n,
            n == s.len(),
            world@ == s,
            world.wf(),
            world.next_id() == old(world).next_id(),
            gone@ == scan(s, l as int).gone,
            positions(pairs@) == scan(s, l as int).pairs,
            scan_inv(s, l as int, scan(s, l as int)),
            spots@.len() == pairs@.len(),
            forall|j: int| 0 <= j < spots@.len() ==> spots@[j] == s[pairs@[j].1 as int].translation,
            *player_state == scored(*old(player_state), pairs@.len()),
            *enemy_state == enemy_state_after(
                *old(enemy_state),
                old(player_state).total_score,
                pairs@.len(),
            ),
            enemy_state.count + pairs@.len() == old(enemy_state).count,
            old(player_state).total_score + hits_in(s) <= u32::MAX,
            old(player_state).current_score + hits_in(s) <= u32::MAX,
            old(enemy_state).count >= hits_in(s),
        decreases n - l,
    {
        let laser = world.get(l);
        let ghost prev = scan(s, l as int);
        proof {
            scan_keeps_inv(s, l + 1);
            scan_grows(s, l + 1, n as int);
        }
        if laser.is_laser_from(Owner::FromPlayer) {
            let mut e: usize = 0;
            let mut found = false;
            while e < n && !found
                invariant
                    e <= n,
                    n == s.len(),
                    world@ == s,
                    laser == s[l as int],
                    gone@ == prev.gone,
                    gone@.len() == n,
                    l < n,
                    !found ==> forall|k: int| 0 <= k < e ==> !is_target(s, gone@, l as int, k),
                    found ==> e < n && is_target(s, gone@, l as int, e as int) && forall|k: int|
                        0 <= k < e ==> !is_target(s, gone@, l as int, k),
                decreases n - e + if found { 0int } else { 1int },
            {
                let enemy = world.get(e);
                if enemy.has_enemy_role() && !gone[e] && laser.collides_with(&enemy) {
                    found = true;
                } else {
                    e += 1;
                }
            }
            proof {
                first_target_is_unique(s, prev.gone, l as int, 0, e as int);
            }
            if found {
                let spot = world.get(e).translation;
                gone.set(l, true);
                gone.set(e, true);
                pairs.push((l, e));
                spots.push(spot);
                enemy_state.count -= 1;
                player_state.increase_score();
                let level = player_state.get_game_level();
                enemy_state.update(level);
            }
        }
        l += 1;
    }
    world.retain(&gone);
    let ghost base = world@;
    let m = pairs.len();
    let mut j: usize = 0;
    while j < m
        invariant
            j <= m,
            m == pairs@.len(),
            m == spots@.len(),
            m == hits_in(s),
            base == kept(s, full_scan(s).gone),
            scan_inv(s, s.len() as int, full_scan(s)),
            enemy_state.count == old(enemy_state).count - m,
            positions(pairs@) == full_scan(s).pairs,
            world.wf(),
            world.next_id() == old(world).next_id() + j,
            old(world).next_id() + m <= u64::MAX,
            world@ == base + explosions(s, positions(pairs@), old(world).next_id()).take(j as int),
            forall|k: int| 0 <= k < spots@.len() ==> spots@[k] == s[pairs@[k].1 as int].translation,
        decreases m - j,
    {
        world.spawn(
            Kind::ExplosionToSpawn,
            spots[j],
            (UNIT, UNIT),
            SpriteSize((0, 0)),
            None,
            None,
        );
        j += 1;
    }
    assert(world@ =~= base + explosions(s, positions(pairs@), old(world).next_id()));
    proof {
        let ex = explosions(s, positions(pairs@), old(world).next_id());
        census_of_kept(s, full_scan(s).gone);
        census_of_concat(base, ex);
        census_of_none(ex);
    }
    m
}

} // verus!
