//! The enemies: when they appear, when they fire, how they fly.

use vstd::prelude::*;
use crate::components::{Entity, Kind, Movable, Owner, SpriteSize, Velocity};
use crate::consts::{ENEMY_LASER_SIZE, ENEMY_SIZE, PIXEL, SPRITE_SCALE};
use crate::entity::{EnemyState, WinSize};
use crate::formation::{Formation, FormationMaker};
use crate::random::gen_ratio;
use crate::census::{
    census_of_concat, census_of_none, census_of_push, census_of_same_places, enemies_in,
};
use crate::world::{kept, kept_properties, source, World};

verus! {

/// Decides at random whether the enemies fire in this tick: with a chance of
/// one in sixty.
pub fn enemy_fire_criteria() -> (fire: bool) {
    gen_ratio(1, 60)
}

/// The enemy that starts on the formation `f`.
pub open spec fn new_enemy(id: u64, f: Formation) -> Entity {
    World::spawned(
        id,
        Kind::Enemy(f),
        f.start,
        (SPRITE_SCALE, SPRITE_SCALE),
        SpriteSize(ENEMY_SIZE),
        None,
        None,
    )
}

/// Adds an enemy while fewer are alive than the level asks for: it gets the
/// next formation of the maker, starts at the formation's start, and counts
/// as alive. Returns the formation, or `None` where enough enemies are alive.
pub fn enemy_spawn_system<F: Fn(i64, i64) -> i64>(
    world: &mut World,
    enemy_state: &mut EnemyState,
    formation_maker: &mut FormationMaker,
    win_size: &WinSize,
    atan2: &F,
) -> (spawned: Option<Formation>)
    requires
        old(world).wf(),
        old(enemy_state).count < old(enemy_state).level_count ==> old(world).next_id() < u64::MAX,
        old(formation_maker).wf(),
        win_size.playable(),
        forall|dy: i64, dx: i64| atan2.requires((dy, dx)),
    ensures
        final(world).wf(),
        final(formation_maker).wf(),
        spawned is Some <==> old(enemy_state).count < old(enemy_state).level_count,
        spawned is None ==> {
            &&& final(world)@ == old(world)@
            &&& final(world).next_id() == old(world).next_id()
            &&& *final(enemy_state) == *old(enemy_state)
            &&& *final(formation_maker) == *old(formation_maker)
        },
        spawned is Some ==> {
            let f = spawned->0;
            &&& f == old(formation_maker).issued(f)
            &&& *final(formation_maker) == old(formation_maker).after_issue(f)
            &&& !old(formation_maker).reuses() ==> f.fresh_for(*win_size, atan2)
            &&& final(world)@ == old(world)@.push(new_enemy(old(world).next_id(), f))
            &&& final(world).next_id() == old(world).next_id() + 1
            &&& *final(enemy_state) == (EnemyState {
                count: (old(enemy_state).count + 1) as u32,
                ..*old(enemy_state)
            })
            &&& enemies_in(final(world)@) == enemies_in(old(world)@) + 1
        },
{
    if enemy_state.count < enemy_state.level_count {
        let formation = formation_maker.make(win_size, atan2);
        proof {
            census_of_push(world@, new_enemy(world.next_id(), formation));
        }
        world.spawn(
            Kind::Enemy(formation),
            formation.start,
            (SPRITE_SCALE, SPRITE_SCALE),
            SpriteSize(ENEMY_SIZE),
            None,
            None,
        );
        enemy_state.count += 1;
        Some(formation)
    } else {
        None
    }
}

/// For every entity, whether it is anything but an enemy.
pub open spec fn non_enemies(s: Seq<Entity>) -> Seq<bool> {
    Seq::new(s.len(), |i: int| !s[i].is_enemy())
}

/// The laser that an enemy at `at` fires: it starts 15 pixels below the
/// enemy, flies straight down at the velocity given, and is removed off
/// screen.
pub open spec fn enemy_laser(id: u64, at: (i64, i64), velocity: i64) -> Entity {
    World::spawned(
        id,
        Kind::Laser(Owner::FromEnemy),
        (at.0, (at.1 - 15 * PIXEL) as i64),
        (SPRITE_SCALE, SPRITE_SCALE),
        SpriteSize(ENEMY_LASER_SIZE),
        Some(Velocity { x: 0, y: velocity }),
        Some(Movable { auto_despawn: true }),
    )
}

/// The lasers of a volley: one for each enemy, in arena order, with handles
/// from `first_id` on.
pub open spec fn volley(s: Seq<Entity>, first_id: u64, velocity: i64) -> Seq<Entity> {
    Seq::new(
        kept(s, non_enemies(s)).len(),
        |j: int| enemy_laser((first_id + j) as u64, kept(s, non_enemies(s))[j].translation, velocity),
    )
}

/// Every enemy fires one laser, at the velocity of the level. Returns the
/// number of lasers.
pub fn enemy_fire_system(world: &mut World, enemy_state: &EnemyState) -> (fired: usize)
    requires
        old(world).wf(),
        old(world).next_id() + kept(old(world)@, non_enemies(old(world)@)).len() <= u64::MAX,
    ensures
        final(world).wf(),
        fired == volley(old(world)@, old(world).next_id(), enemy_state.velocity).len(),
        final(world)@ == old(world)@ + volley(
            old(world)@,
            old(world).next_id(),
            enemy_state.velocity,
        ),
        final(world).next_id() == old(world).next_id() + fired,
        enemies_in(final(world)@) == enemies_in(old(world)@),
{
    let ghost s = world@;
    let n = world.len();
    let mut skip: Vec<bool> = Vec::new();
    let mut i: usize = 0;
    while i < n
        invariant
            i <= n,
            n == s.len(),
            world@ == s,
            skip@.len() == i,
            forall|k: int| 0 <= k < i ==> skip@[k] == !s[k].is_enemy(),
        decreases n - i,
    {
        let is_enemy = world.get(i).has_enemy_role();
        skip.push(!is_enemy);
        i += 1;
    }
    assert(skip@ =~= non_enemies(s));
    let spots = world.translations_of_kept(&skip);
    proof {
        kept_properties(s, non_enemies(s), world.next_id());
    }
    let ghost shots = volley(s, old(world).next_id(), enemy_state.velocity);
    let m = spots.len();
    let mut j: usize = 0;
    while j < m
        invariant
            j <= m,
            m == spots@.len(),
            m == shots.len(),
            m <= n,
            n == s.len(),
            shots == volley(s, old(world).next_id(), enemy_state.velocity),
            world.wf(),
            world.next_id() == old(world).next_id() + j,
            old(world).next_id() + m <= u64::MAX,
            world@ == s + shots.take(j as int),
            well_formed_spots(s, spots@),
        decreases m - j,
    {
        let at = spots[j];
        proof {
            kept_properties(s, non_enemies(s), world.next_id());
            let src = source(s, non_enemies(s), j as int);
            assert(world@[src] == s[src]);
        }
        world.spawn(
            Kind::Laser(Owner::FromEnemy),
            (at.0, at.1 - 15 * PIXEL),
            (SPRITE_SCALE, SPRITE_SCALE),
            SpriteSize(ENEMY_LASER_SIZE),
            Some(Velocity { x: 0, y: enemy_state.velocity }),
            Some(Movable { auto_despawn: true }),
        );
        j += 1;
    }
    proof {
        census_of_concat(s, shots);
        census_of_none(shots);
    }
    m
}

/// Whether `spots` are the places of the enemies of `s`, in arena order.
pub open spec fn well_formed_spots(s: Seq<Entity>, spots: Seq<(i64, i64)>) -> bool {
    &&& spots.len() == kept(s, non_enemies(s)).len()
    &&& forall|j: int|
        0 <= j < spots.len() ==> spots[j] == (#[trigger] kept(s, non_enemies(s))[j]).translation
}

impl Entity {
    /// The entity after one tick of flight, the cosine and the sine of its
    /// formation's next angle being given in millionths. Only an enemy flies:
    /// it moves toward the point of its ellipse at the next angle, and its
    /// formation's angle advances once it is close to that point.
    pub open spec fn flown(self, cos: i64, sin: i64) -> Entity {
        match self.kind {
            Kind::Enemy(f) => Entity {
                translation: f.position_after(self.translation, cos, sin),
                kind: Kind::Enemy(f.after_tick(self.translation, cos, sin)),
                ..self
            },
            _ => self,
        }
    }

    /// Whether `after` is what `self` becomes in one tick of flight, the
    /// cosine and the sine of an angle being what `unit_circle` gives for it.
    pub open spec fn flies_to<F: Fn(i64) -> (i64, i64)>(self, after: Entity, unit_circle: &F) -> bool {
        match self.kind {
            Kind::Enemy(f) => exists|cos: i64, sin: i64|
                #![trigger self.flown(cos, sin)]
                unit_circle.ensures((f.next_angle(),), (cos, sin)) && after == self.flown(cos, sin),
            _ => after == self,
        }
    }
}

/// One tick of flight for every enemy; see [`Entity::flown`]. For an angle in
/// micro-radians `unit_circle` gives the cosine and the sine in millionths.
pub fn enemy_movement_system<F: Fn(i64) -> (i64, i64)>(world: &mut World, unit_circle: &F)
    requires
        old(world).wf(),
        forall|a: i64| unit_circle.requires((a,)),
    ensures
        final(world).wf(),
        final(world).next_id() == old(world).next_id(),
        final(world)@.len() == old(world)@.len(),
        forall|i: int|
            0 <= i < old(world)@.len() ==> (#[trigger] old(world)@[i]).flies_to(
                final(world)@[i],
                unit_circle,
            ),
        enemies_in(final(world)@) == enemies_in(old(world)@),
{
    let n = world.len();
    let mut i: usize = 0;
    while i < n
        invariant
            i <= n,
            n == old(world)@.len(),
            world@.len() == n,
            world.wf(),
            world.next_id() == old(world).next_id(),
            forall|a: i64| unit_circle.requires((a,)),
            forall|k: int|
                0 <= k < i ==> (#[trigger] old(world)@[k]).flies_to(world@[k], unit_circle),
            forall|k: int| i <= k < n ==> world@[k] == old(world)@[k],
        decreases n - i,
    {
        let e = world.get(i);
        match e.kind {
            Kind::Enemy(f) => {
                let angle = f.compute_next_angle();
                let (cos, sin) = unit_circle(angle);
                let mut g = f;
                let at = g.advance(e.translation, cos, sin);
                let moved = Entity { translation: at, kind: Kind::Enemy(g), ..e };
                assert(moved == e.flown(cos, sin));
                world.replace(i, moved);
            },
            _ => {},
        }
        i += 1;
    }
    proof {
        census_of_same_places(old(world)@, world@);
    }
}

} // verus!
