//! The life of an explosion: from the request to the last cell of its sheet.

use vstd::prelude::*;
use crate::components::{Entity, ExplosionTimer, Kind, SpriteSize};
use crate::consts::{EXPLOSION_LEN, UNIT};
use crate::census::{
    census_of_concat, census_of_kept_enemies, census_of_none, census_of_same_places, enemies_in,
};
use crate::world::{count_set, kept, kept_properties, World};

verus! {

/// The explosion shown for a request at `at`: at the first cell, with a
/// timer at zero.
pub open spec fn new_explosion(id: u64, at: (i64, i64)) -> Entity {
    World::spawned(
        id,
        Kind::Explosion { timer: ExplosionTimer::initial(), index: 0 },
        at,
        (UNIT, UNIT),
        SpriteSize((0, 0)),
        None,
        None,
    )
}

/// For every entity, whether it is an explosion request.
pub open spec fn requests(s: Seq<Entity>) -> Seq<bool> {
    Seq::new(s.len(), |i: int| s[i].kind is ExplosionToSpawn)
}

/// For every entity, whether it is anything but an explosion request.
pub open spec fn others(s: Seq<Entity>) -> Seq<bool> {
    Seq::new(s.len(), |i: int| !(s[i].kind is ExplosionToSpawn))
}

/// The explosions for the requests of an arena: one for each request, in
/// arena order and at its place, with handles from `first_id` on.
pub open spec fn explosions_for(s: Seq<Entity>, first_id: u64) -> Seq<Entity> {
    Seq::new(
        kept(s, others(s)).len(),
        |j: int| new_explosion((first_id + j) as u64, kept(s, others(s))[j].translation),
    )
}

/// Turns every explosion request into an explosion: the requests are removed
/// and, for each in arena order, an explosion at its first cell is added at
/// the same place. Returns how many there were.
pub fn explosion_to_spawn_system(world: &mut World) -> (spawned: usize)
    requires
        old(world).wf(),
        old(world).next_id() + kept(old(world)@, others(old(world)@)).len() <= u64::MAX,
    ensures
        final(world).wf(),
        spawned == explosions_for(old(world)@, old(world).next_id()).len(),
        final(world).next_id() == old(world).next_id() + spawned,
        final(world)@ == kept(old(world)@, requests(old(world)@)) + explosions_for(
            old(world)@,
            old(world).next_id(),
        ),
        final(world)@.len() == old(world)@.len(),
        enemies_in(final(world)@) == enemies_in(old(world)@),
{
    let ghost s = world@;
    let n = world.len();
    let mut gone: Vec<bool> = Vec::new();
    let mut spots: Vec<(i64, i64)> = Vec::new();
    let mut i: usize = 0;
    while i < n
        invariant
            i <= n,
            n == s.len(),
            world@ == s,
            gone@ == requests(s).take(i as int),
            spots@.len() <= i,
            spots@.len() == kept(s.take(i as int), others(s).take(i as int)).len(),
            forall|j: int|
                0 <= j < spots@.len() ==> spots@[j] == (#[trigger] kept(
                    s.take(i as int),
                    others(s).take(i as int),
                )[j]).translation,
        decreases n - i,
    {
        let e = world.get(i);
        let is_request = match e.kind {
            Kind::ExplosionToSpawn => true,
            _ => false,
        };
        proof {
            assert(s.take(i + 1).drop_last() =~= s.take(i as int));
            assert(others(s).take(i + 1).drop_last() =~= others(s).take(i as int));
        }
        if is_request {
            spots.push(e.translation);
        }
        gone.push(is_request);
        i += 1;
    }
    proof {
        assert(s.take(n as int) =~= s);
        assert(others(s).take(n as int) =~= others(s));
        assert(requests(s).take(n as int) =~= requests(s));
        kept_properties(s, requests(s), world.next_id());
        kept_properties(s, others(s), world.next_id());
        complement_counts(requests(s), others(s));
    }
    world.retain(&gone);
    let ghost base = world@;
    let ghost ex = explosions_for(s, old(world).next_id());
    let m = spots.len();
    let mut j: usize = 0;
    while j < m
        invariant
            j <= m,
            m == spots@.len(),
            m == ex.len(),
            m <= n,
            base.len() + m == n,
            base == kept(s, requests(s)),
            ex == explosions_for(s, old(world).next_id()),
            world.wf(),
            world.next_id() == old(world).next_id() + j,
            old(world).next_id() + m <= u64::MAX,
            world@ == base + ex.take(j as int),
            forall|k: int|
                0 <= k < m ==> spots@[k] == (#[trigger] kept(s, others(s))[k]).translation,
        decreases m - j,
    {
        let timer = ExplosionTimer::default();
        world.spawn(
            Kind::Explosion { timer, index: 0 },
            spots[j],
            (UNIT, UNIT),
            SpriteSize((0, 0)),
            None,
            None,
        );
        j += 1;
    }
    proof {
        census_of_kept_enemies(s, requests(s));
        census_of_concat(base, ex);
        census_of_none(ex);
    }
    m
}

/// Of two flag sequences that are each other's complement, the flags set add
/// up to the length.
pub proof fn complement_counts(a: Seq<bool>, b: Seq<bool>)
    requires
        a.len() == b.len(),
        forall|i: int| 0 <= i < a.len() ==> a[i] == !b[i],
    ensures
        count_set(a) + count_set(b) == a.len(),
    decreases a.len(),
{
    if a.len() > 0 {
        complement_counts(a.drop_last(), b.drop_last());
    }
}

impl Entity {
    /// The entity after `delta` of animation time: the timer of an explosion
    /// advances, and each time it finishes the explosion shows the next cell.
    pub open spec fn after_frame(self, delta: u64) -> Entity {
        match self.kind {
            Kind::Explosion { timer, index } => Entity {
                kind: Kind::Explosion {
                    timer: ExplosionTimer(timer.0.after_tick(delta)),
                    index: if timer.0.finishes(delta) && index + 1 < EXPLOSION_LEN {
                        (index + 1) as usize
                    } else {
                        index
                    },
                },
                ..self
            },
            _ => self,
        }
    }

    /// Whether the explosion is over after `delta` of animation time: its
    /// timer finishes and there is no next cell.
    pub open spec fn burns_out(self, delta: u64) -> bool {
        match self.kind {
            Kind::Explosion { timer, index } => timer.0.finishes(delta) && index + 1
                >= EXPLOSION_LEN,
            _ => false,
        }
    }
}

/// Every entity after `delta` of animation time.
pub open spec fn animated(s: Seq<Entity>, delta: u64) -> Seq<Entity> {
    Seq::new(s.len(), |i: int| s[i].after_frame(delta))
}

/// For every entity, whether it is an explosion that is over after `delta`.
pub open spec fn burnt_out(s: Seq<Entity>, delta: u64) -> Seq<bool> {
    Seq::new(s.len(), |i: int| s[i].burns_out(delta))
}

/// Advances every explosion by `delta` of animation time. An explosion whose
/// timer finishes shows the next cell of its sheet; one that has no next cell
/// is removed.
pub fn explosion_animation_system(world: &mut World, delta: u64)
    requires
        old(world).wf(),
    ensures
        final(world)@ == kept(animated(old(world)@, delta), burnt_out(old(world)@, delta)),
        final(world).next_id() == old(world).next_id(),
        final(world).wf(),
        enemies_in(final(world)@) == enemies_in(old(world)@),
{
    let n = world.len();
    let mut gone: Vec<bool> = Vec::new();
    let mut i: usize = 0;
    while i < n
        invariant
            i <= n,
            n == old(world)@.len(),
            world@.len() == n,
            world.wf(),
            world.next_id() == old(world).next_id(),
            gone@.len() == i,
            forall|k: int| 0 <= k < i ==> world@[k] == old(world)@[k].after_frame(delta),
            forall|k: int| i <= k < n ==> world@[k] == old(world)@[k],
            forall|k: int| 0 <= k < i ==> gone@[k] == old(world)@[k].burns_out(delta),
        decreases n - i,
    {
        let e = world.get(i);
        match e.kind {
            Kind::Explosion { timer, index } => {
                let mut t = timer.0;
                let finished = t.tick(delta);
                let last = index >= EXPLOSION_LEN - 1;
                let next: usize = if finished && !last { index + 1 } else { index };
                world.replace(
                    i,
                    Entity { kind: Kind::Explosion { timer: ExplosionTimer(t), index: next }, ..e },
                );
                gone.push(finished && last);
            },
            _ => {
                gone.push(false);
            },
        }
        i += 1;
    }
    assert(world@ =~= animated(old(world)@, delta));
    assert(gone@ =~= burnt_out(old(world)@, delta));
    proof {
        census_of_kept_enemies(world@, gone@);
        census_of_same_places(old(world)@, world@);
    }
    world.retain(&gone);
}

} // verus!
