//! Counting the enemies of an arena.

use vstd::prelude::*;
use crate::components::Entity;
use crate::world::{kept, no_flags, World};

verus! {

/// Number of enemies whose flag is not set.
pub open spec fn enemies_left(s: Seq<Entity>, gone: Seq<bool>) -> nat
    decreases s.len(),
{
    if s.len() == 0 || gone.len() == 0 {
        0
    } else {
        enemies_left(s.drop_last(), gone.drop_last()) + if s.last().is_enemy() && !gone.last() {
            1nat
        } else {
            0nat
        }
    }
}

/// Number of enemies in the arena.
pub open spec fn enemies_in(s: Seq<Entity>) -> nat {
    enemies_left(s, no_flags(s.len()))
}

/// Computes [`enemies_in`].
pub fn count_enemies(world: &World) -> (n: usize)
    ensures
        n == enemies_in(world@),
{
    let len = world.len();
    let ghost s = world@;
    let mut n: usize = 0;
    let mut i: usize = 0;
    while i < len
        invariant
            i <= len,
            len == s.len(),
            world@ == s,
            n <= i,
            n == enemies_left(s.take(i as int), no_flags(i as nat)),
        decreases len - i,
    {
        proof {
            assert(s.take(i + 1).drop_last() =~= s.take(i as int));
            assert(no_flags((i + 1) as nat).drop_last() =~= no_flags(i as nat));
        }
        if world.get(i).has_enemy_role() {
            n += 1;
        }
        i += 1;
    }
    assert(s.take(len as int) =~= s);
    n
}

/// An entity added at the end counts if it is an enemy.
pub proof fn census_of_push(s: Seq<Entity>, e: Entity)
    ensures
        enemies_in(s.push(e)) == enemies_in(s) + if e.is_enemy() { 1nat } else { 0nat },
{
    let t = s.push(e);
    assert(t.drop_last() =~= s);
    assert(no_flags(t.len()).drop_last() =~= no_flags(s.len()));
}

/// The enemies of two arenas joined are those of both.
pub proof fn census_of_concat(a: Seq<Entity>, b: Seq<Entity>)
    ensures
        enemies_in(a + b) == enemies_in(a) + enemies_in(b),
    decreases b.len(),
{
    if b.len() > 0 {
        census_of_concat(a, b.drop_last());
        census_of_push(a + b.drop_last(), b.last());
        assert(b =~= b.drop_last().push(b.last()));
        census_of_push(b.drop_last(), b.last());
    }
}

/// The enemies among what is kept are the enemies that are not flagged, and
/// these are no more than all enemies.
pub proof fn census_of_kept(s: Seq<Entity>, gone: Seq<bool>)
    requires
        gone.len() == s.len(),
    ensures
        enemies_in(kept(s, gone)) == enemies_left(s, gone),
        enemies_left(s, gone) <= enemies_in(s),
    decreases s.len(),
{
    if s.len() > 0 {
        census_of_kept(s.drop_last(), gone.drop_last());
        assert(no_flags(s.len()).drop_last() =~= no_flags((s.len() - 1) as nat));
        if !gone.last() {
            census_of_push(kept(s.drop_last(), gone.drop_last()), s.last());
        }
    }
}

/// Two arenas with enemies in the same places have as many enemies left
/// under the same flags.
pub proof fn census_of_same_roles(s: Seq<Entity>, t: Seq<Entity>, gone: Seq<bool>)
    requires
        s.len() == t.len(),
        forall|i: int| 0 <= i < s.len() ==> (#[trigger] s[i]).is_enemy() == t[i].is_enemy(),
    ensures
        enemies_left(s, gone) == enemies_left(t, gone),
    decreases s.len(),
{
    if s.len() > 0 && gone.len() > 0 {
        census_of_same_roles(s.drop_last(), t.drop_last(), gone.drop_last());
    }
}

/// Where only entities that are no enemies are flagged, all enemies are left.
pub proof fn census_of_kept_enemies(s: Seq<Entity>, gone: Seq<bool>)
    requires
        gone.len() == s.len(),
        forall|i: int| 0 <= i < s.len() && #[trigger] gone[i] ==> !s[i].is_enemy(),
    ensures
        enemies_left(s, gone) == enemies_in(s),
        enemies_in(kept(s, gone)) == enemies_in(s),
    decreases s.len(),
{
    census_of_kept(s, gone);
    if s.len() > 0 {
        census_of_kept_enemies(s.drop_last(), gone.drop_last());
        census_of_kept(s.drop_last(), gone.drop_last());
        assert(no_flags(s.len()).drop_last() =~= no_flags((s.len() - 1) as nat));
    }
}

/// Two arenas with enemies in the same places have as many enemies.
pub proof fn census_of_same_places(s: Seq<Entity>, t: Seq<Entity>)
    requires
        s.len() == t.len(),
        forall|i: int| 0 <= i < s.len() ==> (#[trigger] s[i]).is_enemy() == t[i].is_enemy(),
    ensures
        enemies_in(s) == enemies_in(t),
{
    census_of_same_roles(s, t, no_flags(s.len()));
}

/// An arena without enemies counts none.
pub proof fn census_of_none(s: Seq<Entity>)
    requires
        forall|i: int| 0 <= i < s.len() ==> !(#[trigger] s[i]).is_enemy(),
    ensures
        enemies_in(s) == 0,
    decreases s.len(),
{
    if s.len() > 0 {
        census_of_none(s.drop_last());
        assert(no_flags(s.len()).drop_last() =~= no_flags((s.len() - 1) as nat));
    }
}

} // verus!
