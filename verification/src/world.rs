//! The arena that holds the entities, in the order in which they were spawned.

use vstd::prelude::*;
use crate::components::{Entity, Kind, Movable, SpriteSize, Velocity};
use crate::geometry::{clamp_coord, saturate};

verus! {

/// Whether the handles grow along the sequence, so that none occurs twice.
pub open spec fn ids_increasing(s: Seq<Entity>) -> bool {
    forall|i: int, j: int| 0 <= i < j < s.len() ==> s[i].id < s[j].id
}

/// Whether every handle is below `bound`.
pub open spec fn ids_below(s: Seq<Entity>, bound: u64) -> bool {
    forall|i: int| 0 <= i < s.len() ==> (#[trigger] s[i]).id < bound
}

/// Whether every entity lies in the coordinate range.
pub open spec fn all_within_range(s: Seq<Entity>) -> bool {
    forall|i: int| 0 <= i < s.len() ==> (#[trigger] s[i]).within_range()
}

/// Whether `s` can be the content of an arena whose next handle is `next_id`.
pub open spec fn well_formed(s: Seq<Entity>, next_id: u64) -> bool {
    &&& ids_increasing(s)
    &&& ids_below(s, next_id)
    &&& all_within_range(s)
}

/// The entities of `s` whose flag in `gone` is not set, in their order.
pub open spec fn kept(s: Seq<Entity>, gone: Seq<bool>) -> Seq<Entity>
    recommends
        gone.len() == s.len(),
    decreases s.len(),
{
    if s.len() == 0 || gone.len() == 0 {
        Seq::<Entity>::empty()
    } else {
        let rest = kept(s.drop_last(), gone.drop_last());
        if gone.last() {
            rest
        } else {
            rest.push(s.last())
        }
    }
}

/// `n` flags, none set.
pub open spec fn no_flags(n: nat) -> Seq<bool> {
    Seq::new(n, |i: int| false)
}

/// Number of flags set.
pub open spec fn count_set(gone: Seq<bool>) -> nat
    decreases gone.len(),
{
    if gone.len() == 0 {
        0
    } else {
        count_set(gone.drop_last()) + if gone.last() { 1nat } else { 0nat }
    }
}

/// Position in `s` of the entity that stands at position `j` of what is kept.
pub open spec fn source(s: Seq<Entity>, gone: Seq<bool>, j: int) -> int
    recommends
        gone.len() == s.len(),
    decreases s.len(),
{
    if s.len() == 0 || gone.len() == 0 {
        0
    } else if !gone.last() && j == kept(s.drop_last(), gone.drop_last()).len() {
        s.len() - 1
    } else {
        source(s.drop_last(), gone.drop_last(), j)
    }
}

/// What is kept comes from the sequence in the same order, is not flagged,
/// and is as many as the flags leave; a well-formed sequence stays well
/// formed.
pub proof fn kept_properties(s: Seq<Entity>, gone: Seq<bool>, bound: u64)
    requires
        gone.len() == s.len(),
    ensures
        kept(s, gone).len() + count_set(gone) == s.len(),
        forall|j: int|
            #![trigger kept(s, gone)[j]]
            #![trigger source(s, gone, j)]
            0 <= j < kept(s, gone).len() ==> {
                &&& j <= source(s, gone, j) < s.len()
                &&& !gone[source(s, gone, j)]
                &&& kept(s, gone)[j] == s[source(s, gone, j)]
            },
        forall|a: int, b: int|
            0 <= a < b < kept(s, gone).len() ==> #[trigger] source(s, gone, a) < #[trigger] source(
                s,
                gone,
                b,
            ),
        well_formed(s, bound) ==> well_formed(kept(s, gone), bound),
    decreases s.len(),
{
    if s.len() > 0 {
        let s1 = s.drop_last();
        let g1 = gone.drop_last();
        let rest = kept(s1, g1);
        let k = kept(s, gone);
        kept_properties(s1, g1, bound);
        assert forall|j: int|
            #![trigger k[j]]
            #![trigger source(s, gone, j)]
            0 <= j < k.len() implies {
            &&& j <= source(s, gone, j) < s.len()
            &&& !gone[source(s, gone, j)]
            &&& k[j] == s[source(s, gone, j)]
        } by {
            if j < rest.len() {
                assert(rest[j] == s1[source(s1, g1, j)]);
            }
        }
        if well_formed(s, bound) {
            assert forall|j: int| 0 <= j < k.len() implies (#[trigger] k[j]).id < bound
                && k[j].within_range() by {
                assert(k[j] == s[source(s, gone, j)]);
            }
        }
    }
}

/// The entities in play.
#[derive(Debug)]
pub struct World {
    entities: Vec<Entity>,
    next_id: u64,
}

impl View for World {
    type V = Seq<Entity>;

    closed spec fn view(&self) -> Seq<Entity> {
        self.entities@
    }
}

impl World {
    /// The handle that the next entity gets.
    pub closed spec fn next_id(&self) -> u64 {
        self.next_id
    }

    /// Whether the handles grow along the arena and stay below the next one,
    /// and every entity lies in the coordinate range.
    pub open spec fn wf(&self) -> bool {
        well_formed(self@, self.next_id())
    }

    /// An empty arena.
    pub fn new() -> (w: World)
        ensures
            w@ == Seq::<Entity>::empty(),
            w.next_id() == 0,
            w.wf(),
    {
        World { entities: Vec::new(), next_id: 0 }
    }

    /// Number of entities.
    pub fn len(&self) -> (n: usize)
        ensures
            n == self@.len(),
    {
        self.entities.len()
    }

    /// The entity at position `i`.
    pub fn get(&self, i: usize) -> (e: Entity)
        requires
            i < self@.len(),
        ensures
            e == self@[i as int],
    {
        self.entities[i]
    }

    /// Handles that can still be given out.
    pub fn ids_left(&self) -> (n: u64)
        ensures
            n == u64::MAX - self.next_id(),
    {
        u64::MAX - self.next_id
    }

    /// The entity that `spawn` adds for the given parts: it gets the next
    /// handle, and its position is brought into the coordinate range.
    pub open spec fn spawned(
        id: u64,
        kind: Kind,
        translation: (i64, i64),
        scale: (i64, i64),
        size: SpriteSize,
        velocity: Option<Velocity>,
        movable: Option<Movable>,
    ) -> Entity {
        Entity {
            id,
            kind,
            translation: (clamp_coord(translation.0 as int), clamp_coord(translation.1 as int)),
            scale,
            size,
            velocity,
            movable,
        }
    }

    /// Adds an entity at the end of the arena and returns its handle.
    pub fn spawn(
        &mut self,
        kind: Kind,
        translation: (i64, i64),
        scale: (i64, i64),
        size: SpriteSize,
        velocity: Option<Velocity>,
        movable: Option<Movable>,
    ) -> (id: u64)
        requires
            old(self).wf(),
            old(self).next_id() < u64::MAX,
            kind.valid(),
        ensures
            id == old(self).next_id(),
            final(self).next_id() == id + 1,
            final(self)@ == old(self)@.push(
                World::spawned(id, kind, translation, scale, size, velocity, movable),
            ),
            final(self).wf(),
    {
        let id = self.next_id;
        let e = Entity {
            id,
            kind,
            translation: (saturate(translation.0 as i128), saturate(translation.1 as i128)),
            scale,
            size,
            velocity,
            movable,
        };
        self.entities.push(e);
        self.next_id = id + 1;
        id
    }

    /// Puts `e` in the place of the entity at position `i`, whose handle it
    /// must carry.
    pub fn replace(&mut self, i: usize, e: Entity)
        requires
            old(self).wf(),
            i < old(self)@.len(),
            e.id == old(self)@[i as int].id,
            e.within_range(),
        ensures
            final(self)@ == old(self)@.update(i as int, e),
            final(self).next_id() == old(self).next_id(),
            final(self).wf(),
    {
        self.entities.set(i, e);
    }

    /// The places of the entities whose flag in `gone` is not set, in arena
    /// order.
    pub fn translations_of_kept(&self, gone: &Vec<bool>) -> (spots: Vec<(i64, i64)>)
        requires
            gone@.len() == self@.len(),
        ensures
            spots@.len() == kept(self@, gone@).len(),
            forall|j: int|
                0 <= j < spots@.len() ==> spots@[j] == (#[trigger] kept(self@, gone@)[j]).translation,
    {
        let n = self.entities.len();
        let mut spots: Vec<(i64, i64)> = Vec::new();
        let mut i: usize = 0;
        while i < n
            invariant
                i <= n,
                n == self.entities@.len(),
                gone@.len() == n,
                spots@.len() == kept(self.entities@.take(i as int), gone@.take(i as int)).len(),
                forall|j: int|
                    0 <= j < spots@.len() ==> spots@[j] == (#[trigger] kept(
                        self.entities@.take(i as int),
                        gone@.take(i as int),
                    )[j]).translation,
            decreases n - i,
        {
            assert(self.entities@.take(i + 1).drop_last() =~= self.entities@.take(i as int));
            assert(gone@.take(i + 1).drop_last() =~= gone@.take(i as int));
            if !gone[i] {
                spots.push(self.entities[i].translation);
            }
            i += 1;
        }
        proof {
            assert(self.entities@.take(n as int) =~= self.entities@);
            assert(gone@.take(n as int) =~= gone@);
        }
        spots
    }

    /// Removes the entities whose flag in `gone` is set.
    pub fn retain(&mut self, gone: &Vec<bool>)
        requires
            old(self).wf(),
            gone@.len() == old(self)@.len(),
        ensures
            final(self)@ == kept(old(self)@, gone@),
            final(self).next_id() == old(self).next_id(),
            final(self).wf(),
    {
        let n = self.entities.len();
        let mut out: Vec<Entity> = Vec::new();
        let mut i: usize = 0;
        while i < n
            invariant
                i <= n,
                n == self.entities@.len(),
                gone@.len() == n,
                out@ == kept(self.entities@.take(i as int), gone@.take(i as int)),
            decreases n - i,
        {
            assert(self.entities@.take(i + 1).drop_last() =~= self.entities@.take(i as int));
            assert(gone@.take(i + 1).drop_last() =~= gone@.take(i as int));
            if !gone[i] {
                out.push(self.entities[i]);
            }
            i += 1;
        }
        proof {
            assert(self.entities@.take(n as int) =~= self.entities@);
            assert(gone@.take(n as int) =~= gone@);
            kept_properties(self.entities@, gone@, self.next_id);
        }
        self.entities = out;
    }
}

/// Whether the entity at `p` is a player and the only one.
pub open spec fn is_single_player(s: Seq<Entity>, p: int) -> bool {
    &&& 0 <= p < s.len()
    &&& s[p].is_player()
    &&& forall|i: int| 0 <= i < s.len() && i != p ==> !(#[trigger] s[i]).is_player()
}

/// Whether the arena holds exactly one player.
pub open spec fn has_single_player(s: Seq<Entity>) -> bool {
    exists|p: int| is_single_player(s, p)
}

/// There is at most one position of a single player.
pub proof fn single_player_is_unique(s: Seq<Entity>, p: int, q: int)
    requires
        is_single_player(s, p),
        is_single_player(s, q),
    ensures
        p == q,
{
}

/// Position of the player where the arena holds exactly one; `None` where it
/// holds none or several.
pub open spec fn player_position(s: Seq<Entity>) -> Option<int> {
    if has_single_player(s) {
        Some(choose|p: int| is_single_player(s, p))
    } else {
        None
    }
}

/// Computes [`player_position`].
pub fn find_single_player(world: &World) -> (r: Option<usize>)
    ensures
        r is Some <==> player_position(world@) is Some,
        r is Some ==> r->0 == player_position(world@)->0 && is_single_player(world@, r->0 as int),
{
    let n = world.len();
    let mut found: Option<usize> = None;
    let mut twice = false;
    let mut i: usize = 0;
    while i < n
        invariant
            i <= n,
            n == world@.len(),
            found is None ==> !twice && forall|k: int| 0 <= k < i ==> !(#[trigger] world@[k]).is_player(),
            found is Some ==> found->0 < i && world@[found->0 as int].is_player(),
            found is Some && !twice ==> forall|k: int|
                0 <= k < i && k != found->0 ==> !(#[trigger] world@[k]).is_player(),
            twice ==> exists|a: int, b: int|
                0 <= a < b < i && world@[a].is_player() && world@[b].is_player(),
        decreases n - i,
    {
        if world.get(i).has_player_role() {
            match found {
                Some(f) => {
                    twice = true;
                },
                None => {
                    found = Some(i);
                },
            }
        }
        i += 1;
    }
    if twice {
        None
    } else {
        proof {
            if found is Some {
                single_player_is_unique(world@, found->0 as int, player_position(world@)->0);
            }
        }
        found
    }
}

impl Default for World {
    /// An empty arena.
    fn default() -> (w: World)
        ensures
            w@ == Seq::<Entity>::empty(),
            w.next_id() == 0,
            w.wf(),
    {
        World::new()
    }
}

} // verus!
