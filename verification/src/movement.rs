//! Movement by velocity, and the removal of what has left the window.

use vstd::prelude::*;
use crate::components::Entity;
use crate::entity::WinSize;
use crate::geometry::{beyond_margin, is_beyond_margin, move_coord};
use crate::census::{census_of_kept, census_of_same_places, enemies_in};
use crate::world::{kept, World};

verus! {

impl Entity {
    /// Computes [`Entity::after_move`].
    pub fn step(&self) -> (e: Entity)
        ensures
            e == self.after_move(),
            self.within_range() ==> e.within_range(),
    {
        match (self.velocity, self.movable) {
            (Some(v), Some(_)) => Entity {
                translation: (
                    move_coord(self.translation.0, v.x),
                    move_coord(self.translation.1, v.y),
                ),
                ..*self
            },
            _ => *self,
        }
    }

    /// Whether the entity is removed after this tick's movement: it moves by
    /// its velocity, is marked for removal off screen, and its new position
    /// lies beyond the window by more than the despawn margin.
    pub open spec fn leaves(self, win: WinSize) -> bool {
        &&& self.moves()
        &&& self.movable->0.auto_despawn
        &&& beyond_margin(win, self.after_move().translation.0, self.after_move().translation.1)
    }
}

/// Every entity after one tick of movement.
pub open spec fn moved_all(s: Seq<Entity>) -> Seq<Entity> {
    Seq::new(s.len(), |i: int| s[i].after_move())
}

/// For every entity, whether it is removed after this tick's movement.
pub open spec fn leaving(s: Seq<Entity>, win: WinSize) -> Seq<bool> {
    Seq::new(s.len(), |i: int| s[i].leaves(win))
}

/// One tick of movement: every entity that has a velocity and the movable
/// mark moves by its velocity, and those marked for removal off screen are
/// removed once they are beyond the despawn margin.
pub fn movable_system(world: &mut World, win_size: &WinSize)
    requires
        old(world).wf(),
    ensures
        final(world)@ == kept(moved_all(old(world)@), leaving(old(world)@, *win_size)),
        final(world).next_id() == old(world).next_id(),
        final(world).wf(),
        enemies_in(final(world)@) <= enemies_in(old(world)@),
{
    let n = world.len();
    let mut gone: Vec<bool> = Vec::new();
    let mut i: usize = 0;
    while i < n
        invariant
            i <= n,
            n == old(world)@.len(),
            world@.len() == n,
            world.wf(),
            world.next_id() == old(world).next_id(),
            gone@.len() == i,
            forall|k: int| 0 <= k < i ==> world@[k] == old(world)@[k].after_move(),
            forall|k: int| i <= k < n ==> world@[k] == old(world)@[k],
            forall|k: int| 0 <= k < i ==> gone@[k] == old(world)@[k].leaves(*win_size),
        decreases n - i,
    {
        let e = world.get(i);
        let m = e.step();
        let out = match e.movable {
            Some(mv) => e.velocity.is_some() && mv.auto_despawn && is_beyond_margin(
                win_size,
                m.translation.0,
                m.translation.1,
            ),
            None => false,
        };
        world.replace(i, m);
        gone.push(out);
        i += 1;
    }
    assert(world@ =~= moved_all(old(world)@));
    assert(gone@ =~= leaving(old(world)@, *win_size));
    proof {
        census_of_kept(world@, gone@);
        census_of_same_places(old(world)@, world@);
    }
    world.retain(&gone);
}

} // verus!
