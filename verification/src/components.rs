//! What an entity is made of: velocity, despawn flag, sprite size, role.

use vstd::prelude::*;
use crate::consts::{COORD_MAX, EXPLOSION_FRAME_DURATION};
use crate::formation::Formation;
use crate::geometry::{moved_coord, Aabb};
use crate::timer::Timer;

verus! {

/// Velocity along both axes.
#[derive(Clone, Copy, PartialEq, Eq, Structural, Debug)]
pub struct Velocity {
    pub x: i64,
    pub y: i64,
}

/// Marks an entity that moves by its velocity.
#[derive(Clone, Copy, PartialEq, Eq, Structural, Debug)]
pub struct Movable {
    /// Whether the entity is removed once it is far outside the window.
    pub auto_despawn: bool,
}

/// Width and height of a sprite before scaling.
#[derive(Clone, Copy, PartialEq, Eq, Debug)]
pub struct SpriteSize(pub (i64, i64));

impl From<(i64, i64)> for SpriteSize {
    fn from(val: (i64, i64)) -> (s: SpriteSize) {
        SpriteSize(val)
    }
}

impl vstd::std_specs::convert::FromSpecImpl<(i64, i64)> for SpriteSize {
    open spec fn obeys_from_spec() -> bool {
        true
    }

    open spec fn from_spec(val: (i64, i64)) -> SpriteSize {
        SpriteSize(val)
    }
}

/// Who fired a laser.
#[derive(Clone, Copy, PartialEq, Eq, Structural, Debug)]
pub enum Owner {
    FromPlayer,
    FromEnemy,
}

/// The repeating timer that paces an explosion's cells.
#[derive(Clone, Copy, PartialEq, Eq, Debug)]
pub struct ExplosionTimer(pub Timer);

impl ExplosionTimer {
    /// The timer of an explosion that begins: one frame duration to run.
    pub open spec fn initial() -> ExplosionTimer {
        ExplosionTimer(Timer::fresh(EXPLOSION_FRAME_DURATION))
    }
}

impl Default for ExplosionTimer {
    /// A timer of one frame duration, at zero.
    fn default() -> (t: ExplosionTimer)
        ensures
            t == ExplosionTimer::initial(),
            t.0.wf(),
    {
        ExplosionTimer(Timer::repeating(EXPLOSION_FRAME_DURATION))
    }
}

/// The role of an entity, with the data that belongs to the role.
#[derive(Clone, Copy, PartialEq, Eq, Debug)]
pub enum Kind {
    Player,
    Enemy(Formation),
    Laser(Owner),
    /// An explosion asked for and not shown yet.
    ExplosionToSpawn,
    /// An explosion that shows the cell `index` of its sheet.
    Explosion { timer: ExplosionTimer, index: usize },
}

impl Kind {
    /// Whether the data of the role can be simulated: the formation of an
    /// enemy can be flown, the timer of an explosion can run.
    pub open spec fn valid(self) -> bool {
        match self {
            Kind::Enemy(f) => f.valid(),
            Kind::Explosion { timer, index } => timer.0.wf(),
            _ => true,
        }
    }
}

/// A simulated object.
#[derive(Clone, Copy, PartialEq, Eq, Debug)]
pub struct Entity {
    /// Handle that stays with the entity for its life.
    pub id: u64,
    pub kind: Kind,
    pub translation: (i64, i64),
    pub scale: (i64, i64),
    pub size: SpriteSize,
    pub velocity: Option<Velocity>,
    pub movable: Option<Movable>,
}

impl Entity {
    /// Whether the entity can be simulated: both coordinates lie in the range
    /// the simulation keeps, and the data of its role is valid.
    pub open spec fn within_range(self) -> bool {
        &&& -COORD_MAX <= self.translation.0 <= COORD_MAX
        &&& -COORD_MAX <= self.translation.1 <= COORD_MAX
        &&& self.kind.valid()
    }

    pub open spec fn is_player(self) -> bool {
        self.kind is Player
    }

    pub open spec fn is_enemy(self) -> bool {
        self.kind is Enemy
    }

    /// Whether the entity is a laser fired by `owner`.
    pub open spec fn is_laser_of(self, owner: Owner) -> bool {
        self.kind == Kind::Laser(owner)
    }

    /// Whether the entity is moved by its velocity.
    pub open spec fn moves(self) -> bool {
        self.velocity is Some && self.movable is Some
    }

    /// The box used for collisions: centred on the entity, with half extents
    /// of the sprite's size times the entity's scale.
    pub open spec fn bounds(self) -> Aabb {
        Aabb::of_sprite(self.translation, self.size.0, self.scale)
    }

    /// Computes [`Entity::bounds`].
    pub fn bounding_box(&self) -> (b: Aabb)
        ensures
            b == self.bounds(),
            b.bounded(),
    {
        Aabb::from_sprite(self.translation, self.size.0, self.scale)
    }

    /// Computes [`Entity::is_player`].
    pub fn has_player_role(&self) -> (r: bool)
        ensures
            r == self.is_player(),
    {
        match self.kind {
            Kind::Player => true,
            _ => false,
        }
    }

    /// Computes [`Entity::is_enemy`].
    pub fn has_enemy_role(&self) -> (r: bool)
        ensures
            r == self.is_enemy(),
    {
        match self.kind {
            Kind::Enemy(_) => true,
            _ => false,
        }
    }

    /// Computes [`Entity::is_laser_of`].
    pub fn is_laser_from(&self, owner: Owner) -> (r: bool)
        ensures
            r == self.is_laser_of(owner),
    {
        match self.kind {
            Kind::Laser(o) => o == owner,
            _ => false,
        }
    }

    /// The entity after one tick of movement by its velocity. An entity
    /// without a velocity or without the movable mark stays.
    pub open spec fn after_move(self) -> Entity {
        if self.moves() {
            Entity {
                translation: (
                    moved_coord(self.translation.0, self.velocity->0.x),
                    moved_coord(self.translation.1, self.velocity->0.y),
                ),
                ..self
            }
        } else {
            self
        }
    }
}

} // verus!
