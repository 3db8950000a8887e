//! Static and moving colliders, and the events their contacts produce.

use vstd::prelude::*;
use vstd::std_specs::ops::{BitAndSpecImpl, BitOrSpecImpl, NotSpecImpl};
use crate::vector::Vector;

pub mod intersect;
pub mod sweep;
pub mod nearest;

pub use crate::collision::sweep::{collision_system, Mover, Obstacle, Sweep};

verus! {

/// The side of a static collider that a mover struck.
#[derive(Clone, Copy, Debug, PartialEq, Eq, Structural)]
pub enum Collision {
    Left,
    Right,
    Top,
    Bottom,
    Inside,
}

/// Identity of an entity of the host engine.
pub type Entity = u64;

/// One contact of a moving entity with a static one.
#[derive(Clone, Copy, Debug, PartialEq, Eq, Structural)]
pub struct CollisionEvent {
    /// The side of the static collider that was struck.
    pub collision: Collision,
    pub moving_entity: Entity,
    pub static_entity: Entity,
}

impl CollisionEvent {
    pub fn new(collision: Collision, moving_entity: Entity, static_entity: Entity) -> (event: CollisionEvent)
        ensures
            event == (CollisionEvent { collision, moving_entity, static_entity }),
    {
        CollisionEvent { collision, moving_entity, static_entity }
    }
}

/// A static collider that never moves.
#[derive(Clone, Copy, Debug, PartialEq, Eq, Structural)]
pub struct Collider {
    /// Full width and height of the box, centred on its entity's position.
    pub size: Vector,
    pub filter: CollisionFilter,
}

impl Default for Collider {
    /// An empty box that registers contacts on every side.
    fn default() -> (collider: Collider)
        ensures
            collider.size == (Vector { x: 0, y: 0 }),
            collider.filter.0 == ALL_BITS,
    {
        Collider { size: Vector { x: 0, y: 0 }, filter: CollisionFilter(ALL_BITS) }
    }
}

/// The collider of an entity that moves and must not pass through static
/// colliders.
#[derive(Clone, Copy, Debug, PartialEq, Eq, Structural)]
pub struct MoveableCollider {
    /// Full width and height of the box, centred on its entity's position.
    pub size: Vector,
    /// Tolerance of the contact test. When a contact from above or below is
    /// measured, the struck edge and the sweep are both taken `x` longer at
    /// either end; from the left or right, `y` longer.
    pub collision_offset: Vector,
}

/// Marks a static collider that a shot or a stomp destroys.
#[derive(Clone, Copy, Debug, PartialEq, Eq, Structural)]
pub struct BreakableCollider;

/// Bit of the top side in a [`CollisionFilter`].
pub const TOP_BIT: u8 = 0b1000;

/// Bit of the right side in a [`CollisionFilter`].
pub const RIGHT_BIT: u8 = 0b0100;

/// Bit of the bottom side in a [`CollisionFilter`].
pub const BOTTOM_BIT: u8 = 0b0010;

/// Bit of the left side in a [`CollisionFilter`].
pub const LEFT_BIT: u8 = 0b0001;

/// All four side bits.
pub const ALL_BITS: u8 = 0xF;

/// Which approach directions register against a static collider: one bit
/// each for top, right, bottom and left.
#[derive(Clone, Copy, Debug, PartialEq, Eq, Structural)]
pub struct CollisionFilter(pub u8);

impl CollisionFilter {
    /// Contacts on the top side only.
    pub fn top() -> (f: CollisionFilter)
        ensures
            f.0 == TOP_BIT,
    {
        CollisionFilter(TOP_BIT)
    }

    /// Contacts on the right side only.
    pub fn right() -> (f: CollisionFilter)
        ensures
            f.0 == RIGHT_BIT,
    {
        CollisionFilter(RIGHT_BIT)
    }

    /// Contacts on the bottom side only.
    pub fn bottom() -> (f: CollisionFilter)
        ensures
            f.0 == BOTTOM_BIT,
    {
        CollisionFilter(BOTTOM_BIT)
    }

    /// Contacts on the left side only.
    pub fn left() -> (f: CollisionFilter)
        ensures
            f.0 == LEFT_BIT,
    {
        CollisionFilter(LEFT_BIT)
    }

    /// Contacts on every side.
    pub fn all() -> (f: CollisionFilter)
        ensures
            f.0 == ALL_BITS,
    {
        CollisionFilter(ALL_BITS)
    }

    /// Every bit of `other` is set in `self`.
    pub open spec fn spec_collides_at(self, other: CollisionFilter) -> bool {
        self.0 & other.0 == other.0
    }

    #[verifier::when_used_as_spec(spec_collides_at)]
    pub fn collides_at(self, other: CollisionFilter) -> (hit: bool)
        ensures
            hit == self.spec_collides_at(other),
    {
        (self.0 & other.0) == other.0
    }

    pub open spec fn spec_collides_top(self) -> bool {
        self.0 & TOP_BIT == TOP_BIT
    }

    #[verifier::when_used_as_spec(spec_collides_top)]
    pub fn collides_top(self) -> (hit: bool)
        ensures
            hit == self.spec_collides_top(),
    {
        self.collides_at(CollisionFilter(TOP_BIT))
    }

    pub open spec fn spec_collides_right(self) -> bool {
        self.0 & RIGHT_BIT == RIGHT_BIT
    }

    #[verifier::when_used_as_spec(spec_collides_right)]
    pub fn collides_right(self) -> (hit: bool)
        ensures
            hit == self.spec_collides_right(),
    {
        self.collides_at(CollisionFilter(RIGHT_BIT))
    }

    pub open spec fn spec_collides_bottom(self) -> bool {
        self.0 & BOTTOM_BIT == BOTTOM_BIT
    }

    #[verifier::when_used_as_spec(spec_collides_bottom)]
    pub fn collides_bottom(self) -> (hit: bool)
        ensures
            hit == self.spec_collides_bottom(),
    {
        self.collides_at(CollisionFilter(BOTTOM_BIT))
    }

    pub open spec fn spec_collides_left(self) -> bool {
        self.0 & LEFT_BIT == LEFT_BIT
    }

    #[verifier::when_used_as_spec(spec_collides_left)]
    pub fn collides_left(self) -> (hit: bool)
        ensures
            hit == self.spec_collides_left(),
    {
        self.collides_at(CollisionFilter(LEFT_BIT))
    }

    /// The filter bit that admits contacts on `side`; `Inside` has none.
    pub open spec fn side_bit(side: Collision) -> u8 {
        match side {
            Collision::Top => TOP_BIT,
            Collision::Right => RIGHT_BIT,
            Collision::Bottom => BOTTOM_BIT,
            Collision::Left => LEFT_BIT,
            Collision::Inside => 0u8,
        }
    }

    /// Contacts on `side` register against a collider with this filter.
    pub open spec fn admits(self, side: Collision) -> bool {
        side != Collision::Inside && self.0 & Self::side_bit(side) == Self::side_bit(side)
    }
}

impl core::ops::BitOr for CollisionFilter {
    type Output = CollisionFilter;

    fn bitor(self, rhs: CollisionFilter) -> (out: CollisionFilter) {
        CollisionFilter(self.0 | rhs.0)
    }
}

impl BitOrSpecImpl for CollisionFilter {
    open spec fn obeys_bitor_spec() -> bool {
        true
    }

    open spec fn bitor_req(self, rhs: CollisionFilter) -> bool {
        true
    }

    open spec fn bitor_spec(self, rhs: CollisionFilter) -> CollisionFilter {
        CollisionFilter(self.0 | rhs.0)
    }
}

impl core::ops::BitAnd for CollisionFilter {
    type Output = CollisionFilter;

    fn bitand(self, rhs: CollisionFilter) -> (out: CollisionFilter) {
        CollisionFilter(self.0 & rhs.0)
    }
}

impl BitAndSpecImpl for CollisionFilter {
    open spec fn obeys_bitand_spec() -> bool {
        true
    }

    open spec fn bitand_req(self, rhs: CollisionFilter) -> bool {
        true
    }

    open spec fn bitand_spec(self, rhs: CollisionFilter) -> CollisionFilter {
        CollisionFilter(self.0 & rhs.0)
    }
}

impl core::ops::Not for CollisionFilter {
    type Output = CollisionFilter;

    fn not(self) -> (out: CollisionFilter) {
        CollisionFilter(!self.0 & 0xF)
    }
}

impl NotSpecImpl for CollisionFilter {
    open spec fn obeys_not_spec() -> bool {
        true
    }

    open spec fn not_req(self) -> bool {
        true
    }

    open spec fn not_spec(self) -> CollisionFilter {
        CollisionFilter(!self.0 & 0xF)
    }
}

} // verus!
