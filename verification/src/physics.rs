//! Velocity composition: every system that wants to move an entity owns one
//! slot of the entity's velocity map, and the entity moves once per frame by
//! the exact sum of the slots.

use vstd::prelude::*;
use crate::vector::Vector;
use crate::collision::{Collision, CollisionEvent, Entity};

verus! {

/// The id of one slot of a [`VelocityMap`]. It is good for the map that
/// issued it and for no other.
#[derive(Debug, PartialEq, Eq, Hash, PartialOrd, Ord, Clone, Copy)]
pub struct VelocityId {
    issuer: Entity,
    index: usize,
}

impl VelocityId {
    /// The owner of the map that issued this id.
    pub closed spec fn issuer(self) -> Entity {
        self.issuer
    }

    /// Position of the slot in the map that issued this id.
    pub closed spec fn slot(self) -> nat {
        self.index as nat
    }
}

#[derive(Debug, Clone, PartialEq, Eq)]
pub enum VelocityError {
    /// The map did not issue the id: another map did.
    NotFound,
}

impl VelocityError {
    /// The error in words.
    pub fn message(&self) -> (text: String)
        ensures
            text@ == "The id is not inside the velocity map, try to register first"@,
    {
        "The id is not inside the velocity map, try to register first".to_owned()
    }
}

/// Sum of the horizontal components of the first `n` slots.
pub open spec fn partial_x(slots: Seq<Vector>, n: nat) -> int
    decreases n,
{
    if n == 0 {
        0
    } else {
        partial_x(slots, (n - 1) as nat) + slots[n - 1].x
    }
}

/// Sum of the vertical components of the first `n` slots.
pub open spec fn partial_y(slots: Seq<Vector>, n: nat) -> int
    decreases n,
{
    if n == 0 {
        0
    } else {
        partial_y(slots, (n - 1) as nat) + slots[n - 1].y
    }
}

/// Sum of the horizontal components of all slots.
pub open spec fn total_x(slots: Seq<Vector>) -> int {
    partial_x(slots, slots.len())
}

/// Sum of the vertical components of all slots.
pub open spec fn total_y(slots: Seq<Vector>) -> int {
    partial_y(slots, slots.len())
}

/// The velocities that the systems acting on one entity contribute. An
/// entity owns one map, and the map is known by its owner: the ids that it
/// issues carry that entity, and no map of another entity accepts them.
#[derive(Debug, Clone)]
pub struct VelocityMap {
    owner: Entity,
    map: Vec<Vector>,
    last_velocity: Vector,
}

impl VelocityMap {
    /// The entity that owns the map.
    pub closed spec fn owner(&self) -> Entity {
        self.owner
    }

    /// The slots, in the order in which they were registered.
    pub closed spec fn slots(&self) -> Seq<Vector> {
        self.map@
    }

    /// This map issued `id`: the id carries the map's owner and names one of
    /// its slots.
    pub open spec fn issued(&self, id: VelocityId) -> bool {
        id.issuer() == self.owner() && id.slot() < self.slots().len()
    }

    /// The displacement that the last integration applied.
    pub closed spec fn spec_last_velocity(&self) -> Vector {
        self.last_velocity
    }

    /// The map of the entity `owner`, without slots.
    pub fn new(owner: Entity) -> (vel_map: VelocityMap)
        ensures
            vel_map.owner() == owner,
            vel_map.slots() == Seq::<Vector>::empty(),
            vel_map.spec_last_velocity() == (Vector { x: 0, y: 0 }),
    {
        VelocityMap { owner, map: Vec::new(), last_velocity: Vector { x: 0, y: 0 } }
    }

    /// The entity that owns the map.
    pub fn owned_by(&self) -> (owner: Entity)
        ensures
            owner == self.owner(),
    {
        self.owner
    }

    /// Appends a zero slot and hands out its id and the slot itself. The id
    /// is issued by this map.
    pub fn register(&mut self) -> (issued: (VelocityId, &mut Vector))
        ensures
            issued.0.issuer() == old(self).owner(),
            issued.0.slot() == old(self).slots().len(),
            *issued.1 == (Vector { x: 0, y: 0 }),
            final(self).owner() == old(self).owner(),
            final(self).slots() == old(self).slots().push(*final(issued.1)),
            final(self).spec_last_velocity() == old(self).spec_last_velocity(),
    {
        let index = self.map.len();
        self.map.push(Vector { x: 0, y: 0 });
        (VelocityId { issuer: self.owner, index }, &mut self.map[index])
    }

    /// The slot that `id` names, for writing; none where this map did not
    /// issue `id`.
    pub fn get_mut(&mut self, id: VelocityId) -> (slot: Option<&mut Vector>)
        ensures
            slot.is_some() == old(self).issued(id),
            final(self).owner() == old(self).owner(),
            final(self).spec_last_velocity() == old(self).spec_last_velocity(),
            match slot {
                Some(velocity) => *velocity == old(self).slots()[id.slot() as int] && final(self).slots() == old(
                    self,
                ).slots().update(id.slot() as int, *final(velocity)),
                None => final(self).slots() == old(self).slots(),
            },
    {
        if id.issuer == self.owner && id.index < self.map.len() {
            Some(&mut self.map[id.index])
        } else {
            None
        }
    }

    /// The velocity in the slot that `id` names; none where this map did not
    /// issue `id`.
    pub fn get(&self, id: VelocityId) -> (velocity: Option<Vector>)
        ensures
            velocity == if self.issued(id) {
                Some(self.slots()[id.slot() as int])
            } else {
                None
            },
    {
        if id.issuer == self.owner && id.index < self.map.len() {
            Some(self.map[id.index])
        } else {
            None
        }
    }

    /// Writes `vel` into the slot that `id` names and returns what the slot
    /// held; fails, and changes nothing, exactly when this map did not issue
    /// `id`.
    pub fn set(&mut self, id: VelocityId, vel: Vector) -> (previous: Result<Vector, VelocityError>)
        ensures
            previous.is_ok() == old(self).issued(id),
            final(self).owner() == old(self).owner(),
            final(self).spec_last_velocity() == old(self).spec_last_velocity(),
            match previous {
                Ok(old_val) => old_val == old(self).slots()[id.slot() as int] && final(self).slots() == old(
                    self,
                ).slots().update(id.slot() as int, vel),
                Err(e) => e is NotFound && final(self).slots() == old(self).slots(),
            },
    {
        if id.issuer == self.owner && id.index < self.map.len() {
            let old_val = self.map[id.index];
            self.map[id.index] = vel;
            Ok(old_val)
        } else {
            Err(VelocityError::NotFound)
        }
    }

    /// The displacement that the last integration applied: the sweep of the
    /// entity started that far before its position.
    pub fn last_velocity(&self) -> (velocity: Vector)
        ensures
            velocity == self.spec_last_velocity(),
    {
        self.last_velocity
    }

    /// The sum of all slots, where both of its components are representable.
    pub fn net_velocity(&self) -> (net: Option<Vector>)
        ensures
            match net {
                Some(v) => v.x == total_x(self.slots()) && v.y == total_y(self.slots()),
                None => !(i32::MIN <= total_x(self.slots()) <= i32::MAX && i32::MIN <= total_y(self.slots())
                    <= i32::MAX),
            },
    {
        let mut sum_x: i128 = 0;
        let mut sum_y: i128 = 0;
        let mut i: usize = 0;
        while i < self.map.len()
            invariant
                i <= self.map@.len(),
                sum_x == partial_x(self.map@, i as nat),
                sum_y == partial_y(self.map@, i as nat),
                -(i * 0x8000_0000) <= sum_x <= i * 0x8000_0000,
                -(i * 0x8000_0000) <= sum_y <= i * 0x8000_0000,
            decreases self.map@.len() - i,
        {
            sum_x = sum_x + self.map[i].x as i128;
            sum_y = sum_y + self.map[i].y as i128;
            i = i + 1;
        }
        if i32::MIN as i128 <= sum_x && sum_x <= i32::MAX as i128 && i32::MIN as i128 <= sum_y && sum_y
            <= i32::MAX as i128 {
            Some(Vector { x: sum_x as i32, y: sum_y as i32 })
        } else {
            None
        }
    }
}

/// Where integration takes an entity from `position`: the exact sum of the
/// slots further.
pub open spec fn integrated(position: Vector, slots: Seq<Vector>) -> (int, int) {
    (position.x + total_x(slots), position.y + total_y(slots))
}

/// The net displacement and the position it leads to are both representable.
pub open spec fn integrable(position: Vector, slots: Seq<Vector>) -> bool {
    &&& i32::MIN <= total_x(slots) <= i32::MAX
    &&& i32::MIN <= total_y(slots) <= i32::MAX
    &&& i32::MIN <= integrated(position, slots).0 <= i32::MAX
    &&& i32::MIN <= integrated(position, slots).1 <= i32::MAX
}

/// Integrates one entity: moves it from `position` by the exact sum of its
/// slots and records that sum as the map's last velocity.
///
/// Returns the new position. Where the sum or the new position is not
/// representable, nothing moves: the result is `None` and the map is
/// unchanged.
pub fn velocity_system(position: Vector, velocity_map: &mut VelocityMap) -> (moved: Option<Vector>)
    ensures
        final(velocity_map).owner() == old(velocity_map).owner(),
        final(velocity_map).slots() == old(velocity_map).slots(),
        moved.is_some() == integrable(position, old(velocity_map).slots()),
        match moved {
            Some(p) => {
                &&& p.x == position.x + total_x(old(velocity_map).slots())
                &&& p.y == position.y + total_y(old(velocity_map).slots())
                &&& final(velocity_map).spec_last_velocity().x == total_x(old(velocity_map).slots())
                &&& final(velocity_map).spec_last_velocity().y == total_y(old(velocity_map).slots())
            },
            None => final(velocity_map).spec_last_velocity() == old(velocity_map).spec_last_velocity(),
        },
{
    match velocity_map.net_velocity() {
        Some(velocity) => {
            let x: i64 = position.x as i64 + velocity.x as i64;
            let y: i64 = position.y as i64 + velocity.y as i64;
            if i32::MIN as i64 <= x && x <= i32::MAX as i64 && i32::MIN as i64 <= y && y <= i32::MAX as i64 {
                velocity_map.last_velocity = velocity;
                Some(Vector { x: x as i32, y: y as i32 })
            } else {
                None
            }
        },
        None => None,
    }
}

/// The partial sums see only the slots they add up.
pub proof fn lemma_partial_sums_of_prefix(a: Seq<Vector>, b: Seq<Vector>, n: nat)
    requires
        n <= a.len(),
        n <= b.len(),
        forall|k: int| 0 <= k < n ==> a[k] == b[k],
    ensures
        partial_x(a, n) == partial_x(b, n),
        partial_y(a, n) == partial_y(b, n),
    decreases n,
{
    if n > 0 {
        lemma_partial_sums_of_prefix(a, b, (n - 1) as nat);
    }
}

/// Registering a slot leaves the net velocity as it was: the new slot is
/// zero.
pub proof fn lemma_total_after_register(slots: Seq<Vector>)
    ensures
        total_x(slots.push(Vector { x: 0, y: 0 })) == total_x(slots),
        total_y(slots.push(Vector { x: 0, y: 0 })) == total_y(slots),
{
    lemma_partial_sums_of_prefix(slots.push(Vector { x: 0, y: 0 }), slots, slots.len());
}

/// Writing one slot changes the partial sums that include it by the
/// difference between the new value and the old one.
pub proof fn lemma_partial_after_set(slots: Seq<Vector>, i: int, vel: Vector, n: nat)
    requires
        0 <= i < slots.len(),
        n <= slots.len(),
    ensures
        partial_x(slots.update(i, vel), n) == partial_x(slots, n) + if i < n {
            vel.x - slots[i].x
        } else {
            0
        },
        partial_y(slots.update(i, vel), n) == partial_y(slots, n) + if i < n {
            vel.y - slots[i].y
        } else {
            0
        },
    decreases n,
{
    if n > 0 {
        lemma_partial_after_set(slots, i, vel, (n - 1) as nat);
    }
}

/// Writing one slot changes the net velocity by the difference between the
/// new value and the old one, whatever the other slots hold.
pub proof fn lemma_total_after_set(slots: Seq<Vector>, i: int, vel: Vector)
    requires
        0 <= i < slots.len(),
    ensures
        total_x(slots.update(i, vel)) == total_x(slots) - slots[i].x + vel.x,
        total_y(slots.update(i, vel)) == total_y(slots) - slots[i].y + vel.y,
{
    lemma_partial_after_set(slots, i, vel, slots.len());
}

/// Downward acceleration, in steps per frame per frame.
pub const GRAVITY: i32 = 70;

/// Terminal falling velocity, in steps per frame.
pub const GRAVITY_MAX: i32 = -9000;

/// Makes an entity fall: the velocity that gravity has built up, and the slot
/// of the entity's velocity map that it is written to.
#[derive(Debug, Clone, Copy)]
pub struct Gravity {
    pub vel_id: VelocityId,
    pub velocity: Vector,
}

impl Gravity {
    /// Gravity at rest, writing to the slot `vel_id`.
    pub fn new(vel_id: VelocityId) -> (gravity: Gravity)
        ensures
            gravity.vel_id == vel_id,
            gravity.velocity == (Vector { x: 0, y: 0 }),
    {
        Gravity { vel_id, velocity: Vector { x: 0, y: 0 } }
    }

    /// Gravity at rest, writing to a slot of its own that it registers in
    /// `vel_map`.
    pub fn new_in(vel_map: &mut VelocityMap) -> (gravity: Gravity)
        ensures
            gravity.vel_id.issuer() == old(vel_map).owner(),
            gravity.vel_id.slot() == old(vel_map).slots().len(),
            gravity.velocity == (Vector { x: 0, y: 0 }),
            final(vel_map).slots() == old(vel_map).slots().push(Vector { x: 0, y: 0 }),
            final(vel_map).owner() == old(vel_map).owner(),
            final(vel_map).spec_last_velocity() == old(vel_map).spec_last_velocity(),
    {
        let (id, _) = vel_map.register();
        Gravity::new(id)
    }
}

/// The falling velocity one frame after `y`: faster by [`GRAVITY`], but never
/// faster than [`GRAVITY_MAX`].
pub open spec fn fall_step(y: int) -> int {
    if y - GRAVITY >= GRAVITY_MAX {
        y - GRAVITY
    } else {
        GRAVITY_MAX as int
    }
}

/// Lets gravity act on one entity for one frame.
pub fn gravity_system(grav: &mut Gravity)
    ensures
        final(grav).velocity.y == fall_step(old(grav).velocity.y as int),
        final(grav).velocity.x == old(grav).velocity.x,
        final(grav).vel_id == old(grav).vel_id,
{
    let fallen: i64 = grav.velocity.y as i64 - GRAVITY as i64;
    if fallen >= GRAVITY_MAX as i64 {
        grav.velocity.y = fallen as i32;
    } else {
        grav.velocity.y = GRAVITY_MAX;
    }
}

/// One of `events` reports that `entity` came down on the top side of a
/// static collider.
pub open spec fn landed(events: Seq<CollisionEvent>, entity: Entity) -> bool {
    exists|k: int|
        0 <= k < events.len() && (#[trigger] events[k]).collision == Collision::Top && events[k].moving_entity
            == entity
}

/// Stops the fall of `entity` where the frame's events report that it
/// landed; otherwise leaves its gravity as it is.
pub fn landing_system(events: &Vec<CollisionEvent>, entity: Entity, grav: &mut Gravity)
    ensures
        final(grav).vel_id == old(grav).vel_id,
        final(grav).velocity == if landed(events@, entity) {
            Vector { x: 0, y: 0 }
        } else {
            old(grav).velocity
        },
{
    let mut i: usize = 0;
    while i < events.len()
        invariant
            i <= events@.len(),
            forall|k: int|
                0 <= k < i ==> !((#[trigger] events@[k]).collision == Collision::Top && events@[k].moving_entity
                    == entity),
            *grav == *old(grav),
        decreases events@.len() - i,
    {
        if events[i].collision == Collision::Top && events[i].moving_entity == entity {
            grav.velocity = Vector { x: 0, y: 0 };
            return ;
        }
        i = i + 1;
    }
}

/// Writes the velocity that gravity has built up into gravity's slot of the
/// entity's velocity map; fails where the map never issued that slot.
pub fn add_gravity_velocity_system(vel_map: &mut VelocityMap, grav: &Gravity) -> (written: Result<
    (),
    VelocityError,
>)
    ensures
        final(vel_map).owner() == old(vel_map).owner(),
        final(vel_map).spec_last_velocity() == old(vel_map).spec_last_velocity(),
        written.is_ok() == old(vel_map).issued(grav.vel_id),
        match written {
            Ok(_) => final(vel_map).slots() == old(vel_map).slots().update(
                grav.vel_id.slot() as int,
                grav.velocity,
            ),
            Err(e) => e is NotFound && final(vel_map).slots() == old(vel_map).slots(),
        },
{
    match vel_map.set(grav.vel_id, grav.velocity) {
        Ok(_) => Ok(()),
        Err(e) => Err(e),
    }
}

} // verus!
