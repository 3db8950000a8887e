//! The green slime: walks until it hits a wall, then turns around.

use vstd::prelude::*;
use crate::collision::{Collision, CollisionEvent, MoveableCollider};
use crate::enemies::EnemyHealth;
use crate::physics::{VelocityError, VelocityId, VelocityMap};
use crate::vector::{clamped, clamped_sum, Vector, TILE_SIZE};

verus! {

pub const SLIME_BASE_HEALTH: u32 = 8;

/// Walking speed, in steps per frame.
pub const SLIME_SPEED: i32 = 1000;

#[derive(Debug, Clone, Copy)]
pub struct GreenSlime {
    pub walking_left: bool,
    pub vel_id: VelocityId,
}

/// What a green slime is spawned with.
#[derive(Debug, Clone, Copy)]
pub struct SlimeSpawn {
    pub position: Vector,
    pub slime: GreenSlime,
    pub collider: MoveableCollider,
    pub health: EnemyHealth,
}

impl GreenSlime {
    /// A slime that walks to the left, writing to a slot of its own that it
    /// registers in `vel_map`.
    pub fn new(vel_map: &mut VelocityMap) -> (slime: GreenSlime)
        ensures
            slime.walking_left,
            slime.vel_id.issuer() == old(vel_map).owner(),
            slime.vel_id.slot() == old(vel_map).slots().len(),
            final(vel_map).slots() == old(vel_map).slots().push(Vector { x: 0, y: 0 }),
            final(vel_map).owner() == old(vel_map).owner(),
            final(vel_map).spec_last_velocity() == old(vel_map).spec_last_velocity(),
    {
        let (vel_id, _) = vel_map.register();
        GreenSlime { walking_left: true, vel_id }
    }

    /// Path of the slime's sprite image.
    pub fn sprite_path() -> (path: &'static str)
        ensures
            path@ == "sprites/enemies/slime.png"@,
    {
        "sprites/enemies/slime.png"
    }

    /// A slime standing on the tile at `at`: half a tile above it, one tile
    /// wide and two high, with its full health, and with the first slot of
    /// `vel_map` that is free.
    pub fn spawn_at(vel_map: &mut VelocityMap, at: Vector) -> (spawn: SlimeSpawn)
        ensures
            spawn.position == (Vector { x: at.x, y: clamped(at.y + TILE_SIZE / 2) }),
            spawn.slime.walking_left,
            spawn.slime.vel_id.issuer() == old(vel_map).owner(),
            spawn.slime.vel_id.slot() == old(vel_map).slots().len(),
            spawn.collider == (MoveableCollider {
                size: Vector { x: 8000, y: 16000 },
                collision_offset: Vector { x: 0, y: 0 },
            }),
            spawn.health == EnemyHealth(SLIME_BASE_HEALTH),
            final(vel_map).slots() == old(vel_map).slots().push(Vector { x: 0, y: 0 }),
            final(vel_map).owner() == old(vel_map).owner(),
            final(vel_map).spec_last_velocity() == old(vel_map).spec_last_velocity(),
    {
        SlimeSpawn {
            position: Vector { x: at.x, y: clamped_sum(at.y, TILE_SIZE / 2) },
            slime: GreenSlime::new(vel_map),
            collider: MoveableCollider { size: Vector { x: 8000, y: 16000 }, collision_offset: Vector { x: 0, y: 0 } },
            health: EnemyHealth::new(SLIME_BASE_HEALTH),
        }
    }
}

/// The horizontal velocity of a slime.
pub open spec fn slime_velocity(walking_left: bool) -> i32 {
    if walking_left {
        (-SLIME_SPEED) as i32
    } else {
        SLIME_SPEED
    }
}

/// Lets a slime walk: writes its walking speed into the horizontal part of
/// its slot and says whether its sprite is mirrored, which it is while the
/// slime walks to the right. Fails where the map never issued the slot.
pub fn slime_run_system(slime: &GreenSlime, vel_map: &mut VelocityMap) -> (mirrored: Result<bool, VelocityError>)
    ensures
        final(vel_map).owner() == old(vel_map).owner(),
        final(vel_map).spec_last_velocity() == old(vel_map).spec_last_velocity(),
        mirrored.is_ok() == old(vel_map).issued(slime.vel_id),
        match mirrored {
            Ok(flag) => flag == !slime.walking_left && final(vel_map).slots() == old(vel_map).slots().update(
                slime.vel_id.slot() as int,
                Vector {
                    x: slime_velocity(slime.walking_left),
                    y: old(vel_map).slots()[slime.vel_id.slot() as int].y,
                },
            ),
            Err(e) => e is NotFound && final(vel_map).slots() == old(vel_map).slots(),
        },
{
    match vel_map.get_mut(slime.vel_id) {
        Some(vel) => {
            if slime.walking_left {
                vel.x = -SLIME_SPEED;
            } else {
                vel.x = SLIME_SPEED;
            }
            Ok(!slime.walking_left)
        },
        None => Err(VelocityError::NotFound),
    }
}

/// Turns a slime around at a wall: after a contact on a right side it walks
/// to the right, after one on a left side to the left.
pub fn slime_turn_around_system(slime: &mut GreenSlime, event: &CollisionEvent)
    ensures
        final(slime).vel_id == old(slime).vel_id,
        final(slime).walking_left == match event.collision {
            Collision::Right => false,
            Collision::Left => true,
            _ => old(slime).walking_left,
        },
{
    match event.collision {
        Collision::Right => slime.walking_left = false,
        Collision::Left => slime.walking_left = true,
        _ => {},
    }
}

} // verus!
