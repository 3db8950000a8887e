//! Projectiles.

use vstd::prelude::*;
use crate::physics::{VelocityId, VelocityMap};
use crate::vector::{clamped, Vector, UNIT};

verus! {

/// Something that flies along a direction.
#[derive(Debug, Clone, Copy)]
pub struct Projectile {
    /// The direction, as a vector of length [`UNIT`].
    pub direction: Vector,
    /// Steps per frame.
    pub speed: i32,
    /// The projectile's slot in its velocity map, once it has one.
    pub vel_id: Option<VelocityId>,
}

/// The integer quotient of `a` by `b`, rounded toward zero, for positive `b`.
pub open spec fn quotient(a: int, b: int) -> int {
    if a >= 0 {
        a / b
    } else {
        -((-a) / b)
    }
}

/// One component of a projectile's velocity: the component of its
/// direction times its speed, in steps, rounded toward zero.
pub open spec fn scaled(component: i32, speed: i32) -> i32 {
    clamped(quotient(component * speed, UNIT as int))
}

fn scale(component: i32, speed: i32) -> (velocity: i32)
    ensures
        velocity == scaled(component, speed),
{
    assert(-0x4000_0000_0000_0000 <= component * speed <= 0x4000_0000_0000_0000) by (nonlinear_arith)
        requires
            -0x8000_0000 <= component < 0x8000_0000,
            -0x8000_0000 <= speed < 0x8000_0000,
    ;
    let product: i64 = component as i64 * speed as i64;
    let steps: i64 = if product >= 0 {
        product / UNIT as i64
    } else {
        -((-product) / UNIT as i64)
    };
    if steps < i32::MIN as i64 {
        i32::MIN
    } else if steps > i32::MAX as i64 {
        i32::MAX
    } else {
        steps as i32
    }
}

/// The velocity of a projectile.
pub open spec fn projectile_velocity(projectile: Projectile) -> Vector {
    Vector { x: scaled(projectile.direction.x, projectile.speed), y: scaled(projectile.direction.y, projectile.speed) }
}

/// Whether the projectile has a slot that `vel_map` issued.
pub open spec fn has_slot(projectile: Projectile, vel_map: VelocityMap) -> bool {
    projectile.vel_id matches Some(id) && vel_map.issued(id)
}

/// Moves a projectile along its direction: writes its velocity into its
/// slot of the velocity map. A projectile without a slot of this map gets a
/// new one first, and remembers it.
pub fn move_projectile_system(vel_map: &mut VelocityMap, projectile: &mut Projectile)
    ensures
        final(vel_map).owner() == old(vel_map).owner(),
        final(vel_map).spec_last_velocity() == old(vel_map).spec_last_velocity(),
        final(projectile).direction == old(projectile).direction,
        final(projectile).speed == old(projectile).speed,
        has_slot(*old(projectile), *old(vel_map)) ==> final(projectile).vel_id == old(projectile).vel_id
            && final(vel_map).slots() == old(vel_map).slots().update(
            old(projectile).vel_id.unwrap().slot() as int,
            projectile_velocity(*old(projectile)),
        ),
        !has_slot(*old(projectile), *old(vel_map)) ==> (final(projectile).vel_id matches Some(id)
            && id.issuer() == old(vel_map).owner() && id.slot() == old(vel_map).slots().len() && final(vel_map).slots() == old(vel_map).slots().push(
            projectile_velocity(*old(projectile)),
        )),
{
    let velocity = Vector {
        x: scale(projectile.direction.x, projectile.speed),
        y: scale(projectile.direction.y, projectile.speed),
    };
    match projectile.vel_id {
        Some(id) => match vel_map.set(id, velocity) {
            Ok(_) => {
                return ;
            },
            Err(_) => {},
        },
        None => {},
    }
    let (id, slot) = vel_map.register();
    *slot = velocity;
    projectile.vel_id = Some(id);
}

} // verus!
