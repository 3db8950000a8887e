//! A jump off a wall that the player touches.

use vstd::prelude::*;
use crate::collision::Collision;
use crate::physics::Gravity;
use crate::player::abilities::{AbilityId, MouseInput, PlayerInventory};
use crate::player::{PlayerCollisionEvent, PlayerMovement};
use crate::vector::Vector;

verus! {

/// Horizontal velocity of a wall jump, away from the wall.
pub const WALL_JUMP_POWER_X: i32 = 4000;

/// Upward velocity of a wall jump.
pub const WALL_JUMP_POWER_Y: i32 = 7000;

/// The side of a wall that the player touches.
#[derive(Debug, Clone, Copy, PartialEq, Eq, Structural)]
pub enum WallSide {
    Left,
    Right,
}

#[derive(Debug, Clone, Copy, PartialEq, Eq, Structural)]
pub struct PlayerWallJump {
    /// The wall that the player touched in the last frame.
    pub wall_side: Option<WallSide>,
    /// Whether the player jumped off a wall and has not landed since.
    pub wall_jumped: bool,
}

impl Default for PlayerWallJump {
    fn default() -> (jump: PlayerWallJump)
        ensures
            jump == (PlayerWallJump { wall_side: None, wall_jumped: false }),
    {
        PlayerWallJump { wall_side: None, wall_jumped: false }
    }
}

/// The velocity of a jump off the side `side` of a wall: up, and to the
/// right off a right side, to the left off a left side.
pub open spec fn wall_jump_velocity(side: WallSide) -> Vector {
    match side {
        WallSide::Right => Vector { x: WALL_JUMP_POWER_X, y: WALL_JUMP_POWER_Y },
        WallSide::Left => Vector { x: (-WALL_JUMP_POWER_X) as i32, y: WALL_JUMP_POWER_Y },
    }
}

/// Jumps off the wall when the button of the wall jump's slot went down.
///
/// Without that button nothing changes. With it, the wall is forgotten; and
/// where the player touched one, the player leaves it with
/// [`wall_jump_velocity`], gravity starts anew, and steering is forbidden
/// until the player lands.
pub fn player_wall_jump_system(
    grav: &mut Gravity,
    player: &mut PlayerMovement,
    wall_jump: &mut PlayerWallJump,
    inv: &PlayerInventory,
    just_pressed: MouseInput,
)
    ensures
        final(grav).vel_id == old(grav).vel_id,
        final(player).vel_id == old(player).vel_id,
        final(player).can_jump == old(player).can_jump,
        !inv.triggered(AbilityId::WallJump, just_pressed) ==> *final(grav) == *old(grav) && *final(player) == *old(player) && *final(wall_jump) == *old(wall_jump),
        inv.triggered(AbilityId::WallJump, just_pressed) ==> final(wall_jump).wall_side is None && match old(wall_jump).wall_side {
            Some(side) => {
                &&& final(grav).velocity == (Vector { x: 0, y: 0 })
                &&& final(player).velocity == wall_jump_velocity(side)
                &&& final(wall_jump).wall_jumped
                &&& final(player).move_forbid_set.wall_jump
                &&& final(player).move_forbid_set.dash == old(player).move_forbid_set.dash
            },
            None => *final(grav) == *old(grav) && *final(player) == *old(player) && final(wall_jump).wall_jumped
                == old(wall_jump).wall_jumped,
        },
{
    if inv.is_triggered(AbilityId::WallJump, just_pressed) {
        match wall_jump.wall_side {
            Some(WallSide::Right) => {
                grav.velocity = Vector { x: 0, y: 0 };
                player.velocity = Vector { x: WALL_JUMP_POWER_X, y: WALL_JUMP_POWER_Y };
                wall_jump.wall_jumped = true;
                player.move_forbid_set.insert(AbilityId::WallJump);
            },
            Some(WallSide::Left) => {
                grav.velocity = Vector { x: 0, y: 0 };
                player.velocity = Vector { x: -WALL_JUMP_POWER_X, y: WALL_JUMP_POWER_Y };
                wall_jump.wall_jumped = true;
                player.move_forbid_set.insert(AbilityId::WallJump);
            },
            None => {},
        }
        wall_jump.wall_side = None;
    }
}

/// The wall that a contact touches.
pub open spec fn wall_of(side: Collision) -> Option<WallSide> {
    match side {
        Collision::Left => Some(WallSide::Left),
        Collision::Right => Some(WallSide::Right),
        _ => None,
    }
}

/// The wall that the player touches after the contacts `events`: that of
/// the last contact.
pub open spec fn touched_wall(events: Seq<PlayerCollisionEvent>) -> Option<WallSide> {
    if events.len() == 0 {
        None
    } else {
        wall_of(events.last().collision_side)
    }
}

/// One of `events` is a contact on a top side.
pub open spec fn touched_ground(events: Seq<PlayerCollisionEvent>) -> bool {
    exists|k: int| 0 <= k < events.len() && (#[trigger] events[k]).collision_side == Collision::Top
}

/// Takes note of the frame's contacts of the player: remembers the wall
/// that the last of them touches, and lets a player who jumped off a wall
/// steer again after a landing.
pub fn wall_jump_collision_system(
    events: &Vec<PlayerCollisionEvent>,
    wall_jump: &mut PlayerWallJump,
    player: &mut PlayerMovement,
)
    ensures
        final(wall_jump).wall_side == touched_wall(events@),
        final(player).vel_id == old(player).vel_id,
        final(player).can_jump == old(player).can_jump,
        final(player).velocity == old(player).velocity,
        final(player).move_forbid_set.dash == old(player).move_forbid_set.dash,
        old(wall_jump).wall_jumped && touched_ground(events@) ==> !final(wall_jump).wall_jumped && !final(player).move_forbid_set.wall_jump,
        !(old(wall_jump).wall_jumped && touched_ground(events@)) ==> final(wall_jump).wall_jumped == old(wall_jump).wall_jumped && final(player).move_forbid_set == old(player).move_forbid_set,
{
    let mut new_wall_side: Option<WallSide> = None;
    let mut landed = false;
    let mut i: usize = 0;
    while i < events.len()
        invariant
            i <= events@.len(),
            new_wall_side == touched_wall(events@.take(i as int)),
            landed == touched_ground(events@.take(i as int)),
        decreases events@.len() - i,
    {
        let ghost seen = events@.take(i as int);
        let ghost next = events@.take(i + 1);
        proof {
            assert(next.last() == events@[i as int]);
            assert(next.drop_last() =~= seen);
            if touched_ground(seen) {
                let k = choose|k: int| 0 <= k < seen.len() && (#[trigger] seen[k]).collision_side == Collision::Top;
                assert(next[k].collision_side == Collision::Top);
            }
            if touched_ground(next) {
                let k = choose|k: int| 0 <= k < next.len() && (#[trigger] next[k]).collision_side == Collision::Top;
                if k < i {
                    assert(seen[k].collision_side == Collision::Top);
                }
            }
        }
        new_wall_side = match events[i].collision_side {
            Collision::Left => Some(WallSide::Left),
            Collision::Right => Some(WallSide::Right),
            Collision::Top => {
                landed = true;
                None
            },
            _ => None,
        };
        i = i + 1;
    }
    proof {
        assert(events@.take(events@.len() as int) =~= events@);
    }
    if wall_jump.wall_jumped && landed {
        player.move_forbid_set.remove(AbilityId::WallJump);
        wall_jump.wall_jumped = false;
    }
    wall_jump.wall_side = new_wall_side;
}

} // verus!
