//! A second jump in mid-air.

use vstd::prelude::*;
use crate::physics::Gravity;
use crate::player::abilities::{AbilityId, MouseInput, PlayerInventory};
use crate::player::PlayerMovement;
use crate::vector::Vector;

verus! {

/// Upward velocity at the start of a second jump.
pub const DOUBLE_JUMP_POWER: i32 = 10500;

#[derive(Debug, Clone, Copy, PartialEq, Eq, Structural)]
pub struct PlayerDoubleJump {
    /// Whether the second jump is still to come since the last landing.
    pub can_dbl_jump: bool,
}

impl Default for PlayerDoubleJump {
    fn default() -> (jump: PlayerDoubleJump)
        ensures
            jump.can_dbl_jump,
    {
        PlayerDoubleJump { can_dbl_jump: true }
    }
}

/// Jumps a second time when the button of the double jump's slot went down
/// and the second jump is still to come: the player rises with
/// [`DOUBLE_JUMP_POWER`], gravity starts anew, and neither jump is left.
/// Otherwise nothing changes.
pub fn player_double_jump_system(
    grav: &mut Gravity,
    jump: &mut PlayerDoubleJump,
    player_mov: &mut PlayerMovement,
    inv: &PlayerInventory,
    just_pressed: MouseInput,
) -> (jumped: bool)
    ensures
        jumped == (inv.triggered(AbilityId::DoubleJump, just_pressed) && old(jump).can_dbl_jump),
        jumped ==> *final(grav) == (Gravity { velocity: Vector { x: 0, y: 0 }, ..*old(grav) }) && *final(player_mov)
            == (PlayerMovement {
            velocity: Vector { x: old(player_mov).velocity.x, y: DOUBLE_JUMP_POWER },
            can_jump: false,
            ..*old(player_mov)
        }) && !final(jump).can_dbl_jump,
        !jumped ==> *final(grav) == *old(grav) && *final(player_mov) == *old(player_mov) && *final(jump) == *old(jump),
{
    if inv.is_triggered(AbilityId::DoubleJump, just_pressed) && jump.can_dbl_jump {
        grav.velocity = Vector { x: 0, y: 0 };
        player_mov.velocity.y = DOUBLE_JUMP_POWER;
        player_mov.can_jump = false;
        jump.can_dbl_jump = false;
        true
    } else {
        false
    }
}

/// A landing brings the second jump back.
pub fn double_jump_land_system(dbl_jump: &mut PlayerDoubleJump)
    ensures
        final(dbl_jump).can_dbl_jump,
{
    dbl_jump.can_dbl_jump = true;
}

} // verus!
