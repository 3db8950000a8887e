//! The skills that abilities grant.

pub mod crouch;
pub mod dash;
pub mod double_jump;
pub mod wall_jump;

pub use crate::player::abilities::skills::crouch::{
    crouch_collision_system, player_crouch_system, CrouchState, Landing, PlayerCrouch,
};
pub use crate::player::abilities::skills::dash::{player_dash_system, PlayerDash};
pub use crate::player::abilities::skills::double_jump::{
    double_jump_land_system, player_double_jump_system, PlayerDoubleJump,
};
pub use crate::player::abilities::skills::wall_jump::{
    player_wall_jump_system, wall_jump_collision_system, PlayerWallJump, WallSide,
};
