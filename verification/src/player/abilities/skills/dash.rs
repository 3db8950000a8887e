//! A short burst of speed in the running direction.

use vstd::prelude::*;
use crate::physics::Gravity;
use crate::player::abilities::{elapsed, elapsed_since, held, AbilityId, MouseInput, PlayerInventory};
use crate::player::MoveForbidSet;
use crate::player::PlayerMovement;
use crate::vector::Vector;

verus! {

/// Speed of a dash, in steps per frame.
pub const PLAYER_DASH_SPEED: i32 = 8000;

/// Time between the starts of two dashes, in milliseconds.
pub const PLAYER_DASH_INTERVAL: u64 = 1500;

/// A player slower than this does not run, and has no direction to dash in.
pub const PLAYER_RUN_EPSILON: i32 = 200;

/// Time that a dash lasts, in milliseconds.
pub const PLAYER_DASH_DURATION: u64 = 150;

#[derive(Debug, Clone, Copy, PartialEq, Eq, Structural)]
pub struct PlayerDash {
    /// When the last dash started, in milliseconds; `None` once another
    /// dash may start.
    pub last_dash: Option<u64>,
}

impl Default for PlayerDash {
    fn default() -> (dash: PlayerDash)
        ensures
            dash.last_dash is None,
    {
        PlayerDash { last_dash: None }
    }
}

/// Everything that dashing reads and writes.
pub struct Dashing {
    pub dash: PlayerDash,
    pub player: PlayerMovement,
    pub gravity: Gravity,
}

/// The start of a dash: it starts at `now` when a held button triggers the
/// dash's slot and no dash is under way or cooling down.
pub open spec fn dash_started(dash: PlayerDash, triggered: bool, now: u64) -> PlayerDash {
    if triggered && dash.last_dash is None {
        PlayerDash { last_dash: Some(now) }
    } else {
        dash
    }
}

/// One frame of a dash that may have started, at the time `now`.
///
/// Without a dash nothing changes. After the interval between dashes the
/// player steers again and may dash anew; after the duration of a dash the
/// player steers again. During a dash, a player who runs moves at dash
/// speed in the running direction, neither rises nor falls, and cannot
/// steer; one who does not run is left alone.
pub open spec fn dashed(before: Dashing, now: u64) -> Dashing {
    match before.dash.last_dash {
        None => before,
        Some(last_dash) => {
            let steering = PlayerMovement {
                move_forbid_set: MoveForbidSet { dash: false, ..before.player.move_forbid_set },
                ..before.player
            };
            if elapsed(last_dash, now) > PLAYER_DASH_INTERVAL {
                Dashing { dash: PlayerDash { last_dash: None }, player: steering, ..before }
            } else if elapsed(last_dash, now) > PLAYER_DASH_DURATION {
                Dashing { player: steering, ..before }
            } else if -PLAYER_RUN_EPSILON < before.player.velocity.x < PLAYER_RUN_EPSILON {
                before
            } else {
                Dashing {
                    player: PlayerMovement {
                        velocity: Vector {
                            x: if before.player.velocity.x > PLAYER_RUN_EPSILON {
                                PLAYER_DASH_SPEED
                            } else if before.player.velocity.x < -PLAYER_RUN_EPSILON {
                                (-PLAYER_DASH_SPEED) as i32
                            } else {
                                before.player.velocity.x
                            },
                            y: 0,
                        },
                        move_forbid_set: MoveForbidSet { dash: true, ..before.player.move_forbid_set },
                        ..before.player
                    },
                    gravity: Gravity {
                        velocity: Vector { x: before.gravity.velocity.x, y: 0 },
                        ..before.gravity
                    },
                    ..before
                }
            }
        },
    }
}

/// Lets one frame of dashing pass at the time `now`, with the mouse buttons
/// `pressed` held down: a dash may start as [`dash_started`] says, and then
/// goes on as [`dashed`] says.
pub fn player_dash_system(
    pressed: MouseInput,
    player_dash: &mut PlayerDash,
    player: &mut PlayerMovement,
    gravity: &mut Gravity,
    inv: &PlayerInventory,
    now: u64,
)
    ensures
        (Dashing { dash: *final(player_dash), player: *final(player), gravity: *final(gravity) }) == dashed(
            Dashing {
                dash: dash_started(*old(player_dash), held(*inv, AbilityId::Dash, pressed), now),
                player: *old(player),
                gravity: *old(gravity),
            },
            now,
        ),
{
    let triggered = inv.is_held(AbilityId::Dash, pressed);
    if triggered && player_dash.last_dash.is_none() {
        player_dash.last_dash = Some(now);
    }
    match player_dash.last_dash {
        None => {},
        Some(last_dash) => {
            let since = elapsed_since(last_dash, now);
            if since > PLAYER_DASH_INTERVAL {
                player.move_forbid_set.remove(AbilityId::Dash);
                player_dash.last_dash = None;
            } else if since > PLAYER_DASH_DURATION {
                player.move_forbid_set.remove(AbilityId::Dash);
            } else if player.velocity.x < PLAYER_RUN_EPSILON && player.velocity.x > -PLAYER_RUN_EPSILON {
            } else {
                if player.velocity.x > PLAYER_RUN_EPSILON {
                    player.velocity.x = PLAYER_DASH_SPEED;
                } else if player.velocity.x < -PLAYER_RUN_EPSILON {
                    player.velocity.x = -PLAYER_DASH_SPEED;
                }
                player.velocity.y = 0;
                gravity.velocity.y = 0;
                player.move_forbid_set.insert(AbilityId::Dash);
            }
        },
    }
}

} // verus!
