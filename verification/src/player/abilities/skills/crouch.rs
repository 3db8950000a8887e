//! Crouching: a small collider, and a fast fall that breaks what it lands on.

use vstd::prelude::*;
use crate::collision::Entity;
use crate::physics::{Gravity, GRAVITY};
use crate::player::abilities::{AbilityId, MouseInput, PlayerInventory};
use crate::player::{PlayerLandEvent, PlayerMovement, PLAYER_SIZE};
use crate::vector::{clamped, half, spec_half, Vector};

verus! {

/// What a crouching player's fall gains per frame.
pub const CROUCH_FALL_SPEED: i32 = 210;

/// Fastest fall of a crouching player.
pub const MAX_CROUCH_FALL_SPEED: i32 = -27000;

/// Width and height of a crouching player's collider.
pub const CROUCH_SIZE: i32 = 4000;

#[derive(Debug, Clone, Copy, PartialEq, Eq, Structural)]
pub enum CrouchState {
    NotCrouching,
    Airborne,
    Grounded,
}

impl Default for CrouchState {
    fn default() -> (state: CrouchState)
        ensures
            state == CrouchState::NotCrouching,
    {
        CrouchState::NotCrouching
    }
}

#[derive(Debug, Clone, Copy, PartialEq, Eq, Structural)]
pub struct PlayerCrouch {
    pub state: CrouchState,
}

impl Default for PlayerCrouch {
    fn default() -> (crouch: PlayerCrouch)
        ensures
            crouch.state == CrouchState::NotCrouching,
    {
        PlayerCrouch { state: CrouchState::NotCrouching }
    }
}

/// Everything that crouching reads and writes.
pub struct Crouching {
    pub grav: Gravity,
    pub crouch: PlayerCrouch,
    pub player: PlayerMovement,
    /// Size of the player's collider.
    pub size: Vector,
}

/// The fall of a crouching player one frame after `y`.
pub open spec fn crouch_fall(y: int) -> i32 {
    if y - CROUCH_FALL_SPEED >= MAX_CROUCH_FALL_SPEED {
        clamped(y - CROUCH_FALL_SPEED)
    } else {
        MAX_CROUCH_FALL_SPEED
    }
}

/// One frame of a crouch in the air: the collider is small, gravity is off,
/// the player falls faster and does not move sideways.
pub open spec fn airborne(before: Crouching) -> Crouching {
    Crouching {
        grav: Gravity { velocity: Vector { x: 0, y: 0 }, ..before.grav },
        crouch: PlayerCrouch { state: CrouchState::Airborne },
        player: PlayerMovement {
            velocity: Vector { x: 0, y: crouch_fall(before.player.velocity.y as int) },
            ..before.player
        },
        size: Vector { x: CROUCH_SIZE, y: CROUCH_SIZE },
    }
}

/// One frame of crouching, with `pressed` saying whether the button of the
/// crouch's slot went down.
///
/// A player who does not crouch starts to, in the air, when the button goes
/// down, and else keeps the full collider. A crouch in the air goes on as
/// [`airborne`] says. A crouch on the ground keeps the player from jumping
/// and from rising; it turns into a crouch in the air once gravity has built
/// up more than two frames' worth, ends when the button goes down, and else
/// halves the player's speed.
pub open spec fn crouched(before: Crouching, pressed: bool) -> Crouching {
    match before.crouch.state {
        CrouchState::NotCrouching => if pressed {
            airborne(
                Crouching {
                    player: PlayerMovement {
                        velocity: Vector { x: before.player.velocity.x, y: 0 },
                        ..before.player
                    },
                    ..before
                },
            )
        } else {
            Crouching { size: Vector { x: PLAYER_SIZE, y: PLAYER_SIZE }, ..before }
        },
        CrouchState::Airborne => airborne(before),
        CrouchState::Grounded => {
            let held = Crouching {
                player: PlayerMovement {
                    velocity: Vector { x: before.player.velocity.x, y: 0 },
                    can_jump: false,
                    ..before.player
                },
                size: Vector { x: CROUCH_SIZE, y: CROUCH_SIZE },
                ..before
            };
            if before.grav.velocity.y < -2 * GRAVITY {
                airborne(held)
            } else if pressed {
                Crouching {
                    crouch: PlayerCrouch { state: CrouchState::NotCrouching },
                    player: PlayerMovement { can_jump: true, ..held.player },
                    size: Vector { x: PLAYER_SIZE, y: PLAYER_SIZE },
                    ..held
                }
            } else {
                Crouching {
                    player: PlayerMovement {
                        velocity: Vector { x: spec_half(held.player.velocity.x as int) as i32, y: 0 },
                        ..held.player
                    },
                    ..held
                }
            }
        },
    }
}

fn fall_crouched(grav: &mut Gravity, crouch: &mut PlayerCrouch, player_move: &mut PlayerMovement, size: &mut Vector)
    ensures
        (Crouching { grav: *final(grav), crouch: *final(crouch), player: *final(player_move), size: *final(size) })
            == airborne(
            Crouching { grav: *old(grav), crouch: *old(crouch), player: *old(player_move), size: *old(size) },
        ),
{
    crouch.state = CrouchState::Airborne;
    *size = Vector { x: CROUCH_SIZE, y: CROUCH_SIZE };
    grav.velocity = Vector { x: 0, y: 0 };
    let fallen: i64 = player_move.velocity.y as i64 - CROUCH_FALL_SPEED as i64;
    player_move.velocity.y = if fallen >= MAX_CROUCH_FALL_SPEED as i64 {
        fallen as i32
    } else {
        MAX_CROUCH_FALL_SPEED
    };
    player_move.velocity.x = 0;
}

/// Lets one frame of crouching pass for a player who has the crouch
/// equipped; does nothing for one who has not.
pub fn player_crouch_system(
    grav: &mut Gravity,
    crouch: &mut PlayerCrouch,
    player_move: &mut PlayerMovement,
    size: &mut Vector,
    inv: &PlayerInventory,
    just_pressed: MouseInput,
)
    ensures
        (Crouching { grav: *final(grav), crouch: *final(crouch), player: *final(player_move), size: *final(size) })
            == if inv.slot_of(AbilityId::Crouch) is Some {
            crouched(
                Crouching { grav: *old(grav), crouch: *old(crouch), player: *old(player_move), size: *old(size) },
                inv.triggered(AbilityId::Crouch, just_pressed),
            )
        } else {
            Crouching { grav: *old(grav), crouch: *old(crouch), player: *old(player_move), size: *old(size) }
        },
{
    if inv.get_equipped_at(AbilityId::Crouch).is_none() {
        return ;
    }
    let pressed = inv.is_triggered(AbilityId::Crouch, just_pressed);
    match crouch.state {
        CrouchState::NotCrouching => {
            if pressed {
                player_move.velocity.y = 0;
                fall_crouched(grav, crouch, player_move, size);
            } else {
                *size = Vector { x: PLAYER_SIZE, y: PLAYER_SIZE };
            }
        },
        CrouchState::Airborne => {
            fall_crouched(grav, crouch, player_move, size);
        },
        CrouchState::Grounded => {
            *size = Vector { x: CROUCH_SIZE, y: CROUCH_SIZE };
            player_move.can_jump = false;
            player_move.velocity.y = 0;
            if grav.velocity.y < -2 * GRAVITY {
                fall_crouched(grav, crouch, player_move, size);
            } else if pressed {
                crouch.state = CrouchState::NotCrouching;
                *size = Vector { x: PLAYER_SIZE, y: PLAYER_SIZE };
                player_move.can_jump = true;
            } else {
                player_move.velocity.x = half(player_move.velocity.x);
            }
        },
    }
}

/// A landing of the player, and whether the ground it landed on breaks.
#[derive(Debug, Clone, Copy, PartialEq, Eq, Structural)]
pub struct Landing {
    pub event: PlayerLandEvent,
    /// The ground entity carries a breakable collider.
    pub breakable: bool,
}

/// The ground entities of the landings that break, in order.
pub open spec fn broken_grounds(landings: Seq<Landing>) -> Seq<Entity>
    decreases landings.len(),
{
    if landings.len() == 0 {
        Seq::empty()
    } else if landings.last().breakable {
        broken_grounds(landings.drop_last()).push(landings.last().event.ground_entity)
    } else {
        broken_grounds(landings.drop_last())
    }
}

/// Lets a crouch in the air end on the ground, and says which grounds the
/// landing breaks.
///
/// `landings` are the frame's landings of this player. A player who
/// crouches in the air and lands is then crouching on the ground, and every
/// breakable ground among the landings breaks. Any other player is left as
/// is and breaks nothing.
pub fn crouch_collision_system(crouch: &mut PlayerCrouch, landings: &Vec<Landing>) -> (despawn: Vec<Entity>)
    ensures
        old(crouch).state == CrouchState::Airborne && landings@.len() > 0 ==> final(crouch).state
            == CrouchState::Grounded && despawn@ == broken_grounds(landings@),
        !(old(crouch).state == CrouchState::Airborne && landings@.len() > 0) ==> *final(crouch) == *old(crouch)
            && despawn@ == Seq::<Entity>::empty(),
{
    let mut despawn: Vec<Entity> = Vec::new();
    if crouch.state != CrouchState::Airborne {
        return despawn;
    }
    let mut i: usize = 0;
    assert(landings@.take(0) =~= Seq::<Landing>::empty());
    while i < landings.len()
        invariant
            i <= landings@.len(),
            despawn@ == broken_grounds(landings@.take(i as int)),
            crouch.state == if i > 0 {
                CrouchState::Grounded
            } else {
                CrouchState::Airborne
            },
        decreases landings@.len() - i,
    {
        proof {
            assert(landings@.take(i + 1).drop_last() =~= landings@.take(i as int));
        }
        if landings[i].breakable {
            despawn.push(landings[i].event.ground_entity);
        }
        crouch.state = CrouchState::Grounded;
        i = i + 1;
    }
    proof {
        assert(landings@.take(landings@.len() as int) =~= landings@);
    }
    despawn
}

} // verus!
