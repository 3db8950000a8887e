//! What the player character can do: run, jump, fall and land.

pub mod abilities;

use vstd::prelude::*;
use crate::collision::{Collision, CollisionEvent, Entity};
use crate::physics::{Gravity, VelocityError, VelocityId, VelocityMap, GRAVITY};
use crate::player::abilities::AbilityId;
use crate::vector::{clamped, clamped_sum, Vector};

verus! {

/// Width and height of the player's sprite, in steps.
pub const PLAYER_SIZE: i32 = 16000;

/// Running speed, in steps per frame.
pub const SPEED: i32 = 3500;

/// Upward velocity at the start of a jump.
pub const JUMP_POWER: i32 = 7500;

/// Falling faster than this counts as falling: three frames of gravity.
pub const FALLING_SPEED: i32 = 210;

/// What gravity gains per frame on a falling player, beyond [`GRAVITY`].
pub const FALL_GAIN: i32 = 84;

/// Gravity must have built up more than this before the gain applies.
pub const FALL_GAIN_THRESHOLD: i32 = 140;

/// Velocity that carries a player into a room entered from below.
pub const SPAWN_VEL_X: i32 = -4000;

/// Velocity that carries a player into a room entered from below.
pub const SPAWN_VEL_Y: i32 = 4000;

/// How long that velocity lasts, in milliseconds.
pub const SPAWN_VEL_DUR: u64 = 400;

/// The abilities that currently keep the player from steering.
#[derive(Debug, Clone, Copy, PartialEq, Eq, Structural)]
pub struct MoveForbidSet {
    pub dash: bool,
    pub wall_jump: bool,
}

impl MoveForbidSet {
    /// Whether `ability` keeps the player from steering. Only a dash and a
    /// wall jump ever do.
    pub open spec fn spec_contains(self, ability: AbilityId) -> bool {
        match ability {
            AbilityId::Dash => self.dash,
            AbilityId::WallJump => self.wall_jump,
            _ => false,
        }
    }

    pub open spec fn spec_is_empty(self) -> bool {
        !self.dash && !self.wall_jump
    }

    /// The set that forbids nothing.
    pub fn new() -> (set: MoveForbidSet)
        ensures
            set.spec_is_empty(),
    {
        MoveForbidSet { dash: false, wall_jump: false }
    }

    #[verifier::when_used_as_spec(spec_is_empty)]
    pub fn is_empty(self) -> (empty: bool)
        ensures
            empty == self.spec_is_empty(),
    {
        !self.dash && !self.wall_jump
    }

    #[verifier::when_used_as_spec(spec_contains)]
    pub fn contains(self, ability: AbilityId) -> (inside: bool)
        ensures
            inside == self.spec_contains(ability),
    {
        match ability {
            AbilityId::Dash => self.dash,
            AbilityId::WallJump => self.wall_jump,
            _ => false,
        }
    }

    /// Lets `ability` keep the player from steering; other abilities than a
    /// dash and a wall jump cannot.
    pub fn insert(&mut self, ability: AbilityId)
        ensures
            final(self).dash == (old(self).dash || ability == AbilityId::Dash),
            final(self).wall_jump == (old(self).wall_jump || ability == AbilityId::WallJump),
    {
        match ability {
            AbilityId::Dash => self.dash = true,
            AbilityId::WallJump => self.wall_jump = true,
            _ => {},
        }
    }

    /// Lets the player steer again as far as `ability` is concerned.
    pub fn remove(&mut self, ability: AbilityId)
        ensures
            final(self).dash == (old(self).dash && ability != AbilityId::Dash),
            final(self).wall_jump == (old(self).wall_jump && ability != AbilityId::WallJump),
    {
        match ability {
            AbilityId::Dash => self.dash = false,
            AbilityId::WallJump => self.wall_jump = false,
            _ => {},
        }
    }
}

/// The keys that are held down.
#[derive(Debug, Clone, Copy, PartialEq, Eq, Structural)]
pub struct PressedKeys {
    /// Run to the left.
    pub a: bool,
    /// Run to the right.
    pub d: bool,
    /// Jump.
    pub space: bool,
}

/// The movement of the player character.
#[derive(Debug, Clone, Copy)]
pub struct PlayerMovement {
    pub vel_id: VelocityId,
    pub can_jump: bool,
    pub move_forbid_set: MoveForbidSet,
    pub velocity: Vector,
}

impl PlayerMovement {
    /// A player at rest who may jump and steer, writing to the slot `vel_id`.
    pub fn new(vel_id: VelocityId) -> (player: PlayerMovement)
        ensures
            player.vel_id == vel_id,
            player.can_jump,
            player.move_forbid_set.spec_is_empty(),
            player.velocity == (Vector { x: 0, y: 0 }),
    {
        PlayerMovement {
            vel_id,
            can_jump: true,
            move_forbid_set: MoveForbidSet::new(),
            velocity: Vector { x: 0, y: 0 },
        }
    }

    /// A player at rest, writing to a slot of its own that it registers in
    /// `vel_map`.
    pub fn new_in(vel_map: &mut VelocityMap) -> (player: PlayerMovement)
        ensures
            player.vel_id.issuer() == old(vel_map).owner(),
            player.vel_id.slot() == old(vel_map).slots().len(),
            player.can_jump,
            player.move_forbid_set.spec_is_empty(),
            player.velocity == (Vector { x: 0, y: 0 }),
            final(vel_map).slots() == old(vel_map).slots().push(Vector { x: 0, y: 0 }),
            final(vel_map).owner() == old(vel_map).owner(),
            final(vel_map).spec_last_velocity() == old(vel_map).spec_last_velocity(),
    {
        let (id, _) = vel_map.register();
        PlayerMovement::new(id)
    }
}

/// The horizontal velocity that the held keys ask for.
pub open spec fn steering(keys: PressedKeys) -> int {
    (if keys.d {
        SPEED as int
    } else {
        0
    }) - (if keys.a {
        SPEED as int
    } else {
        0
    })
}

/// Steers the player by the held keys, and says whether a jump is asked
/// for. While an ability forbids steering, the keys do nothing.
pub fn player_input_system(player: &mut PlayerMovement, keys: PressedKeys) -> (jump: bool)
    ensures
        jump == (old(player).move_forbid_set.spec_is_empty() && keys.space),
        final(player).velocity.x == if old(player).move_forbid_set.spec_is_empty() {
            steering(keys)
        } else {
            old(player).velocity.x as int
        },
        final(player).velocity.y == old(player).velocity.y,
        final(player).vel_id == old(player).vel_id,
        final(player).can_jump == old(player).can_jump,
        final(player).move_forbid_set == old(player).move_forbid_set,
{
    if !player.move_forbid_set.is_empty() {
        return false;
    }
    player.velocity.x = 0;
    if keys.a {
        player.velocity.x = player.velocity.x - SPEED;
    }
    if keys.d {
        player.velocity.x = player.velocity.x + SPEED;
    }
    keys.space
}

/// Whether gravity at the velocity `grav_y_vel` counts as falling.
pub open spec fn spec_is_falling(grav_y_vel: i32) -> bool {
    grav_y_vel < -FALLING_SPEED
}

/// Whether gravity at the velocity `grav_y_vel` counts as falling.
#[verifier::when_used_as_spec(spec_is_falling)]
pub fn is_falling(grav_y_vel: i32) -> (falling: bool)
    ensures
        falling == spec_is_falling(grav_y_vel),
{
    grav_y_vel < -FALLING_SPEED
}

/// Answers a request to jump: a player who may jump and is not falling
/// leaves the ground with [`JUMP_POWER`], gravity starts anew, and the
/// player may not jump again before landing. Otherwise nothing changes.
pub fn player_jump_system(player: &mut PlayerMovement, grav: &mut Gravity) -> (jumped: bool)
    ensures
        jumped == (old(player).can_jump && !spec_is_falling(old(grav).velocity.y)),
        jumped ==> *final(player) == (PlayerMovement {
            velocity: Vector { x: old(player).velocity.x, y: JUMP_POWER },
            can_jump: false,
            ..*old(player)
        }) && *final(grav) == (Gravity {
            velocity: Vector { x: old(grav).velocity.x, y: 0 },
            ..*old(grav)
        }),
        !jumped ==> *final(player) == *old(player) && *final(grav) == *old(grav),
{
    let falling = is_falling(grav.velocity.y);
    let can_jump = !falling && player.can_jump;
    if can_jump {
        player.velocity.y = JUMP_POWER;
        player.can_jump = false;
        grav.velocity.y = 0;
    }
    can_jump
}

/// Hands on the side of a contact.
pub fn copy_collision(collision: &Collision) -> (copy: Collision)
    ensures
        copy == *collision,
{
    match collision {
        Collision::Left => Collision::Left,
        Collision::Right => Collision::Right,
        Collision::Top => Collision::Top,
        Collision::Bottom => Collision::Bottom,
        Collision::Inside => Collision::Inside,
    }
}

/// The player landed, or stays on the ground.
#[derive(Debug, Clone, Copy, PartialEq, Eq, Structural)]
pub struct PlayerLandEvent {
    pub player_entity: Entity,
    pub ground_entity: Entity,
}

/// A contact of the player.
#[derive(Debug, Clone, Copy, PartialEq, Eq, Structural)]
pub struct PlayerCollisionEvent {
    pub player_entity: Entity,
    pub static_entity: Entity,
    /// The side of the static entity that the player struck.
    pub collision_side: Collision,
}

/// What a contact of the player brings about.
#[derive(Debug, Clone, Copy, PartialEq, Eq, Structural)]
pub struct PlayerContact {
    pub collision: PlayerCollisionEvent,
    /// Set for a contact on the top side of the static entity.
    pub landing: Option<PlayerLandEvent>,
}

/// Whether a landing lets the player jump again: gravity's slot is known
/// and not falling, and the player hardly moves up or down.
pub open spec fn regains_jump(player: PlayerMovement, grav: Gravity, vel_map: VelocityMap) -> bool {
    &&& vel_map.issued(grav.vel_id)
    &&& !spec_is_falling(vel_map.slots()[grav.vel_id.slot() as int].y)
    &&& -GRAVITY < player.velocity.y < GRAVITY
}

/// Reacts to one contact of the player `player_entity`.
///
/// A contact of another entity does nothing. A contact of the player is
/// handed on. A contact on a top side is a landing, after which the player
/// may jump again where [`regains_jump`] holds. A contact on a bottom side
/// stops the player's rise.
pub fn player_collision_system(
    collision: &CollisionEvent,
    player_entity: Entity,
    player: &mut PlayerMovement,
    grav: &Gravity,
    vel_map: &VelocityMap,
) -> (contact: Option<PlayerContact>)
    ensures
        final(player).vel_id == old(player).vel_id,
        final(player).move_forbid_set == old(player).move_forbid_set,
        final(player).velocity.x == old(player).velocity.x,
        collision.moving_entity != player_entity ==> contact is None && *final(player) == *old(player),
        collision.moving_entity == player_entity ==> {
            &&& contact matches Some(c)
            &&& c.collision == (PlayerCollisionEvent {
                player_entity,
                static_entity: collision.static_entity,
                collision_side: collision.collision,
            })
            &&& c.landing == if collision.collision == Collision::Top {
                Some(PlayerLandEvent { player_entity, ground_entity: collision.static_entity })
            } else {
                None
            }
            &&& final(player).can_jump == (old(player).can_jump || (collision.collision == Collision::Top
                && regains_jump(*old(player), *grav, *vel_map)))
            &&& final(player).velocity.y == if collision.collision == Collision::Bottom {
                0
            } else {
                old(player).velocity.y
            }
        },
{
    if collision.moving_entity != player_entity {
        return None;
    }
    let event = PlayerCollisionEvent {
        player_entity,
        static_entity: collision.static_entity,
        collision_side: copy_collision(&collision.collision),
    };
    match collision.collision {
        Collision::Top => {
            match vel_map.get(grav.vel_id) {
                Some(grav_vel) => {
                    if !is_falling(grav_vel.y) && -GRAVITY < player.velocity.y && player.velocity.y < GRAVITY
                        && !player.can_jump {
                        player.can_jump = true;
                    }
                },
                None => {},
            }
            Some(
                PlayerContact {
                    collision: event,
                    landing: Some(PlayerLandEvent { player_entity, ground_entity: collision.static_entity }),
                },
            )
        },
        Collision::Bottom => {
            player.velocity.y = 0;
            Some(PlayerContact { collision: event, landing: None })
        },
        _ => Some(PlayerContact { collision: event, landing: None }),
    }
}

/// Lets a rising player be slowed by gravity, and a falling one fall
/// faster.
///
/// While the player rises, what gravity has built up is taken from the
/// player's own velocity and gravity starts anew. Otherwise, once gravity
/// has built up more than [`FALL_GAIN_THRESHOLD`], it gains [`FALL_GAIN`]
/// more. Sums are clamped to what is representable.
pub fn player_fall_system(player: &mut PlayerMovement, gravity: &mut Gravity)
    ensures
        final(player).vel_id == old(player).vel_id,
        final(player).can_jump == old(player).can_jump,
        final(player).move_forbid_set == old(player).move_forbid_set,
        final(player).velocity.x == old(player).velocity.x,
        final(gravity).vel_id == old(gravity).vel_id,
        old(player).velocity.y > 0 ==> final(player).velocity.y == clamped(
            old(player).velocity.y + old(gravity).velocity.y,
        ) && final(gravity).velocity == (Vector { x: 0, y: 0 }),
        old(player).velocity.y <= 0 ==> final(player).velocity.y == old(player).velocity.y
            && final(gravity).velocity.x == old(gravity).velocity.x && final(gravity).velocity.y == if old(
            gravity,
        ).velocity.y < -FALL_GAIN_THRESHOLD {
            clamped(old(gravity).velocity.y - FALL_GAIN)
        } else {
            old(gravity).velocity.y
        },
{
    if player.velocity.y > 0 {
        player.velocity.y = clamped_sum(player.velocity.y, gravity.velocity.y);
        gravity.velocity = Vector { x: 0, y: 0 };
    } else if gravity.velocity.y < -FALL_GAIN_THRESHOLD {
        gravity.velocity.y = clamped_sum(gravity.velocity.y, -FALL_GAIN);
    }
}

/// Writes the player's velocity into the player's slot of the velocity map;
/// fails where the map never issued that slot.
pub fn add_player_velocity_system(vel_map: &mut VelocityMap, player: &PlayerMovement) -> (written: Result<
    (),
    VelocityError,
>)
    ensures
        final(vel_map).owner() == old(vel_map).owner(),
        final(vel_map).spec_last_velocity() == old(vel_map).spec_last_velocity(),
        written.is_ok() == old(vel_map).issued(player.vel_id),
        match written {
            Ok(_) => final(vel_map).slots() == old(vel_map).slots().update(
                player.vel_id.slot() as int,
                player.velocity,
            ),
            Err(e) => e is NotFound && final(vel_map).slots() == old(vel_map).slots(),
        },
{
    match vel_map.set(player.vel_id, player.velocity) {
        Ok(_) => Ok(()),
        Err(e) => Err(e),
    }
}

/// Carries the player into a room that was entered from below.
#[derive(Debug, Clone, Copy)]
pub struct PlayerSpawn {
    pub vel_id: VelocityId,
    /// When the player arrived from below, in milliseconds.
    pub spawn_time: Option<u64>,
}

impl PlayerSpawn {
    /// A spawn that carries nobody yet, writing to a slot of its own that it
    /// registers in `vel_map`.
    pub fn new(vel_map: &mut VelocityMap) -> (spawn: PlayerSpawn)
        ensures
            spawn.vel_id.issuer() == old(vel_map).owner(),
            spawn.vel_id.slot() == old(vel_map).slots().len(),
            spawn.spawn_time is None,
            final(vel_map).slots() == old(vel_map).slots().push(Vector { x: 0, y: 0 }),
            final(vel_map).owner() == old(vel_map).owner(),
            final(vel_map).spec_last_velocity() == old(vel_map).spec_last_velocity(),
    {
        let (vel_id, _) = vel_map.register();
        PlayerSpawn { vel_id, spawn_time: None }
    }

    /// Notes that the player arrived from below at the time `now`.
    pub fn spawn_from_bottom(&mut self, now: u64)
        ensures
            final(self).spawn_time == Some(now),
            final(self).vel_id == old(self).vel_id,
    {
        self.spawn_time = Some(now);
    }

    /// Whether the player is still carried at the time `now`.
    pub open spec fn carries(self, now: u64) -> bool {
        self.spawn_time matches Some(since) && now - since < SPAWN_VEL_DUR
    }
}

/// Carries a player who arrived from below up and aside for a short while.
///
/// Nothing happens before the first arrival, or where the spawn's slot is
/// not in the map. While the player is carried, the slot holds the carrying
/// velocity and the player's own velocity and gravity are zero; afterwards
/// the slot is zero.
pub fn player_spawn_help_system(
    spawn: &PlayerSpawn,
    grav: &mut Gravity,
    mov: &mut PlayerMovement,
    vel_map: &mut VelocityMap,
    now: u64,
)
    ensures
        final(vel_map).owner() == old(vel_map).owner(),
        final(vel_map).spec_last_velocity() == old(vel_map).spec_last_velocity(),
        final(grav).vel_id == old(grav).vel_id,
        final(mov).vel_id == old(mov).vel_id,
        final(mov).can_jump == old(mov).can_jump,
        final(mov).move_forbid_set == old(mov).move_forbid_set,
        final(vel_map).slots() == if spawn.spawn_time is Some && old(vel_map).issued(spawn.vel_id) {
            old(vel_map).slots().update(
                spawn.vel_id.slot() as int,
                if spawn.carries(now) {
                    Vector { x: SPAWN_VEL_X, y: SPAWN_VEL_Y }
                } else {
                    Vector { x: 0, y: 0 }
                },
            )
        } else {
            old(vel_map).slots()
        },
        final(mov).velocity == if spawn.carries(now) && old(vel_map).issued(spawn.vel_id) {
            Vector { x: 0, y: 0 }
        } else {
            old(mov).velocity
        },
        final(grav).velocity == if spawn.carries(now) && old(vel_map).issued(spawn.vel_id) {
            Vector { x: 0, y: 0 }
        } else {
            old(grav).velocity
        },
{
    match spawn.spawn_time {
        Some(spawn_time) => {
            let carried = now < spawn_time || now - spawn_time < SPAWN_VEL_DUR;
            let vel = if carried {
                Vector { x: SPAWN_VEL_X, y: SPAWN_VEL_Y }
            } else {
                Vector { x: 0, y: 0 }
            };
            match vel_map.set(spawn.vel_id, vel) {
                Ok(_) => {
                    if carried {
                        mov.velocity = Vector { x: 0, y: 0 };
                        grav.velocity = Vector { x: 0, y: 0 };
                    }
                },
                Err(_) => {},
            }
        },
        None => {},
    }
}

} // verus!
