//! Connection tiles: the doors between rooms.

use vstd::prelude::*;
use crate::collision::{CollisionEvent, Entity};
use crate::map::{after_leave, ConnectionSide, LoadRoomConfig, MapManager, PlayerSpawnPoint};
use crate::player::PlayerSpawn;
use crate::vector::Vector;

verus! {

/// Marks a tile that leads to another room: the room behind it, and the side
/// of this room on which the tile lies.
#[derive(Debug, Clone, PartialEq, Eq)]
pub struct Connection(pub LoadRoomConfig, pub ConnectionSide);

/// What to do when a connection was taken.
#[derive(Debug, Clone, PartialEq, Eq)]
pub struct Transition {
    /// The root entity of the room that was left; all of it is to be
    /// despawned before the next room is loaded.
    pub despawn: Option<Entity>,
    /// The room to load in place of the one that was left.
    pub load_room: LoadRoomConfig,
    /// The side of the new room on which the player arrives.
    pub spawn_direction: ConnectionSide,
}

/// A contact takes the player through a connection: a player struck a
/// connection tile on the side that matches the side of the room on which
/// the tile lies.
pub open spec fn takes_connection(collision: CollisionEvent, connection: Option<&Connection>, is_player: bool) -> bool {
    connection matches Some(c) && is_player && collision.collision == c.1.struck_side()
}

/// Reacts to a contact that may take the player through a connection.
///
/// `connection` is the connection that the static entity of `collision`
/// carries, if it carries one; `is_player` says whether its moving entity is
/// a player. Where the contact takes the player through the connection, the
/// current room is left, and the transition names its entity, the room
/// behind the connection, and the side on which the player arrives there:
/// the opposite one. Any other contact changes nothing.
pub fn connection_collision_system(
    collision: &CollisionEvent,
    connection: Option<&Connection>,
    is_player: bool,
    map_manager: &mut MapManager,
) -> (transition: Option<Transition>)
    ensures
        transition.is_some() == takes_connection(*collision, connection, is_player),
        final(map_manager).map_config() == old(map_manager).map_config(),
        final(map_manager).section() == old(map_manager).section(),
        final(map_manager).rooms() == if takes_connection(*collision, connection, is_player) {
            after_leave(old(map_manager).rooms())
        } else {
            old(map_manager).rooms()
        },
        transition matches Some(t) ==> connection matches Some(c) && t.load_room == c.0 && t.spawn_direction
            == c.1.spec_inverse() && t.despawn == if old(map_manager).rooms().len() > 0 {
            Some(old(map_manager).rooms().last().entity)
        } else {
            None
        },
{
    match connection {
        Some(connection) => {
            if is_player && connection.1.matches_collision(&collision.collision) {
                let despawn = match map_manager.leave_room() {
                    Some(room) => Some(room.entity),
                    None => None,
                };
                Some(
                    Transition {
                        despawn,
                        load_room: connection.0.duplicate(),
                        spawn_direction: connection.1.inverse(),
                    },
                )
            } else {
                None
            }
        },
        None => None,
    }
}

/// Puts a player who went through a connection where the new room says:
/// at the spawn point. A player who arrives from below is carried into the
/// room from the time `now` on.
pub fn connection_arrival(
    spawn_point: &PlayerSpawnPoint,
    player_position: &mut Vector,
    player_spawn: &mut PlayerSpawn,
    now: u64,
)
    ensures
        *final(player_position) == spawn_point.spawn_point,
        final(player_spawn).vel_id == old(player_spawn).vel_id,
        final(player_spawn).spawn_time == if spawn_point.spawn_dir == ConnectionSide::Bottom {
            Some(now)
        } else {
            old(player_spawn).spawn_time
        },
{
    *player_position = spawn_point.spawn_point;
    if spawn_point.spawn_dir == ConnectionSide::Bottom {
        player_spawn.spawn_from_bottom(now);
    }
}

} // verus!
