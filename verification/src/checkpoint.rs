//! Checkpoints: places from which the player visits the checkpoint room and
//! returns.

use vstd::prelude::*;
use vstd::string::*;
use crate::collision::Entity;
use crate::map::{after_leave, LoadRoomConfig, MapManager, Room};
use crate::vector::Vector;

verus! {

#[derive(Debug, Clone, Copy, PartialEq, Eq, Structural)]
pub enum CheckpointKind {
    /// Leads back from the checkpoint room to the room before it.
    Return,
    /// Leads to the checkpoint room and remembers where the player stood.
    Checkpoint,
    /// Leads to the checkpoint room and forgets the room that was left.
    Reset,
}

/// The area around a checkpoint within which the player can use it.
#[derive(Debug, Clone, Copy, PartialEq, Eq, Structural)]
pub struct CheckpointTrigger {
    pub size: Vector,
    /// Where the area is centred, relative to the checkpoint.
    pub offset: Vector,
    pub kind: CheckpointKind,
}

/// Where the player appears in the checkpoint room: fifteen tiles to the
/// right and four up.
pub const CHECKPOINT_SPAWN_X: i32 = 120000;

/// Where the player appears in the checkpoint room.
pub const CHECKPOINT_SPAWN_Y: i32 = 32000;

/// What using a checkpoint leaves to do.
#[derive(Debug, Clone, PartialEq, Eq)]
pub struct CheckpointOutcome {
    /// The root entity of the room that was left; all of it is to be
    /// despawned.
    pub despawn: Option<Entity>,
    /// The room to load next.
    pub load_room: Option<LoadRoomConfig>,
    /// Where the player is to be put.
    pub player_position: Option<Vector>,
}

/// The descriptor of the checkpoint room: the room `checkpoint` of the
/// current section, without variation.
pub open spec fn is_checkpoint_room(load_room: LoadRoomConfig) -> bool {
    load_room.section is None && load_room.room@ == "checkpoint"@ && load_room.variation is None
}

fn checkpoint_room() -> (load_room: LoadRoomConfig)
    ensures
        is_checkpoint_room(load_room),
{
    LoadRoomConfig { section: None, room: "checkpoint".to_owned(), variation: None }
}

/// The entity of the current room of `rooms`.
pub open spec fn current_entity(rooms: Seq<Room>) -> Option<Entity> {
    if rooms.len() > 0 {
        Some(rooms.last().entity)
    } else {
        None
    }
}

/// Uses a checkpoint of the kind `kind`, with the player at
/// `player_position`.
///
/// At a reset, the current room is left and the checkpoint room is to be
/// loaded. At a checkpoint, the current room stays on the stack and
/// remembers where the player stood, its entities are to be despawned, and
/// the checkpoint room is to be loaded. At a return, the current room is
/// left, and the player is put where the room below remembers.
pub fn checkpoint_system(map_manager: &mut MapManager, kind: CheckpointKind, player_position: Vector) -> (outcome:
    CheckpointOutcome)
    ensures
        final(map_manager).map_config() == old(map_manager).map_config(),
        final(map_manager).section() == old(map_manager).section(),
        outcome.despawn == current_entity(old(map_manager).rooms()),
        match kind {
            CheckpointKind::Reset => {
                &&& final(map_manager).rooms() == after_leave(old(map_manager).rooms())
                &&& outcome.load_room matches Some(next) && is_checkpoint_room(next)
                &&& outcome.player_position == Some(Vector { x: CHECKPOINT_SPAWN_X, y: CHECKPOINT_SPAWN_Y })
            },
            CheckpointKind::Checkpoint => {
                &&& final(map_manager).rooms() == if old(map_manager).rooms().len() > 0 {
                    old(map_manager).rooms().update(
                        old(map_manager).rooms().len() - 1,
                        Room { player_position: Some(player_position), ..old(map_manager).rooms().last() },
                    )
                } else {
                    old(map_manager).rooms()
                }
                &&& outcome.load_room matches Some(next) && is_checkpoint_room(next)
                &&& outcome.player_position == Some(Vector { x: CHECKPOINT_SPAWN_X, y: CHECKPOINT_SPAWN_Y })
            },
            CheckpointKind::Return => {
                &&& final(map_manager).rooms() == after_leave(old(map_manager).rooms())
                &&& outcome.load_room is None
                &&& outcome.player_position == if final(map_manager).rooms().len() > 0 {
                    final(map_manager).rooms().last().player_position
                } else {
                    None
                }
            },
        },
{
    match kind {
        CheckpointKind::Reset => {
            let despawn = match map_manager.leave_room() {
                Some(room) => Some(room.entity),
                None => None,
            };
            CheckpointOutcome {
                despawn,
                load_room: Some(checkpoint_room()),
                player_position: Some(Vector { x: CHECKPOINT_SPAWN_X, y: CHECKPOINT_SPAWN_Y }),
            }
        },
        CheckpointKind::Checkpoint => {
            let despawn = match map_manager.current_room() {
                Some(room) => Some(room.entity),
                None => None,
            };
            map_manager.remember_position(player_position);
            CheckpointOutcome {
                despawn,
                load_room: Some(checkpoint_room()),
                player_position: Some(Vector { x: CHECKPOINT_SPAWN_X, y: CHECKPOINT_SPAWN_Y }),
            }
        },
        CheckpointKind::Return => {
            let previous = map_manager.load_previous_room();
            CheckpointOutcome { despawn: previous.despawned, load_room: None, player_position: previous.spawn_point }
        },
    }
}

} // verus!
