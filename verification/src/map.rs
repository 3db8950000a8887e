//! Rooms, their tile layers and the connections between them.

pub mod color;
pub mod layers;
pub mod connections;
pub mod tiles;
pub mod layout;

pub use crate::map::layers::{load_collision_layer, ColliderSpawn};
pub use crate::map::layout::{LayerFile, RoomLayout};
pub use crate::map::tiles::{load_layer, Layer, LayerTiles, TileSpawn};

use vstd::prelude::*;
use vstd::string::*;
use crate::asset_loaders::AssetLoadError;
use crate::map::layout::{lemma_room_layout_faults, room_layout, RoomLayoutView};
use crate::collision::{Collision, CollisionFilter, Entity};
use crate::player::abilities::AbilityItem;
use crate::string_map::StringMap;
use crate::vector::Vector;

verus! {

/// `str::eq`, the `==` of string slices: two string slices are equal exactly
/// when they hold the same characters.
pub assume_specification[ <str as PartialEq>::eq ](a: &str, b: &str) -> (same: bool)
    ensures
        same == (a@ == b@),
;

/// A section's legend: from a colour key to the id of a sprite.
pub type Colors = StringMap<String>;

/// The side of a room on which a connection tile lies.
#[derive(Debug, Clone, Copy, PartialEq, Eq, Structural)]
pub enum ConnectionSide {
    Top,
    Right,
    Bottom,
    Left,
}

impl ConnectionSide {
    /// The side of a connection tile that a mover strikes when it leaves the
    /// room through it: a tile at the bottom of the room is struck on its top.
    pub open spec fn struck_side(self) -> Collision {
        match self {
            ConnectionSide::Bottom => Collision::Top,
            ConnectionSide::Top => Collision::Bottom,
            ConnectionSide::Left => Collision::Right,
            ConnectionSide::Right => Collision::Left,
        }
    }

    /// The opposite side.
    pub open spec fn spec_inverse(self) -> ConnectionSide {
        match self {
            ConnectionSide::Bottom => ConnectionSide::Top,
            ConnectionSide::Top => ConnectionSide::Bottom,
            ConnectionSide::Right => ConnectionSide::Left,
            ConnectionSide::Left => ConnectionSide::Right,
        }
    }

    /// Whether a contact on the side `coll_dir` of a connection tile on this
    /// side of the room leads through the connection.
    pub fn matches_collision(self, coll_dir: &Collision) -> (matches: bool)
        ensures
            matches == (*coll_dir == self.struck_side()),
    {
        match (self, coll_dir) {
            (ConnectionSide::Bottom, Collision::Top) => true,
            (ConnectionSide::Top, Collision::Bottom) => true,
            (ConnectionSide::Left, Collision::Right) => true,
            (ConnectionSide::Right, Collision::Left) => true,
            _ => false,
        }
    }

    /// The opposite side: where a mover arrives that left through this side.
    #[verifier::when_used_as_spec(spec_inverse)]
    pub fn inverse(self) -> (side: ConnectionSide)
        ensures
            side == self.spec_inverse(),
    {
        match self {
            ConnectionSide::Bottom => ConnectionSide::Top,
            ConnectionSide::Top => ConnectionSide::Bottom,
            ConnectionSide::Right => ConnectionSide::Left,
            ConnectionSide::Left => ConnectionSide::Right,
        }
    }
}

/// Leaving on one side means arriving on the opposite one, and the opposite
/// of the opposite is the side itself.
pub proof fn lemma_inverse_is_involution(side: ConnectionSide)
    ensures
        side.spec_inverse() != side,
        side.spec_inverse().spec_inverse() == side,
{
}

/// A connection is struck on exactly one side of its tile, and never from
/// inside: a tile at the bottom of the room only on its top, one at the top
/// only on its bottom, one on the left only on its right, one on the right
/// only on its left.
pub proof fn lemma_connection_side_matching(side: ConnectionSide, coll_dir: Collision)
    ensures
        (coll_dir == side.struck_side()) <==> match side {
            ConnectionSide::Bottom => coll_dir == Collision::Top,
            ConnectionSide::Top => coll_dir == Collision::Bottom,
            ConnectionSide::Left => coll_dir == Collision::Right,
            ConnectionSide::Right => coll_dir == Collision::Left,
        },
        side.struck_side() != Collision::Inside,
{
}

/// Which room to load.
#[derive(Debug, Clone, PartialEq, Eq)]
pub struct LoadRoomConfig {
    /// The section of the room, where it is not the current one.
    pub section: Option<String>,
    pub room: String,
    /// Index of the variation whose layers are added to the room's own.
    pub variation: Option<usize>,
}

impl LoadRoomConfig {
    /// A copy of this descriptor.
    pub fn duplicate(&self) -> (copy: LoadRoomConfig)
        ensures
            copy == *self,
    {
        LoadRoomConfig {
            section: match &self.section {
                Some(name) => Some(name.clone()),
                None => None,
            },
            room: self.room.clone(),
            variation: self.variation,
        }
    }
}

/// What a sprite id stands for.
#[derive(Debug, Clone, PartialEq, Eq)]
pub struct TileConfig {
    /// Path of the sprite image, for tiles that are drawn.
    pub sprite: Option<String>,
    /// Rotation about the depth axis, in degrees.
    pub zrot: i16,
    pub breakable: bool,
    /// The item that lies on the tile.
    pub item: Option<AbilityItem>,
    /// The sides on which the tile is solid, for tiles that are.
    pub collision: Option<CollisionFilter>,
    /// The side of the room on which the tile connects to another room.
    pub connection: Option<ConnectionSide>,
}

/// The map descriptor: every sprite id with its tile configuration, and
/// every section id with its base directory.
#[derive(Debug)]
pub struct MapConfig {
    pub sprites: StringMap<TileConfig>,
    pub sections: StringMap<String>,
}

/// A section descriptor.
#[derive(Debug)]
pub struct SectionConfig {
    pub colors: Colors,
}

/// The section that rooms are currently loaded from.
#[derive(Debug)]
pub struct Section {
    pub name: String,
    pub colors: Colors,
}

/// A room descriptor.
#[derive(Debug)]
pub struct RoomConfig {
    /// Names of the layers of every variation, front to back.
    pub layers: Vec<String>,
    /// The layers that each variation adds behind the room's own.
    pub variations: Vec<Vec<String>>,
    /// From the colour key of a connection tile to the room behind it.
    pub connections: StringMap<LoadRoomConfig>,
    /// The layers that hold collider corners in place of tiles.
    pub collisions: StringMap<bool>,
}

/// One layer of a room to load.
#[derive(Debug, Clone, PartialEq, Eq)]
pub struct LayerPlan {
    /// Name of the layer's image file within the room's directory.
    pub name: String,
    /// Depth at which the layer is drawn: zero for the first layer, one
    /// further back for each layer after it.
    pub z_index: i16,
    /// The layer holds collider corners in place of tiles.
    pub collision_only: bool,
}

/// Most layers that a room can have: the depths must be representable.
pub const MAX_LAYERS: usize = 0x8000;

impl RoomConfig {
    /// The variation asked for exists, or none is asked for.
    pub open spec fn spec_has_variation(&self, variation: Option<usize>) -> bool {
        variation matches Some(index) ==> index < self.variations@.len()
    }

    /// Decides [`RoomConfig::spec_has_variation`].
    #[verifier::when_used_as_spec(spec_has_variation)]
    pub fn has_variation(&self, variation: Option<usize>) -> (exists: bool)
        ensures
            exists == self.spec_has_variation(variation),
    {
        match variation {
            Some(index) => index < self.variations.len(),
            None => true,
        }
    }

    /// The names of the layers to load: the room's own, then those that the
    /// variation adds.
    pub open spec fn layer_names(&self, variation: Option<usize>) -> Seq<String> {
        match variation {
            Some(index) => self.layers@ + self.variations@[index as int]@,
            None => self.layers@,
        }
    }

    /// The room lists the layer `name` as collision-only.
    pub open spec fn is_collision_only(&self, name: Seq<char>) -> bool {
        self.collisions@.contains_key(name) && self.collisions@[name]
    }

    /// The plan of the layer at `index` of [`RoomConfig::layer_names`].
    pub open spec fn layer_plan(&self, variation: Option<usize>, index: int) -> LayerPlan {
        LayerPlan {
            name: self.layer_names(variation)[index],
            z_index: (-index) as i16,
            collision_only: self.is_collision_only(self.layer_names(variation)[index]@),
        }
    }

    /// The variation exists and the layers are few enough to give each a
    /// depth.
    pub open spec fn spec_can_plan(&self, variation: Option<usize>) -> bool {
        self.spec_has_variation(variation) && self.layer_names(variation).len() <= MAX_LAYERS
    }

    /// Decides [`RoomConfig::spec_can_plan`].
    #[verifier::when_used_as_spec(spec_can_plan)]
    pub fn can_plan(&self, variation: Option<usize>) -> (possible: bool)
        ensures
            possible == self.spec_can_plan(variation),
    {
        match variation {
            Some(index) => index < self.variations.len() && self.layers.len() <= MAX_LAYERS
                && self.variations[index].len() <= MAX_LAYERS - self.layers.len(),
            None => self.layers.len() <= MAX_LAYERS,
        }
    }

    fn plan_layer(&self, name: &String, index: usize) -> (plan: LayerPlan)
        requires
            index < MAX_LAYERS,
        ensures
            plan.name == *name,
            plan.z_index == -index,
            plan.collision_only == self.is_collision_only(name@),
    {
        let collision_only = match self.collisions.get(name.as_str()) {
            Some(flag) => *flag,
            None => false,
        };
        LayerPlan { name: name.clone(), z_index: (-(index as i32)) as i16, collision_only }
    }

    /// Resolves the layers to load, front to back: the room's own layers,
    /// then those of the variation, each with its depth and with what the
    /// room says of its kind.
    pub fn active_layers(&self, variation: Option<usize>) -> (plans: Vec<LayerPlan>)
        requires
            self.can_plan(variation),
        ensures
            plans@.len() == self.layer_names(variation).len(),
            forall|i: int| 0 <= i < plans@.len() ==> #[trigger] plans@[i] == self.layer_plan(variation, i),
    {
        let mut plans: Vec<LayerPlan> = Vec::new();
        let mut i: usize = 0;
        while i < self.layers.len()
            invariant
                i <= self.layers@.len(),
                self.can_plan(variation),
                plans@.len() == i,
                forall|k: int| 0 <= k < i ==> #[trigger] plans@[k] == self.layer_plan(variation, k),
            decreases self.layers@.len() - i,
        {
            let plan = self.plan_layer(&self.layers[i], i);
            plans.push(plan);
            i = i + 1;
        }
        match variation {
            Some(index) => {
                let extra = &self.variations[index];
                let base = self.layers.len();
                let mut j: usize = 0;
                while j < extra.len()
                    invariant
                        j <= extra@.len(),
                        base == self.layers@.len(),
                        variation == Some(index),
                        index < self.variations@.len(),
                        *extra == self.variations@[index as int],
                        self.can_plan(variation),
                        plans@.len() == base + j,
                        forall|k: int|
                            0 <= k < base + j ==> #[trigger] plans@[k] == self.layer_plan(variation, k),
                    decreases extra@.len() - j,
                {
                    let plan = self.plan_layer(&extra[j], base + j);
                    plans.push(plan);
                    j = j + 1;
                }
            },
            None => {},
        }
        plans
    }
}

/// A loaded room: its id and the entity that all its tiles hang from.
#[derive(Debug, Clone, PartialEq, Eq)]
pub struct Room {
    pub id: String,
    pub entity: Entity,
    /// Where the player stood when the room was left for a checkpoint.
    pub player_position: Option<Vector>,
}

/// Where the player appears in a room entered through a connection.
#[derive(Debug, Clone, Copy, PartialEq, Eq, Structural)]
pub struct PlayerSpawnPoint {
    pub spawn_dir: ConnectionSide,
    pub spawn_point: Vector,
}

/// Which section's directory a room is loaded from.
#[derive(Debug, Clone, PartialEq, Eq)]
pub struct SectionChoice {
    /// Base directory of the section.
    pub path: String,
    /// The section to switch to before the room is loaded, where the room
    /// lies in another section than the current one.
    pub switch_to: Option<String>,
}

/// A room that was loaded.
#[derive(Debug, Clone, PartialEq, Eq)]
pub struct LoadedRoom {
    /// Everything to spawn for the room.
    pub layout: RoomLayout,
    /// Where the player appears, for a room entered through a connection.
    pub spawn: Option<PlayerSpawnPoint>,
}

/// What returning to the previous room leaves to do.
#[derive(Debug, Clone, Copy, PartialEq, Eq, Structural)]
pub struct PreviousRoom {
    /// The root entity of the room that was left; all of it is to be
    /// despawned.
    pub despawned: Option<Entity>,
    /// Where the player stood in the room that is now current.
    pub spawn_point: Option<Vector>,
}

/// The stack after a room was loaded on top of `rooms`.
pub open spec fn after_load(rooms: Seq<Room>, room: Room) -> Seq<Room> {
    rooms.push(room)
}

/// The stack after the current room of `rooms` was left.
pub open spec fn after_leave(rooms: Seq<Room>) -> Seq<Room> {
    if rooms.len() > 0 {
        rooms.drop_last()
    } else {
        rooms
    }
}

/// The root entities of the rooms on the stack: the active entities are
/// those that hang from one of them.
pub open spec fn root_entities(rooms: Seq<Room>) -> Seq<Entity> {
    Seq::new(rooms.len(), |i: int| rooms[i].entity)
}

/// Loading a room and then returning to the previous one leaves the stack,
/// its length and the root entities of the active rooms exactly as they were
/// before the room was loaded.
pub proof fn lemma_room_stack_discipline(rooms: Seq<Room>, room: Room)
    ensures
        after_leave(after_load(rooms, room)) == rooms,
        after_leave(after_load(rooms, room)).len() == rooms.len(),
        after_load(rooms, room).len() == rooms.len() + 1,
        after_load(rooms, room).last() == room,
        root_entities(after_leave(after_load(rooms, room))) == root_entities(rooms),
{
    assert(rooms.push(room).drop_last() =~= rooms);
}

/// A map together with one of its sections.
#[derive(Debug)]
struct Atlas {
    map: MapConfig,
    current_section: Section,
}

impl Atlas {
    /// The map lists the current section.
    #[verifier::type_invariant]
    spec fn section_is_listed(self) -> bool {
        self.map.sections@.contains_key(self.current_section.name@)
    }
}

/// Loads rooms and remembers the rooms that were loaded before.
#[derive(Debug)]
pub struct MapManager {
    /// The rooms that were loaded and not left, the current one last.
    room_stack: Vec<Room>,
    atlas: Atlas,
}

impl MapManager {
    /// The rooms that were loaded and not left, the current one last.
    pub closed spec fn rooms(&self) -> Seq<Room> {
        self.room_stack@
    }

    /// The map that rooms are loaded from.
    pub closed spec fn map_config(&self) -> MapConfig {
        self.atlas.map
    }

    /// The section that rooms are loaded from.
    pub closed spec fn section(&self) -> Section {
        self.atlas.current_section
    }

    /// Starts from the map descriptor `map`, in the section `section_name`
    /// with the descriptor `section`, without rooms.
    pub fn load_map(map: MapConfig, section_name: String, section: SectionConfig) -> (manager: MapManager)
        requires
            map.sections@.contains_key(section_name@),
        ensures
            manager.rooms() == Seq::<Room>::empty(),
            manager.map_config() == map,
            manager.section() == (Section { name: section_name, colors: section.colors }),
    {
        MapManager {
            room_stack: Vec::new(),
            atlas: Atlas { map, current_section: Section { name: section_name, colors: section.colors } },
        }
    }

    /// The map that rooms are loaded from.
    pub fn map(&self) -> (map: &MapConfig)
        ensures
            *map == self.map_config(),
    {
        &self.atlas.map
    }

    /// The section that rooms are loaded from.
    pub fn current_section(&self) -> (section: &Section)
        ensures
            *section == self.section(),
            self.map_config().sections@.contains_key(section.name@),
    {
        proof {
            use_type_invariant(&self.atlas);
        }
        &self.atlas.current_section
    }

    /// Decides which section the room `load_room` is loaded from.
    ///
    /// A room that names no section, or the current one, is loaded from the
    /// current section. A room that names another section is loaded from
    /// that one, which is to be switched to first; this fails where the map
    /// lists no such section.
    pub fn select_section(&self, load_room: &LoadRoomConfig) -> (choice: Result<SectionChoice, LoadMapError>)
        ensures
            match load_room.section {
                Some(name) if name@ != self.section().name@ => match choice {
                    Ok(chosen) => self.map_config().sections@.contains_key(name@) && chosen.path
                        == self.map_config().sections@[name@] && chosen.switch_to == Some(name),
                    Err(e) => !self.map_config().sections@.contains_key(name@) && e
                        == LoadMapError::SectionNotFoundError(name),
                },
                _ => choice matches Ok(chosen) && chosen.path == self.map_config().sections@[self.section().name@]
                    && chosen.switch_to is None,
            },
    {
        proof {
            use_type_invariant(&self.atlas);
        }
        match &load_room.section {
            Some(name) => {
                if !name.as_str().eq(self.atlas.current_section.name.as_str()) {
                    return match self.atlas.map.sections.get(name.as_str()) {
                        Some(path) => Ok(SectionChoice { path: path.clone(), switch_to: Some(name.clone()) }),
                        None => Err(LoadMapError::SectionNotFoundError(name.clone())),
                    };
                }
            },
            None => {},
        }
        match self.atlas.map.sections.get(self.atlas.current_section.name.as_str()) {
            Some(path) => Ok(SectionChoice { path: path.clone(), switch_to: None }),
            None => unreached(),
        }
    }

    /// Makes the section `name`, with the descriptor `section`, the current
    /// one.
    pub fn switch_section(&mut self, name: String, section: SectionConfig)
        requires
            old(self).map_config().sections@.contains_key(name@),
        ensures
            final(self).section() == (Section { name, colors: section.colors }),
            final(self).map_config() == old(self).map_config(),
            final(self).rooms() == old(self).rooms(),
    {
        self.atlas.current_section = Section { name, colors: section.colors };
    }

    /// The current room.
    pub fn current_room(&self) -> (room: Option<&Room>)
        ensures
            match room {
                Some(r) => self.rooms().len() > 0 && *r == self.rooms().last(),
                None => self.rooms().len() == 0,
            },
    {
        if self.room_stack.len() > 0 {
            Some(&self.room_stack[self.room_stack.len() - 1])
        } else {
            None
        }
    }

    /// Number of rooms that were loaded and not left.
    pub fn room_count(&self) -> (count: usize)
        ensures
            count == self.rooms().len(),
    {
        self.room_stack.len()
    }

    /// The room `load_room` lies in another section than the current one.
    pub open spec fn switch_due(&self, load_room: LoadRoomConfig) -> bool {
        load_room.section matches Some(name) && name@ != self.section().name@
    }

    /// The room `load_room` lies in another section than the current one,
    /// and the map lists no section of that name.
    pub open spec fn section_missing(&self, load_room: LoadRoomConfig) -> bool {
        self.switch_due(load_room) && !self.map_config().sections@.contains_key(load_room.section.unwrap()@)
    }

    /// The section that the room `load_room` is loaded in: the section that
    /// it names, with the descriptor `section`, where that is another than
    /// the current one; else the current one.
    pub open spec fn entered_section(&self, load_room: LoadRoomConfig, section: Option<SectionConfig>) -> Section {
        if self.switch_due(load_room) && section is Some {
            Section { name: load_room.section.unwrap(), colors: section.unwrap().colors }
        } else {
            self.section()
        }
    }

    /// The layout of the room `load_room` from the files of its layers: its
    /// layers in plan order, decoded against the map and the legend of the
    /// section that the room is loaded in.
    pub open spec fn room_layout_of(
        &self,
        load_room: LoadRoomConfig,
        section: Option<SectionConfig>,
        room: &RoomConfig,
        files: Seq<LayerFile>,
        spawn_direction: Option<ConnectionSide>,
    ) -> Result<RoomLayoutView, LoadMapFault> {
        room_layout(
            room,
            &self.map_config(),
            &self.entered_section(load_room, section).colors,
            load_room.variation,
            files,
            spawn_direction,
        )
    }

    /// What loading a room needs: the variation exists and its layers can
    /// be planned, there is one file for each layer, and the descriptor of
    /// the section is there where the room lies in another listed section.
    pub open spec fn can_load(
        &self,
        load_room: LoadRoomConfig,
        section: Option<SectionConfig>,
        room: &RoomConfig,
        files: Seq<LayerFile>,
    ) -> bool {
        &&& room.spec_can_plan(load_room.variation)
        &&& files.len() == room.layer_names(load_room.variation).len()
        &&& self.switch_due(load_room) && !self.section_missing(load_room) ==> section is Some
    }

    /// A room that is entered through a connection has a connection tile on
    /// the side of entry: where its layers decode, they give a spawn point.
    pub open spec fn arrives(
        &self,
        load_room: LoadRoomConfig,
        section: Option<SectionConfig>,
        room: &RoomConfig,
        files: Seq<LayerFile>,
        spawn_direction: Option<ConnectionSide>,
    ) -> bool {
        spawn_direction is Some ==> (self.room_layout_of(load_room, section, room, files, spawn_direction) matches Ok(
            layout,
        ) ==> layout.spawn_point is Some)
    }

    /// Decodes the room `load_room` as [`MapManager::load_room`] would, and
    /// changes nothing.
    ///
    /// Fails with `SectionNotFoundError` exactly when the room names another
    /// section than the current one and the map lists no such section; else
    /// with the fault of the first layer that cannot be added.
    pub fn room_layout(
        &self,
        load_room: &LoadRoomConfig,
        section: &Option<SectionConfig>,
        room: &RoomConfig,
        files: &Vec<LayerFile>,
        spawn_direction: Option<ConnectionSide>,
    ) -> (decoded: Result<RoomLayout, LoadMapError>)
        requires
            self.can_load(*load_room, *section, room, files@),
        ensures
            (decoded matches Err(e) && e is SectionNotFoundError) == self.section_missing(*load_room),
            self.section_missing(*load_room) ==> (decoded matches Err(e) && e
                == LoadMapError::SectionNotFoundError(load_room.section.unwrap())),
            !self.section_missing(*load_room) ==> match decoded {
                Ok(layout) => self.room_layout_of(*load_room, *section, room, files@, spawn_direction) == Ok::<
                    RoomLayoutView,
                    LoadMapFault,
                >(layout@),
                Err(e) => self.room_layout_of(*load_room, *section, room, files@, spawn_direction) == Err::<
                    RoomLayoutView,
                    LoadMapFault,
                >(e@),
            },
    {
        let choice = match self.select_section(load_room) {
            Ok(choice) => choice,
            Err(e) => {
                return Err(e);
            },
        };
        let colors = match (&choice.switch_to, section) {
            (Some(_), Some(descriptor)) => &descriptor.colors,
            _ => &self.current_section().colors,
        };
        proof {
            lemma_room_layout_faults(
                room,
                &self.map_config(),
                colors,
                load_room.variation,
                files@,
                spawn_direction,
                files@.len(),
            );
        }
        RoomLayout::of_room(room, self.map(), colors, load_room.variation, files, spawn_direction)
    }

    /// Loads the room `load_room` and makes it the current one.
    ///
    /// `section` is the descriptor of the section that the room names,
    /// `room` the descriptor of the room, `files` the files of its layers in
    /// plan order, `entity` the entity that its tiles will hang from, and
    /// `spawn_direction` the side on which the room is entered, if it is
    /// entered through a connection.
    ///
    /// A room that names another section than the current one is loaded in
    /// that section: this fails with `SectionNotFoundError`, and changes
    /// nothing, exactly when the map lists no such section; else the section
    /// becomes the current one, with the legend of its descriptor, before
    /// any layer is decoded. The layers are then decoded front to back, the
    /// room's own before the variation's. Where one cannot be added, its
    /// fault is returned and no room is loaded. Else the room is pushed onto
    /// the stack; its layout is returned and, for a room entered through a
    /// connection, where the player appears.
    pub fn load_room(
        &mut self,
        load_room: LoadRoomConfig,
        section: Option<SectionConfig>,
        room: &RoomConfig,
        files: &Vec<LayerFile>,
        entity: Entity,
        spawn_direction: Option<ConnectionSide>,
    ) -> (loaded: Result<LoadedRoom, LoadMapError>)
        requires
            old(self).can_load(load_room, section, room, files@),
            old(self).arrives(load_room, section, room, files@, spawn_direction),
        ensures
            final(self).map_config() == old(self).map_config(),
            (loaded matches Err(e) && e is SectionNotFoundError) == old(self).section_missing(load_room),
            old(self).section_missing(load_room) ==> {
                &&& loaded matches Err(e) && e == LoadMapError::SectionNotFoundError(load_room.section.unwrap())
                &&& final(self).section() == old(self).section()
                &&& final(self).rooms() == old(self).rooms()
            },
            !old(self).section_missing(load_room) ==> {
                &&& final(self).section() == old(self).entered_section(load_room, section)
                &&& match loaded {
                    Ok(found) => {
                        &&& old(self).room_layout_of(load_room, section, room, files@, spawn_direction) == Ok::<
                            RoomLayoutView,
                            LoadMapFault,
                        >(found.layout@)
                        &&& final(self).rooms() == after_load(
                            old(self).rooms(),
                            Room { id: load_room.room, entity, player_position: None },
                        )
                        &&& found.spawn == match spawn_direction {
                            Some(spawn_dir) => Some(
                                PlayerSpawnPoint { spawn_dir, spawn_point: found.layout.spawn_point.unwrap() },
                            ),
                            None => None,
                        }
                    },
                    Err(e) => {
                        &&& old(self).room_layout_of(load_room, section, room, files@, spawn_direction) == Err::<
                            RoomLayoutView,
                            LoadMapFault,
                        >(e@)
                        &&& final(self).rooms() == old(self).rooms()
                    },
                }
            },
    {
        let choice = match self.select_section(&load_room) {
            Ok(choice) => choice,
            Err(e) => {
                return Err(e);
            },
        };
        match choice.switch_to {
            Some(name) => match section {
                Some(descriptor) => {
                    self.switch_section(name, descriptor);
                },
                None => unreached(),
            },
            None => {},
        }
        proof {
            lemma_room_layout_faults(
                room,
                &self.map_config(),
                &self.section().colors,
                load_room.variation,
                files@,
                spawn_direction,
                files@.len(),
            );
        }
        let layout = match RoomLayout::of_room(
            room,
            self.map(),
            &self.current_section().colors,
            load_room.variation,
            files,
            spawn_direction,
        ) {
            Ok(layout) => layout,
            Err(e) => {
                return Err(e);
            },
        };
        let spawn = match spawn_direction {
            Some(spawn_dir) => match layout.spawn_point {
                Some(spawn_point) => Some(PlayerSpawnPoint { spawn_dir, spawn_point }),
                None => unreached(),
            },
            None => None,
        };
        self.room_stack.push(Room { id: load_room.room, entity, player_position: None });
        Ok(LoadedRoom { layout, spawn })
    }

    /// Leaves the current room: takes it off the stack and hands it out, so
    /// that everything that hangs from its entity can be despawned.
    pub fn leave_room(&mut self) -> (left: Option<Room>)
        ensures
            final(self).rooms() == after_leave(old(self).rooms()),
            final(self).map_config() == old(self).map_config(),
            final(self).section() == old(self).section(),
            left == if old(self).rooms().len() > 0 {
                Some(old(self).rooms().last())
            } else {
                None
            },
    {
        self.room_stack.pop()
    }

    /// Remembers where the player stands in the current room.
    pub fn remember_position(&mut self, position: Vector)
        ensures
            final(self).map_config() == old(self).map_config(),
            final(self).section() == old(self).section(),
            final(self).rooms() == if old(self).rooms().len() > 0 {
                old(self).rooms().update(
                    old(self).rooms().len() - 1,
                    Room { player_position: Some(position), ..old(self).rooms().last() },
                )
            } else {
                old(self).rooms()
            },
    {
        let count = self.room_stack.len();
        if count > 0 {
            self.room_stack[count - 1].player_position = Some(position);
        }
    }

    /// Returns to the previous room: leaves the current room, and says
    /// where the player stood in the room below it.
    pub fn load_previous_room(&mut self) -> (previous: PreviousRoom)
        ensures
            final(self).rooms() == after_leave(old(self).rooms()),
            final(self).map_config() == old(self).map_config(),
            final(self).section() == old(self).section(),
            previous.despawned == if old(self).rooms().len() > 0 {
                Some(old(self).rooms().last().entity)
            } else {
                None
            },
            previous.spawn_point == if final(self).rooms().len() > 0 {
                final(self).rooms().last().player_position
            } else {
                None
            },
    {
        let despawned = match self.room_stack.pop() {
            Some(room) => Some(room.entity),
            None => None,
        };
        let count = self.room_stack.len();
        let spawn_point = if count > 0 {
            self.room_stack[count - 1].player_position
        } else {
            None
        };
        PreviousRoom { despawned, spawn_point }
    }
}

#[derive(Debug, Clone, PartialEq, Eq)]
pub enum LoadMapError {
    /// An asset could not be loaded.
    LoadError(AssetLoadError),
    /// A descriptor is not what its format asks for; holds the parser's words.
    TomlParseError(String),
    /// The legend of the section lists no sprite for this colour key.
    InvalidColor(String),
    /// The map lists no tile configuration for this sprite id.
    InvalidSprite(String),
    /// The map lists no section of this name.
    SectionNotFoundError(String),
    /// A tile connects to another room, but the room descriptor lists no
    /// connection under the tile's colour key.
    UnsetConnection(String),
}

/// The mathematical value of a [`LoadMapError`]: its strings as sequences of
/// characters.
pub enum LoadMapFault {
    LoadError(AssetLoadError),
    TomlParseError(Seq<char>),
    InvalidColor(Seq<char>),
    InvalidSprite(Seq<char>),
    SectionNotFoundError(Seq<char>),
    UnsetConnection(Seq<char>),
}

impl View for LoadMapError {
    type V = LoadMapFault;

    open spec fn view(&self) -> LoadMapFault {
        match *self {
            LoadMapError::LoadError(e) => LoadMapFault::LoadError(e),
            LoadMapError::TomlParseError(s) => LoadMapFault::TomlParseError(s@),
            LoadMapError::InvalidColor(s) => LoadMapFault::InvalidColor(s@),
            LoadMapError::InvalidSprite(s) => LoadMapFault::InvalidSprite(s@),
            LoadMapError::SectionNotFoundError(s) => LoadMapFault::SectionNotFoundError(s@),
            LoadMapError::UnsetConnection(s) => LoadMapFault::UnsetConnection(s@),
        }
    }
}

impl LoadMapError {
    /// The error in words.
    pub open spec fn spec_message(self) -> Seq<char> {
        match self {
            LoadMapError::LoadError(e) => "Error to load asset: "@ + e.spec_message(),
            LoadMapError::TomlParseError(e) => "Error to parse toml file "@ + e@,
            LoadMapError::InvalidColor(c) =>
                "The color in the image could not be found its corresponding config file: "@ + c@,
            LoadMapError::InvalidSprite(s) => "The color assigned sprite could not be found in the config file: "@
                + s@,
            LoadMapError::SectionNotFoundError(s) => "The given section could not be found: "@ + s@,
            LoadMapError::UnsetConnection(c) => "The room lists no connection for the tile of color: "@ + c@,
        }
    }

    /// The error in words.
    pub fn message(&self) -> (text: String)
        ensures
            text@ == self.spec_message(),
    {
        match self {
            LoadMapError::LoadError(e) => {
                let mut text = "Error to load asset: ".to_owned();
                text.append(e.message().as_str());
                text
            },
            LoadMapError::TomlParseError(e) => {
                let mut text = "Error to parse toml file ".to_owned();
                text.append(e.as_str());
                text
            },
            LoadMapError::InvalidColor(c) => {
                let mut text =
                    "The color in the image could not be found its corresponding config file: ".to_owned();
                text.append(c.as_str());
                text
            },
            LoadMapError::InvalidSprite(s) => {
                let mut text = "The color assigned sprite could not be found in the config file: ".to_owned();
                text.append(s.as_str());
                text
            },
            LoadMapError::SectionNotFoundError(s) => {
                let mut text = "The given section could not be found: ".to_owned();
                text.append(s.as_str());
                text
            },
            LoadMapError::UnsetConnection(c) => {
                let mut text = "The room lists no connection for the tile of color: ".to_owned();
                text.append(c.as_str());
                text
            },
        }
    }
}

} // verus!
