//! Decoding of sprite layers.
//!
//! Every opaque pixel of a sprite layer is one tile. The pixel's colour,
//! written as a colour key, names a sprite id in the section's legend, and
//! the sprite id names a tile configuration in the map. Pixels are read row
//! after row from the bottom row of the image upward, each row from left to
//! right.

use vstd::prelude::*;
use crate::asset_loaders::{Grid, Rgba, TileImage, MAX_SIDE};
use crate::collision::{Collider, CollisionFilter, ALL_BITS};
use crate::map::color::{color_hex, spec_color_hex};
use crate::map::connections::Connection;
use crate::map::{Colors, ConnectionSide, LoadMapError, LoadMapFault, MapConfig, RoomConfig, TileConfig};
use crate::player::abilities::collectibles::CollectibleAbilityTrigger;
use crate::player::abilities::{AbilityDescriptor, AbilityItem};
use crate::vector::{Vector, TILE_SIZE};

verus! {

/// What a sprite layer is decoded against.
#[derive(Debug, Clone, Copy)]
pub struct Layer<'room, 'map, 'colors> {
    pub room: &'room RoomConfig,
    pub map: &'map MapConfig,
    pub colors: &'colors Colors,
    /// Depth at which the layer's tiles are drawn.
    pub z_index: i16,
}

/// One tile to spawn.
#[derive(Debug, Clone, PartialEq, Eq)]
pub struct TileSpawn {
    /// Centre of the tile.
    pub position: Vector,
    /// Depth at which the tile is drawn.
    pub z_index: i16,
    /// Rotation about the depth axis, in degrees.
    pub zrot: i16,
    /// Path of the sprite image, for tiles that are drawn.
    pub sprite: Option<String>,
    pub collider: Option<Collider>,
    pub breakable: bool,
    pub collectible: Option<CollectibleAbilityTrigger>,
    pub connection: Option<Connection>,
    /// For a connection tile, where a player appears who arrives through it.
    pub arrival: Option<Vector>,
}

/// The tiles of a sprite layer, and where the player appears.
#[derive(Debug, Clone, PartialEq, Eq)]
pub struct LayerTiles {
    pub tiles: Vec<TileSpawn>,
    pub spawn_point: Option<Vector>,
}

/// How far a connection tile on `side` of the room is pushed outward, so
/// that it lies just outside the room.
pub open spec fn connection_offset(side: ConnectionSide) -> Vector {
    match side {
        ConnectionSide::Bottom => Vector { x: 0, y: (-TILE_SIZE) as i32 },
        ConnectionSide::Top => Vector { x: 0, y: TILE_SIZE },
        ConnectionSide::Right => Vector { x: TILE_SIZE, y: 0 },
        ConnectionSide::Left => Vector { x: (-TILE_SIZE) as i32, y: 0 },
    }
}

/// The collectible that lies on a tile with the item `item`: an area of 32
/// by 64 world units around the tile, for items that grant an ability.
pub open spec fn collectible_of(item: Option<AbilityItem>) -> Option<CollectibleAbilityTrigger> {
    match item {
        Some(item) => match AbilityDescriptor::ability_of(item) {
            Some(ability) => Some(
                CollectibleAbilityTrigger {
                    size: Vector { x: 32000, y: 64000 },
                    offset: Vector { x: 0, y: 0 },
                    ability,
                },
            ),
            None => None,
        },
        None => None,
    }
}

/// The collider of a tile: one tile wide and high, solid on the sides that
/// the configuration names; a connection tile without named sides is solid on
/// all of them.
pub open spec fn collider_of(config: TileConfig) -> Option<Collider> {
    match config.collision {
        Some(filter) => Some(Collider { size: Vector { x: TILE_SIZE, y: TILE_SIZE }, filter }),
        None => if config.connection is Some {
            Some(Collider { size: Vector { x: TILE_SIZE, y: TILE_SIZE }, filter: CollisionFilter(ALL_BITS) })
        } else {
            None
        },
    }
}

impl<'room, 'map, 'colors> Layer<'room, 'map, 'colors> {
    /// The tile that the opaque pixel `pixel` in column `x` of row `y`
    /// stands for, columns and rows below [`MAX_SIDE`].
    ///
    /// The tile lies at `x` and `y` tile sizes from the origin. A connection
    /// tile lies one tile size further out on its side of the room, and the
    /// player arrives one tile size further in.
    pub open spec fn tile_at(self, pixel: Rgba, x: int, y: int) -> Result<TileSpawn, LoadMapFault> {
        let color = spec_color_hex(pixel.r, pixel.g, pixel.b);
        if !self.colors@.contains_key(color) {
            Err(LoadMapFault::InvalidColor(color))
        } else if !self.map.sprites@.contains_key(self.colors@[color]@) {
            Err(LoadMapFault::InvalidSprite(self.colors@[color]@))
        } else {
            let config = self.map.sprites@[self.colors@[color]@];
            let tile = TileSpawn {
                position: Vector { x: (x * TILE_SIZE) as i32, y: (y * TILE_SIZE) as i32 },
                z_index: self.z_index,
                zrot: config.zrot,
                sprite: config.sprite,
                collider: collider_of(config),
                breakable: config.breakable,
                collectible: collectible_of(config.item),
                connection: None,
                arrival: None,
            };
            match config.connection {
                Some(side) => if self.room.connections@.contains_key(color) {
                    Ok(
                        TileSpawn {
                            position: Vector {
                                x: (x * TILE_SIZE + connection_offset(side).x) as i32,
                                y: (y * TILE_SIZE + connection_offset(side).y) as i32,
                            },
                            connection: Some(Connection(self.room.connections@[color], side)),
                            arrival: Some(
                                Vector {
                                    x: (x * TILE_SIZE - connection_offset(side).x) as i32,
                                    y: (y * TILE_SIZE - connection_offset(side).y) as i32,
                                },
                            ),
                            ..tile
                        },
                    )
                } else {
                    Err(LoadMapFault::UnsetConnection(color))
                },
                None => Ok(tile),
            }
        }
    }
}

/// The tiles of the first `n` pixels of row `y`, after the tiles `sofar`;
/// or the fault of the first pixel that stands for no tile.
pub open spec fn row_tiles(
    image: Grid,
    layer: Layer,
    y: int,
    n: nat,
    sofar: Result<Seq<TileSpawn>, LoadMapFault>,
) -> Result<Seq<TileSpawn>, LoadMapFault>
    decreases n,
{
    if n == 0 {
        sofar
    } else {
        let x = n - 1;
        match row_tiles(image, layer, y, (n - 1) as nat, sofar) {
            Ok(tiles) => if image.tile(x, y).a == 0 {
                Ok(tiles)
            } else {
                match layer.tile_at(image.tile(x, y), x, y) {
                    Ok(tile) => Ok(tiles.push(tile)),
                    Err(fault) => Err(fault),
                }
            },
            Err(fault) => Err(fault),
        }
    }
}

/// The tiles of the first `rows` rows, from the bottom; or the fault of the
/// first pixel that stands for no tile.
pub open spec fn tiles_upto(image: Grid, layer: Layer, rows: nat) -> Result<Seq<TileSpawn>, LoadMapFault>
    decreases rows,
{
    if rows == 0 {
        Ok(Seq::empty())
    } else {
        row_tiles(image, layer, rows - 1, image.width, tiles_upto(image, layer, (rows - 1) as nat))
    }
}

/// The tiles of a sprite layer, in the order in which the pixels are read;
/// or the fault of the first pixel that stands for no tile.
pub open spec fn layer_tiles(image: Grid, layer: Layer) -> Result<Seq<TileSpawn>, LoadMapFault> {
    tiles_upto(image, layer, image.height)
}

/// Whether a player who enters the room on the side `spawn_dir` arrives
/// through `tile`.
pub open spec fn receives(tile: TileSpawn, spawn_dir: Option<ConnectionSide>) -> bool {
    tile.connection matches Some(connection) && spawn_dir == Some(connection.1)
}

/// Where a player appears who enters on the side `spawn_dir`: at the arrival
/// point of the first of `tiles` that is a connection on that side.
pub open spec fn first_arrival(tiles: Seq<TileSpawn>, spawn_dir: Option<ConnectionSide>) -> Option<Vector>
    decreases tiles.len(),
{
    if tiles.len() == 0 {
        None
    } else {
        match first_arrival(tiles.drop_last(), spawn_dir) {
            Some(point) => Some(point),
            None => if receives(tiles.last(), spawn_dir) {
                tiles.last().arrival
            } else {
                None
            },
        }
    }
}

/// The player arrives through the first tile, in reading order, that is a
/// connection on the side of entry and has an arrival point; and nowhere
/// where there is no such tile.
pub proof fn lemma_first_arrival_is_first(tiles: Seq<TileSpawn>, spawn_dir: Option<ConnectionSide>, i: int)
    requires
        0 <= i <= tiles.len(),
        forall|k: int| 0 <= k < i ==> !(receives(#[trigger] tiles[k], spawn_dir) && tiles[k].arrival is Some),
        i < tiles.len() ==> receives(tiles[i], spawn_dir) && tiles[i].arrival is Some,
    ensures
        first_arrival(tiles, spawn_dir) == if i < tiles.len() {
            tiles[i].arrival
        } else {
            None
        },
    decreases tiles.len(),
{
    if tiles.len() > 0 {
        let front = tiles.drop_last();
        if i < front.len() {
            lemma_first_arrival_is_first(front, spawn_dir, i);
        } else {
            lemma_first_arrival_is_first(front, spawn_dir, front.len() as int);
        }
    }
}

/// Every connection tile that a pixel stands for has an arrival point.
pub proof fn lemma_connections_have_arrivals(layer: Layer, pixel: Rgba, x: int, y: int)
    ensures
        layer.tile_at(pixel, x, y) matches Ok(tile) ==> (tile.connection is Some <==> tile.arrival is Some),
{
}

/// The faults of a sprite layer: a colour without sprite id, a sprite id
/// without tile configuration, a connection that the room does not list.
pub open spec fn is_tile_fault(fault: LoadMapFault) -> bool {
    fault is InvalidColor || fault is InvalidSprite || fault is UnsetConnection
}

proof fn lemma_row_faults(
    image: Grid,
    layer: Layer,
    y: int,
    n: nat,
    sofar: Result<Seq<TileSpawn>, LoadMapFault>,
)
    requires
        sofar matches Err(fault) ==> is_tile_fault(fault),
    ensures
        row_tiles(image, layer, y, n, sofar) matches Err(fault) ==> is_tile_fault(fault),
    decreases n,
{
    if n > 0 {
        lemma_row_faults(image, layer, y, (n - 1) as nat, sofar);
    }
}

proof fn lemma_faults_upto(image: Grid, layer: Layer, rows: nat)
    ensures
        tiles_upto(image, layer, rows) matches Err(fault) ==> is_tile_fault(fault),
    decreases rows,
{
    if rows > 0 {
        lemma_faults_upto(image, layer, (rows - 1) as nat);
        lemma_row_faults(image, layer, rows - 1, image.width, tiles_upto(image, layer, (rows - 1) as nat));
    }
}

/// A sprite layer fails with no other fault than those of its tiles.
pub proof fn lemma_layer_faults(image: Grid, layer: Layer)
    ensures
        layer_tiles(image, layer) matches Err(fault) ==> is_tile_fault(fault),
{
    lemma_faults_upto(image, layer, image.height);
}

/// A row read after a fault changes nothing.
proof fn lemma_row_fault_stays(image: Grid, layer: Layer, y: int, n: nat, fault: LoadMapFault)
    ensures
        row_tiles(image, layer, y, n, Err(fault)) == Err::<Seq<TileSpawn>, LoadMapFault>(fault),
    decreases n,
{
    if n > 0 {
        lemma_row_fault_stays(image, layer, y, (n - 1) as nat, fault);
    }
}

/// Once a pixel stands for no tile, the rest of its row changes nothing.
proof fn lemma_fault_stays_in_row(
    image: Grid,
    layer: Layer,
    y: int,
    from: nat,
    to: nat,
    sofar: Result<Seq<TileSpawn>, LoadMapFault>,
    fault: LoadMapFault,
)
    requires
        from <= to,
        row_tiles(image, layer, y, from, sofar) == Err::<Seq<TileSpawn>, LoadMapFault>(fault),
    ensures
        row_tiles(image, layer, y, to, sofar) == Err::<Seq<TileSpawn>, LoadMapFault>(fault),
    decreases to,
{
    if to > from {
        lemma_fault_stays_in_row(image, layer, y, from, (to - 1) as nat, sofar, fault);
    }
}

/// Once a pixel stands for no tile, the rows above it change nothing.
proof fn lemma_fault_stays_in_rows(image: Grid, layer: Layer, from: nat, to: nat, fault: LoadMapFault)
    requires
        from <= to,
        tiles_upto(image, layer, from) == Err::<Seq<TileSpawn>, LoadMapFault>(fault),
    ensures
        tiles_upto(image, layer, to) == Err::<Seq<TileSpawn>, LoadMapFault>(fault),
    decreases to,
{
    if to > from {
        lemma_fault_stays_in_rows(image, layer, from, (to - 1) as nat, fault);
        lemma_row_fault_stays(image, layer, to - 1, image.width, fault);
    }
}

fn offset_of(side: ConnectionSide) -> (offset: Vector)
    ensures
        offset == connection_offset(side),
{
    match side {
        ConnectionSide::Bottom => Vector { x: 0, y: -TILE_SIZE },
        ConnectionSide::Top => Vector { x: 0, y: TILE_SIZE },
        ConnectionSide::Right => Vector { x: TILE_SIZE, y: 0 },
        ConnectionSide::Left => Vector { x: -TILE_SIZE, y: 0 },
    }
}

fn collectible_for(item: Option<AbilityItem>) -> (collectible: Option<CollectibleAbilityTrigger>)
    ensures
        collectible == collectible_of(item),
{
    match item {
        Some(item) => match AbilityDescriptor::of_item(item) {
            Some(ability) => Some(
                CollectibleAbilityTrigger::new_with_descriptor(
                    Vector { x: 32000, y: 64000 },
                    Vector { x: 0, y: 0 },
                    ability,
                ),
            ),
            None => None,
        },
        None => None,
    }
}

fn collider_for(config: &TileConfig) -> (collider: Option<Collider>)
    ensures
        collider == collider_of(*config),
{
    match config.collision {
        Some(filter) => Some(Collider { size: Vector { x: TILE_SIZE, y: TILE_SIZE }, filter }),
        None => if config.connection.is_some() {
            Some(Collider { size: Vector { x: TILE_SIZE, y: TILE_SIZE }, filter: CollisionFilter(ALL_BITS) })
        } else {
            None
        },
    }
}

impl<'room, 'map, 'colors> Layer<'room, 'map, 'colors> {
    /// Decides [`Layer::tile_at`].
    pub fn spawn_tile(&self, pixel: Rgba, x: u32, y: u32) -> (spawned: Result<TileSpawn, LoadMapError>)
        requires
            x < MAX_SIDE,
            y < MAX_SIDE,
        ensures
            match spawned {
                Ok(tile) => self.tile_at(pixel, x as int, y as int) == Ok::<TileSpawn, LoadMapFault>(tile),
                Err(e) => self.tile_at(pixel, x as int, y as int) == Err::<TileSpawn, LoadMapFault>(e@),
            },
    {
        let color_hex = color_hex(pixel.r, pixel.g, pixel.b);
        let sprite_id = match self.colors.get(color_hex.as_str()) {
            Some(sprite_id) => sprite_id,
            None => {
                return Err(LoadMapError::InvalidColor(color_hex));
            },
        };
        let tile_config = match self.map.sprites.get(sprite_id.as_str()) {
            Some(tile_config) => tile_config,
            None => {
                return Err(LoadMapError::InvalidSprite(sprite_id.clone()));
            },
        };
        let base = Vector { x: x as i32 * TILE_SIZE, y: y as i32 * TILE_SIZE };
        let sprite = match &tile_config.sprite {
            Some(path) => Some(path.clone()),
            None => None,
        };
        match tile_config.connection {
            Some(connection_side) => match self.room.connections.get(color_hex.as_str()) {
                Some(connection_config) => {
                    let offset = offset_of(connection_side);
                    Ok(
                        TileSpawn {
                            position: Vector { x: base.x + offset.x, y: base.y + offset.y },
                            z_index: self.z_index,
                            zrot: tile_config.zrot,
                            sprite,
                            collider: collider_for(tile_config),
                            breakable: tile_config.breakable,
                            collectible: collectible_for(tile_config.item),
                            connection: Some(Connection(connection_config.duplicate(), connection_side)),
                            arrival: Some(Vector { x: base.x - offset.x, y: base.y - offset.y }),
                        },
                    )
                },
                None => Err(LoadMapError::UnsetConnection(color_hex)),
            },
            None => Ok(
                TileSpawn {
                    position: base,
                    z_index: self.z_index,
                    zrot: tile_config.zrot,
                    sprite,
                    collider: collider_for(tile_config),
                    breakable: tile_config.breakable,
                    collectible: collectible_for(tile_config.item),
                    connection: None,
                    arrival: None,
                },
            ),
        }
    }
}

/// Decodes a sprite layer into its tiles, and finds where a player appears
/// who enters the room on the side `spawn_dir`.
///
/// Fails with the fault of the first pixel, in reading order, that stands
/// for no tile: its colour is not in the legend, its sprite id is not in the
/// map, or it is a connection that the room does not list.
pub fn load_layer(image: &TileImage, layer: &Layer, spawn_dir: Option<ConnectionSide>) -> (loaded: Result<
    LayerTiles,
    LoadMapError,
>)
    ensures
        match loaded {
            Ok(found) => layer_tiles(image@, *layer) == Ok::<Seq<TileSpawn>, LoadMapFault>(found.tiles@)
                && found.spawn_point == first_arrival(found.tiles@, spawn_dir),
            Err(e) => layer_tiles(image@, *layer) == Err::<Seq<TileSpawn>, LoadMapFault>(e@),
        },
{
    let mut tiles: Vec<TileSpawn> = Vec::new();
    let mut spawn_point: Option<Vector> = None;
    let width = image.width();
    let height = image.height();
    let mut y: u32 = 0;
    while y < height
        invariant
            y <= height,
            width == image@.width,
            height == image@.height,
            width <= MAX_SIDE,
            height <= MAX_SIDE,
            tiles_upto(image@, *layer, y as nat) == Ok::<Seq<TileSpawn>, LoadMapFault>(tiles@),
            spawn_point == first_arrival(tiles@, spawn_dir),
        decreases height - y,
    {
        let ghost before = tiles_upto(image@, *layer, y as nat);
        let mut x: u32 = 0;
        while x < width
            invariant
                x <= width,
                y < height,
                width == image@.width,
                height == image@.height,
                width <= MAX_SIDE,
                height <= MAX_SIDE,
                before == tiles_upto(image@, *layer, y as nat),
                row_tiles(image@, *layer, y as int, x as nat, before) == Ok::<Seq<TileSpawn>, LoadMapFault>(
                    tiles@,
                ),
                spawn_point == first_arrival(tiles@, spawn_dir),
            decreases width - x,
        {
            let pixel = image.get_tile(x, y);
            if pixel.a != 0 {
                match layer.spawn_tile(pixel, x, y) {
                    Ok(tile) => {
                        if spawn_point.is_none() {
                            match (&tile.connection, spawn_dir) {
                                (Some(connection), Some(dir)) => {
                                    if connection.1 == dir {
                                        spawn_point = tile.arrival;
                                    }
                                },
                                _ => {},
                            }
                        }
                        proof {
                            assert(tiles@.push(tile).drop_last() =~= tiles@);
                        }
                        tiles.push(tile);
                    },
                    Err(e) => {
                        proof {
                            lemma_fault_stays_in_row(
                                image@,
                                *layer,
                                y as int,
                                (x + 1) as nat,
                                width as nat,
                                before,
                                e@,
                            );
                            lemma_fault_stays_in_rows(image@, *layer, (y + 1) as nat, height as nat, e@);
                        }
                        return Err(e);
                    },
                }
            }
            x = x + 1;
        }
        y = y + 1;
    }
    Ok(LayerTiles { tiles, spawn_point })
}

} // verus!
