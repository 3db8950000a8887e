//! What a room consists of once its layers are decoded.
//!
//! The layers of a room are added front to back. A collision-only layer adds
//! colliders, a sprite layer adds tiles. The player appears at the first
//! connection tile, over all sprite layers, that lies on the side on which
//! the room is entered.

use vstd::prelude::*;
use crate::asset_loaders::{
    decoded_png, fits_layer, grid_of, load_image, AssetLoadError, Grid, TileImage,
};
use crate::map::layers::{colliders_of_layer, layer_colliders, ColliderSpawn};
use crate::map::tiles::{
    first_arrival, is_tile_fault, layer_tiles, lemma_layer_faults, load_layer, Layer, TileSpawn,
};
use crate::map::{Colors, ConnectionSide, LayerPlan, LoadMapError, LoadMapFault, MapConfig, RoomConfig};
use crate::vector::Vector;

verus! {

/// Everything to spawn for a room.
#[derive(Debug, Clone, PartialEq, Eq)]
pub struct RoomLayout {
    pub colliders: Vec<ColliderSpawn>,
    pub tiles: Vec<TileSpawn>,
    /// Where the player appears, once a connection tile on the side of entry
    /// was found.
    pub spawn_point: Option<Vector>,
}

/// The mathematical value of a [`RoomLayout`].
pub struct RoomLayoutView {
    pub colliders: Seq<ColliderSpawn>,
    pub tiles: Seq<TileSpawn>,
    pub spawn_point: Option<Vector>,
}

impl View for RoomLayout {
    type V = RoomLayoutView;

    open spec fn view(&self) -> RoomLayoutView {
        RoomLayoutView { colliders: self.colliders@, tiles: self.tiles@, spawn_point: self.spawn_point }
    }
}

/// The layout after one more layer with the image `image`, or the fault for
/// which the layer cannot be added.
pub open spec fn with_layer(
    layout: RoomLayoutView,
    image: Grid,
    layer: Layer,
    collision_only: bool,
    spawn_dir: Option<ConnectionSide>,
) -> Result<RoomLayoutView, LoadMapFault> {
    if collision_only {
        Ok(RoomLayoutView { colliders: layout.colliders + layer_colliders(image), ..layout })
    } else {
        match layer_tiles(image, layer) {
            Ok(tiles) => Ok(
                RoomLayoutView {
                    tiles: layout.tiles + tiles,
                    spawn_point: match layout.spawn_point {
                        Some(point) => Some(point),
                        None => first_arrival(tiles, spawn_dir),
                    },
                    ..layout
                },
            ),
            Err(fault) => Err(fault),
        }
    }
}

impl RoomLayout {
    /// The layout of a room without layers.
    pub fn new() -> (layout: RoomLayout)
        ensures
            layout@ == (RoomLayoutView { colliders: Seq::empty(), tiles: Seq::empty(), spawn_point: None }),
    {
        RoomLayout { colliders: Vec::new(), tiles: Vec::new(), spawn_point: None }
    }

    /// Adds the layer `plan` with the image `image`, for a room that is
    /// entered on the side `spawn_dir`.
    ///
    /// Fails, and changes nothing, when a pixel of a sprite layer stands for
    /// no tile.
    pub fn add_layer(
        &mut self,
        image: &TileImage,
        plan: &LayerPlan,
        room: &RoomConfig,
        map: &MapConfig,
        colors: &Colors,
        spawn_dir: Option<ConnectionSide>,
    ) -> (added: Result<(), LoadMapError>)
        ensures
            match added {
                Ok(_) => with_layer(
                    old(self)@,
                    image@,
                    Layer { room, map, colors, z_index: plan.z_index },
                    plan.collision_only,
                    spawn_dir,
                ) == Ok::<RoomLayoutView, LoadMapFault>(final(self)@),
                Err(e) => with_layer(
                    old(self)@,
                    image@,
                    Layer { room, map, colors, z_index: plan.z_index },
                    plan.collision_only,
                    spawn_dir,
                ) == Err::<RoomLayoutView, LoadMapFault>(e@) && final(self)@ == old(self)@,
            },
    {
        if plan.collision_only {
            let mut colliders = colliders_of_layer(image);
            self.colliders.append(&mut colliders);
            Ok(())
        } else {
            let layer = Layer { room, map, colors, z_index: plan.z_index };
            match load_layer(image, &layer, spawn_dir) {
                Ok(found) => {
                    let mut tiles = found.tiles;
                    self.tiles.append(&mut tiles);
                    if self.spawn_point.is_none() {
                        self.spawn_point = found.spawn_point;
                    }
                    Ok(())
                },
                Err(e) => Err(e),
            }
        }
    }

    /// Adds the layer `plan` from its PNG file `data`.
    ///
    /// Fails, and changes nothing, when `data` does not decode to a layer
    /// image, or when a pixel of a sprite layer stands for no tile.
    pub fn add_layer_file(
        &mut self,
        data: &[u8],
        plan: &LayerPlan,
        room: &RoomConfig,
        map: &MapConfig,
        colors: &Colors,
        spawn_dir: Option<ConnectionSide>,
    ) -> (added: Result<(), LoadMapError>)
        ensures
            added is Err ==> final(self)@ == old(self)@,
            match decoded_png(data@) {
                Some(raw) if fits_layer(raw.0, raw.1, raw.2) => match added {
                    Ok(_) => with_layer(
                        old(self)@,
                        grid_of(raw),
                        Layer { room, map, colors, z_index: plan.z_index },
                        plan.collision_only,
                        spawn_dir,
                    ) == Ok::<RoomLayoutView, LoadMapFault>(final(self)@),
                    Err(e) => with_layer(
                        old(self)@,
                        grid_of(raw),
                        Layer { room, map, colors, z_index: plan.z_index },
                        plan.collision_only,
                        spawn_dir,
                    ) == Err::<RoomLayoutView, LoadMapFault>(e@),
                },
                _ => added == Err::<(), LoadMapError>(LoadMapError::LoadError(AssetLoadError::DecodeImageError)),
            },
    {
        match load_image(data) {
            Ok(image) => self.add_layer(&image, plan, room, map, colors, spawn_dir),
            Err(e) => Err(LoadMapError::LoadError(e)),
        }
    }
}

/// One layer file as far as it could be loaded: the decoded image, or why
/// there is none.
pub type LayerFile = Result<TileImage, AssetLoadError>;

/// The layout after one more layer with the file `file`, or the fault for
/// which the layer cannot be added: that of the file, where it could not be
/// loaded.
pub open spec fn with_layer_file(
    layout: RoomLayoutView,
    file: LayerFile,
    layer: Layer,
    collision_only: bool,
    spawn_dir: Option<ConnectionSide>,
) -> Result<RoomLayoutView, LoadMapFault> {
    match file {
        Ok(image) => with_layer(layout, image@, layer, collision_only, spawn_dir),
        Err(e) => Err(LoadMapFault::LoadError(e)),
    }
}

/// The layout of the first `n` layers of a room, or the fault of the first
/// layer that cannot be added.
///
/// The layers are those that [`RoomConfig::layer_plan`] gives for the
/// variation: the room's own, then the variation's, each at its depth and of
/// its kind. `files` holds one file for each, in that order.
pub open spec fn room_layout_upto(
    room: &RoomConfig,
    map: &MapConfig,
    colors: &Colors,
    variation: Option<usize>,
    files: Seq<LayerFile>,
    spawn_dir: Option<ConnectionSide>,
    n: nat,
) -> Result<RoomLayoutView, LoadMapFault>
    decreases n,
{
    if n == 0 {
        Ok(RoomLayoutView { colliders: Seq::empty(), tiles: Seq::empty(), spawn_point: None })
    } else {
        match room_layout_upto(room, map, colors, variation, files, spawn_dir, (n - 1) as nat) {
            Ok(layout) => with_layer_file(
                layout,
                files[n - 1],
                Layer { room, map, colors, z_index: room.layer_plan(variation, n - 1).z_index },
                room.layer_plan(variation, n - 1).collision_only,
                spawn_dir,
            ),
            Err(fault) => Err(fault),
        }
    }
}

/// The layout of a room from the files of its layers, or the fault of the
/// first layer that cannot be added.
pub open spec fn room_layout(
    room: &RoomConfig,
    map: &MapConfig,
    colors: &Colors,
    variation: Option<usize>,
    files: Seq<LayerFile>,
    spawn_dir: Option<ConnectionSide>,
) -> Result<RoomLayoutView, LoadMapFault> {
    room_layout_upto(room, map, colors, variation, files, spawn_dir, files.len())
}

/// The faults of a room's layers: a file that could not be loaded, and the
/// faults of the tiles of a sprite layer.
pub open spec fn is_layer_fault(fault: LoadMapFault) -> bool {
    fault is LoadError || is_tile_fault(fault)
}

/// A room's layers fail with no other fault than those of their files and
/// tiles; never for a section.
pub proof fn lemma_room_layout_faults(
    room: &RoomConfig,
    map: &MapConfig,
    colors: &Colors,
    variation: Option<usize>,
    files: Seq<LayerFile>,
    spawn_dir: Option<ConnectionSide>,
    n: nat,
)
    ensures
        room_layout_upto(room, map, colors, variation, files, spawn_dir, n) matches Err(fault) ==> is_layer_fault(
            fault,
        ),
    decreases n,
{
    if n > 0 {
        lemma_room_layout_faults(room, map, colors, variation, files, spawn_dir, (n - 1) as nat);
        if files[n - 1] is Ok {
            lemma_layer_faults(
                files[n - 1]->Ok_0@,
                Layer { room, map, colors, z_index: room.layer_plan(variation, n - 1).z_index },
            );
        }
    }
}

/// Once a layer cannot be added, the layers after it change nothing.
proof fn lemma_room_fault_stays(
    room: &RoomConfig,
    map: &MapConfig,
    colors: &Colors,
    variation: Option<usize>,
    files: Seq<LayerFile>,
    spawn_dir: Option<ConnectionSide>,
    from: nat,
    to: nat,
    fault: LoadMapFault,
)
    requires
        from <= to,
        room_layout_upto(room, map, colors, variation, files, spawn_dir, from) == Err::<
            RoomLayoutView,
            LoadMapFault,
        >(fault),
    ensures
        room_layout_upto(room, map, colors, variation, files, spawn_dir, to) == Err::<RoomLayoutView, LoadMapFault>(
            fault,
        ),
    decreases to,
{
    if to > from {
        lemma_room_fault_stays(room, map, colors, variation, files, spawn_dir, from, (to - 1) as nat, fault);
    }
}

/// A collision-only layer adds colliders and nothing else: no tile, no
/// spawn point, and no fault, whatever its pixels are.
pub proof fn lemma_collision_only_layer(
    layout: RoomLayoutView,
    image: Grid,
    layer: Layer,
    spawn_dir: Option<ConnectionSide>,
)
    ensures
        with_layer(layout, image, layer, true, spawn_dir) == Ok::<RoomLayoutView, LoadMapFault>(
            RoomLayoutView { colliders: layout.colliders + layer_colliders(image), ..layout },
        ),
{
}

impl RoomLayout {
    /// Decodes the layers of a room, front to back, from the files of its
    /// layers.
    ///
    /// Fails with the fault of the first layer that cannot be added: its file
    /// could not be loaded, or a pixel of a sprite layer stands for no tile.
    pub fn of_room(
        room: &RoomConfig,
        map: &MapConfig,
        colors: &Colors,
        variation: Option<usize>,
        files: &Vec<LayerFile>,
        spawn_dir: Option<ConnectionSide>,
    ) -> (decoded: Result<RoomLayout, LoadMapError>)
        requires
            room.spec_can_plan(variation),
            files@.len() == room.layer_names(variation).len(),
        ensures
            match decoded {
                Ok(layout) => room_layout(room, map, colors, variation, files@, spawn_dir) == Ok::<
                    RoomLayoutView,
                    LoadMapFault,
                >(layout@),
                Err(e) => room_layout(room, map, colors, variation, files@, spawn_dir) == Err::<
                    RoomLayoutView,
                    LoadMapFault,
                >(e@),
            },
    {
        let plans = room.active_layers(variation);
        let mut layout = RoomLayout::new();
        let mut i: usize = 0;
        while i < files.len()
            invariant
                i <= files@.len(),
                plans@.len() == files@.len(),
                forall|k: int| 0 <= k < plans@.len() ==> #[trigger] plans@[k] == room.layer_plan(variation, k),
                room_layout_upto(room, map, colors, variation, files@, spawn_dir, i as nat) == Ok::<
                    RoomLayoutView,
                    LoadMapFault,
                >(layout@),
            decreases files@.len() - i,
        {
            let added = match &files[i] {
                Ok(image) => layout.add_layer(image, &plans[i], room, map, colors, spawn_dir),
                Err(e) => Err(LoadMapError::LoadError(e.duplicate())),
            };
            match added {
                Ok(_) => {},
                Err(e) => {
                    proof {
                        lemma_room_fault_stays(
                            room,
                            map,
                            colors,
                            variation,
                            files@,
                            spawn_dir,
                            (i + 1) as nat,
                            files@.len(),
                            e@,
                        );
                    }
                    return Err(e);
                },
            }
            i = i + 1;
        }
        Ok(layout)
    }
}

} // verus!
