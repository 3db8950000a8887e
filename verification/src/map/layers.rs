//! Decoding of collision-only layers.
//!
//! A collision-only layer marks static colliders by pairs of pixels: the
//! first pixel of a colour opens a rectangle, the next pixel of the same
//! colour closes it. Pixels are read row after row from the bottom row of the
//! image upward, each row from left to right.

use vstd::prelude::*;
use crate::asset_loaders::{
    decoded_png, fits_layer, grid_of, load_image, Grid, Rgba, TileImage, MAX_SIDE,
};
use crate::collision::{Collider, CollisionFilter, ALL_BITS};
use crate::map::LoadMapError;
use crate::asset_loaders::AssetLoadError;
use crate::vector::{Vector, TILE_SIZE};

verus! {

/// A static collider to spawn, with the position of its centre.
#[derive(Debug, Clone, Copy, PartialEq, Eq, Structural)]
pub struct ColliderSpawn {
    pub position: Vector,
    pub collider: Collider,
}

/// The rectangles that are open while a collision-only layer is read: a
/// hash map of `bevy::utils`, from the pixel that opened a rectangle to the
/// tile of that pixel.
#[verifier::external_body]
pub struct PendingCorners {
    corners: bevy::utils::HashMap<image::Rgba<u8>, (u32, u32)>,
}

/// What a [`PendingCorners`] holds: for each pixel that has a rectangle
/// open, the tile that opened it.
pub uninterp spec fn open_corners(pending: PendingCorners) -> Map<Rgba, (u32, u32)>;

/// Calls `HashMap::default` of `hashbrown`, whose map `bevy::utils` hands
/// on: the map that it creates, with a default hasher, holds nothing.
#[verifier::external_body]
fn no_corners() -> (made: PendingCorners)
    ensures
        open_corners(made) == (Map::<Rgba, (u32, u32)>::empty()),
{
    PendingCorners { corners: bevy::utils::HashMap::default() }
}

/// Calls `HashMap::remove` of `hashbrown` with the pixel as the key: the key
/// is taken out of the map, and the value that it was bound to, if it was
/// bound, is returned; the other keys stay as they are.
#[verifier::external_body]
fn take_corner(pending: &mut PendingCorners, pixel: Rgba) -> (opened: Option<(u32, u32)>)
    ensures
        open_corners(*final(pending)) == open_corners(*old(pending)).remove(pixel),
        opened == if open_corners(*old(pending)).contains_key(pixel) {
            Some(open_corners(*old(pending))[pixel])
        } else {
            None
        },
{
    pending.corners.remove(&image::Rgba([pixel.r, pixel.g, pixel.b, pixel.a]))
}

/// Calls `HashMap::insert` of `hashbrown` with the pixel as the key: the key
/// is bound to the tile, in place of what it was bound to; the other keys
/// stay as they are.
#[verifier::external_body]
fn put_corner(pending: &mut PendingCorners, pixel: Rgba, tile: (u32, u32))
    ensures
        open_corners(*final(pending)) == open_corners(*old(pending)).insert(pixel, tile),
{
    pending.corners.insert(image::Rgba([pixel.r, pixel.g, pixel.b, pixel.a]), tile);
}

/// Number of tiles from `a` to `b`, both counted.
pub open spec fn span(a: u32, b: u32) -> int {
    if a <= b {
        b - a + 1
    } else {
        a - b + 1
    }
}

/// The collider that covers every tile from the tile `first` to the tile
/// `second`, both included: as many tiles wide and high as lie between the
/// two, centred midway between them, solid on every side. Tiles are given
/// as column and row; both are below [`MAX_SIDE`].
pub open spec fn rect_between(first: (u32, u32), second: (u32, u32)) -> ColliderSpawn {
    ColliderSpawn {
        position: Vector {
            x: ((first.0 + second.0) * (TILE_SIZE / 2)) as i32,
            y: ((first.1 + second.1) * (TILE_SIZE / 2)) as i32,
        },
        collider: Collider {
            size: Vector {
                x: (span(first.0, second.0) * TILE_SIZE) as i32,
                y: (span(first.1, second.1) * TILE_SIZE) as i32,
            },
            filter: CollisionFilter(ALL_BITS),
        },
    }
}

/// For tiles of a layer, the measures of [`rect_between`] are exact: nothing
/// is cut off where they are stored.
pub proof fn lemma_rect_between_is_exact(first: (u32, u32), second: (u32, u32))
    requires
        first.0 < MAX_SIDE,
        first.1 < MAX_SIDE,
        second.0 < MAX_SIDE,
        second.1 < MAX_SIDE,
    ensures
        rect_between(first, second).position.x == (first.0 + second.0) * (TILE_SIZE / 2),
        rect_between(first, second).position.y == (first.1 + second.1) * (TILE_SIZE / 2),
        rect_between(first, second).collider.size.x == span(first.0, second.0) * TILE_SIZE,
        rect_between(first, second).collider.size.y == span(first.1, second.1) * TILE_SIZE,
{
}

fn place_collider(first: (u32, u32), second: (u32, u32)) -> (spawn: ColliderSpawn)
    requires
        first.0 < MAX_SIDE,
        first.1 < MAX_SIDE,
        second.0 < MAX_SIDE,
        second.1 < MAX_SIDE,
    ensures
        spawn == rect_between(first, second),
{
    let width: u32 = if first.0 <= second.0 {
        second.0 - first.0 + 1
    } else {
        first.0 - second.0 + 1
    };
    let height: u32 = if first.1 <= second.1 {
        second.1 - first.1 + 1
    } else {
        first.1 - second.1 + 1
    };
    ColliderSpawn {
        position: Vector {
            x: (first.0 + second.0) as i32 * (TILE_SIZE / 2),
            y: (first.1 + second.1) as i32 * (TILE_SIZE / 2),
        },
        collider: Collider {
            size: Vector { x: width as i32 * TILE_SIZE, y: height as i32 * TILE_SIZE },
            filter: CollisionFilter(ALL_BITS),
        },
    }
}

/// What is known after some pixels of a collision-only layer were read.
pub struct PairScan {
    /// The rectangles that are open: for each pixel that opened one, its
    /// tile.
    pub pending: Map<Rgba, (u32, u32)>,
    /// The colliders of the rectangles that were closed, in the order in
    /// which they were closed.
    pub colliders: Seq<ColliderSpawn>,
}

/// Reads one more pixel, that of the tile in column `x` of row `y`. A
/// transparent pixel changes nothing. An opaque one closes the rectangle
/// that the same pixel, alpha included, has open, or else opens one.
pub open spec fn scan_pixel(state: PairScan, pixel: Rgba, x: u32, y: u32) -> PairScan {
    if pixel.a == 0 {
        state
    } else if state.pending.contains_key(pixel) {
        PairScan {
            pending: state.pending.remove(pixel),
            colliders: state.colliders.push(rect_between(state.pending[pixel], (x, y))),
        }
    } else {
        PairScan { pending: state.pending.insert(pixel, (x, y)), colliders: state.colliders }
    }
}

/// Reads the first `n` pixels of row `y`, from the left.
pub open spec fn scan_row(image: Grid, y: u32, n: nat, state: PairScan) -> PairScan
    decreases n,
{
    if n == 0 {
        state
    } else {
        let x = (n - 1) as u32;
        scan_pixel(scan_row(image, y, (n - 1) as nat, state), image.tile(x as int, y as int), x, y)
    }
}

/// Reads the first `rows` rows, from the bottom.
pub open spec fn scan_rows(image: Grid, rows: nat) -> PairScan
    decreases rows,
{
    if rows == 0 {
        PairScan { pending: Map::empty(), colliders: Seq::empty() }
    } else {
        scan_row(image, (rows - 1) as u32, image.width, scan_rows(image, (rows - 1) as nat))
    }
}

/// The colliders that a collision-only layer marks.
pub open spec fn layer_colliders(image: Grid) -> Seq<ColliderSpawn> {
    scan_rows(image, image.height).colliders
}

/// Whether the tile `tile` is read before the tile in column `x` of row
/// `y`: rows are read from the bottom, each from the left.
pub open spec fn read_before(tile: (u32, u32), x: int, y: int) -> bool {
    tile.1 < y || (tile.1 == y && tile.0 < x)
}

/// What is known of a layer with one pair of corners, `first` and `second`,
/// before the tile in column `x` of row `y` is read: nothing before the
/// first corner, an open rectangle between the corners, and its collider
/// after the second.
pub open spec fn one_pair_scan(image: Grid, first: (u32, u32), second: (u32, u32), x: int, y: int) -> PairScan {
    let key = image.tile(first.0 as int, first.1 as int);
    if !read_before(first, x, y) {
        PairScan { pending: Map::empty(), colliders: Seq::empty() }
    } else if !read_before(second, x, y) {
        PairScan { pending: Map::<Rgba, (u32, u32)>::empty().insert(key, first), colliders: Seq::empty() }
    } else {
        PairScan { pending: Map::empty(), colliders: seq![rect_between(first, second)] }
    }
}

/// `image` is a layer within the limits of its sides whose only opaque
/// pixels are those of the tiles `first` and `second`, which are the same
/// pixel, `first` being read before `second`.
pub open spec fn has_one_pair(image: Grid, first: (u32, u32), second: (u32, u32)) -> bool {
    &&& image.width <= MAX_SIDE
    &&& image.height <= MAX_SIDE
    &&& first.0 < image.width
    &&& first.1 < image.height
    &&& second.0 < image.width
    &&& second.1 < image.height
    &&& read_before(first, second.0 as int, second.1 as int)
    &&& image.tile(first.0 as int, first.1 as int).a != 0
    &&& image.tile(first.0 as int, first.1 as int) == image.tile(second.0 as int, second.1 as int)
    &&& forall|x: int, y: int|
        0 <= x < image.width && 0 <= y < image.height && (x, y) != (first.0 as int, first.1 as int) && (x, y) != (
        second.0 as int,
        second.1 as int,
    ) ==> (#[trigger] image.tile(x, y)).a == 0
}

proof fn lemma_one_pair_row(image: Grid, first: (u32, u32), second: (u32, u32), y: u32, n: nat)
    requires
        has_one_pair(image, first, second),
        y < image.height,
        n <= image.width,
    ensures
        scan_row(image, y, n, one_pair_scan(image, first, second, 0, y as int)) == one_pair_scan(
            image,
            first,
            second,
            n as int,
            y as int,
        ),
    decreases n,
{
    if n > 0 {
        lemma_one_pair_row(image, first, second, y, (n - 1) as nat);
        let x = (n - 1) as u32;
        let before = one_pair_scan(image, first, second, x as int, y as int);
        let after = scan_pixel(before, image.tile(x as int, y as int), x, y);
        let wanted = one_pair_scan(image, first, second, n as int, y as int);
        if (x, y) == first {
            assert(after.pending =~= wanted.pending);
        } else if (x, y) == second {
            assert(after.pending =~= wanted.pending);
            assert(after.colliders =~= wanted.colliders);
        } else {
            assert(image.tile(x as int, y as int).a == 0);
        }
        assert(after.colliders =~= wanted.colliders);
        assert(after.pending =~= wanted.pending);
    }
}

proof fn lemma_one_pair_rows(image: Grid, first: (u32, u32), second: (u32, u32), rows: nat)
    requires
        has_one_pair(image, first, second),
        rows <= image.height,
    ensures
        scan_rows(image, rows) == one_pair_scan(image, first, second, 0, rows as int),
    decreases rows,
{
    if rows > 0 {
        lemma_one_pair_rows(image, first, second, (rows - 1) as nat);
        lemma_one_pair_row(image, first, second, (rows - 1) as u32, image.width);
        let left = one_pair_scan(image, first, second, image.width as int, rows - 1);
        let right = one_pair_scan(image, first, second, 0, rows as int);
        assert(left.pending =~= right.pending);
        assert(left.colliders =~= right.colliders);
    }
}

/// A layer with exactly two opaque pixels, which are the same pixel, marks
/// exactly one collider: the one that covers every tile from the one to the
/// other.
pub proof fn lemma_one_pair_one_collider(image: Grid, first: (u32, u32), second: (u32, u32))
    requires
        has_one_pair(image, first, second),
    ensures
        layer_colliders(image) == seq![rect_between(first, second)],
{
    lemma_one_pair_rows(image, first, second, image.height);
}

/// Decodes a collision-only layer into the colliders that it marks, in the
/// order in which their rectangles are closed.
pub fn colliders_of_layer(image: &TileImage) -> (colliders: Vec<ColliderSpawn>)
    ensures
        colliders@ == layer_colliders(image@),
{
    let mut pending = no_corners();
    let mut colliders: Vec<ColliderSpawn> = Vec::new();
    let width = image.width();
    let height = image.height();
    let mut y: u32 = 0;
    while y < height
        invariant
            y <= height,
            width == image@.width,
            height == image@.height,
            width <= MAX_SIDE,
            height <= MAX_SIDE,
            open_corners(pending) == scan_rows(image@, y as nat).pending,
            colliders@ == scan_rows(image@, y as nat).colliders,
            forall|k: Rgba| #[trigger]
                open_corners(pending).contains_key(k) ==> open_corners(pending)[k].0 < MAX_SIDE && open_corners(
                    pending,
                )[k].1 < MAX_SIDE,
        decreases height - y,
    {
        let ghost before = scan_rows(image@, y as nat);
        let mut x: u32 = 0;
        while x < width
            invariant
                x <= width,
                y < height,
                width == image@.width,
                height == image@.height,
                width <= MAX_SIDE,
                height <= MAX_SIDE,
                open_corners(pending) == scan_row(image@, y, x as nat, before).pending,
                colliders@ == scan_row(image@, y, x as nat, before).colliders,
                forall|k: Rgba| #[trigger]
                    open_corners(pending).contains_key(k) ==> open_corners(pending)[k].0 < MAX_SIDE
                        && open_corners(pending)[k].1 < MAX_SIDE,
            decreases width - x,
        {
            let pixel = image.get_tile(x, y);
            if pixel.a != 0 {
                match take_corner(&mut pending, pixel) {
                    Some(pos) => {
                        colliders.push(place_collider(pos, (x, y)));
                    },
                    None => {
                        put_corner(&mut pending, pixel, (x, y));
                    },
                }
            }
            x = x + 1;
        }
        y = y + 1;
    }
    colliders
}

/// Decodes the PNG file `data` as a collision-only layer.
///
/// Fails exactly when `data` does not decode to a layer image; otherwise
/// gives the colliders that the image marks.
pub fn load_collision_layer(data: &[u8]) -> (loaded: Result<Vec<ColliderSpawn>, LoadMapError>)
    ensures
        loaded.is_ok() == (decoded_png(data@) matches Some(raw) && fits_layer(raw.0, raw.1, raw.2)),
        loaded matches Ok(colliders) ==> decoded_png(data@) matches Some(raw) && colliders@ == layer_colliders(
            grid_of(raw),
        ),
        loaded matches Err(e) ==> e == LoadMapError::LoadError(AssetLoadError::DecodeImageError),
{
    match load_image(data) {
        Ok(image) => Ok(colliders_of_layer(&image)),
        Err(e) => Err(LoadMapError::LoadError(e)),
    }
}

} // verus!
