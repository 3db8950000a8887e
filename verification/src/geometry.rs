//! Overlap of axis-aligned boxes.

use vstd::prelude::*;
use crate::vector::Vector;

verus! {

/// Twice the coordinate of the lower edge of a box of the extent `size`
/// centred at `center`. Doubled, the edges of a box are integers whatever
/// its extent.
pub open spec fn low2(center: i32, size: i32) -> int {
    2 * center - size
}

/// Twice the coordinate of the upper edge.
pub open spec fn high2(center: i32, size: i32) -> int {
    2 * center + size
}

/// The boxes of the sizes `a_size` and `b_size` centred at `a_pos` and
/// `b_pos` share a region of positive area: on both axes, each box begins
/// strictly before the other ends. Boxes that only touch do not overlap.
pub open spec fn spec_overlaps(a_pos: Vector, a_size: Vector, b_pos: Vector, b_size: Vector) -> bool {
    &&& low2(a_pos.x, a_size.x) < high2(b_pos.x, b_size.x)
    &&& high2(a_pos.x, a_size.x) > low2(b_pos.x, b_size.x)
    &&& low2(a_pos.y, a_size.y) < high2(b_pos.y, b_size.y)
    &&& high2(a_pos.y, a_size.y) > low2(b_pos.y, b_size.y)
}

/// Decides [`spec_overlaps`].
#[verifier::when_used_as_spec(spec_overlaps)]
pub fn overlaps(a_pos: Vector, a_size: Vector, b_pos: Vector, b_size: Vector) -> (overlap: bool)
    ensures
        overlap == spec_overlaps(a_pos, a_size, b_pos, b_size),
{
    let a_min_x: i64 = 2 * (a_pos.x as i64) - a_size.x as i64;
    let a_max_x: i64 = 2 * (a_pos.x as i64) + a_size.x as i64;
    let a_min_y: i64 = 2 * (a_pos.y as i64) - a_size.y as i64;
    let a_max_y: i64 = 2 * (a_pos.y as i64) + a_size.y as i64;
    let b_min_x: i64 = 2 * (b_pos.x as i64) - b_size.x as i64;
    let b_max_x: i64 = 2 * (b_pos.x as i64) + b_size.x as i64;
    let b_min_y: i64 = 2 * (b_pos.y as i64) - b_size.y as i64;
    let b_max_y: i64 = 2 * (b_pos.y as i64) + b_size.y as i64;
    a_min_x < b_max_x && a_max_x > b_min_x && a_min_y < b_max_y && a_max_y > b_min_y
}

/// Overlap does not depend on which box is named first.
pub proof fn lemma_overlap_is_symmetric(a_pos: Vector, a_size: Vector, b_pos: Vector, b_size: Vector)
    ensures
        spec_overlaps(a_pos, a_size, b_pos, b_size) == spec_overlaps(b_pos, b_size, a_pos, a_size),
{
}

} // verus!
