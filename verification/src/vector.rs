//! Fixed-point planar vectors.

use vstd::prelude::*;

verus! {

/// Steps per world unit.
pub const UNIT: i32 = 1000;

/// Edge length of one tile, in steps (eight world units).
pub const TILE_SIZE: i32 = 8000;

/// A point or displacement in the plane, in steps.
#[derive(Clone, Copy, Debug, PartialEq, Eq, Structural)]
pub struct Vector {
    pub x: i32,
    pub y: i32,
}

impl Vector {
    /// The zero vector.
    pub fn zero() -> (v: Vector)
        ensures
            v == (Vector { x: 0, y: 0 }),
    {
        Vector { x: 0, y: 0 }
    }

    pub fn new(x: i32, y: i32) -> (v: Vector)
        ensures
            v == (Vector { x, y }),
    {
        Vector { x, y }
    }

    /// A vector with both components equal to `side`.
    pub fn splat(side: i32) -> (v: Vector)
        ensures
            v == (Vector { x: side, y: side }),
    {
        Vector { x: side, y: side }
    }
}

/// The nearest representable value to `v`.
pub open spec fn clamped(v: int) -> i32 {
    if v < i32::MIN {
        i32::MIN
    } else if v > i32::MAX {
        i32::MAX
    } else {
        v as i32
    }
}

/// The sum of `a` and `b`, or the nearest representable value.
pub fn clamped_sum(a: i32, b: i32) -> (sum: i32)
    ensures
        sum == clamped(a + b),
{
    let wide: i64 = a as i64 + b as i64;
    if wide < i32::MIN as i64 {
        i32::MIN
    } else if wide > i32::MAX as i64 {
        i32::MAX
    } else {
        wide as i32
    }
}

/// Half of `v`, rounded toward zero.
pub open spec fn spec_half(v: int) -> int {
    if v >= 0 {
        v / 2
    } else {
        -((-v) / 2)
    }
}

/// Half of `v`, rounded toward zero.
#[verifier::when_used_as_spec(spec_half_of)]
pub fn half(v: i32) -> (h: i32)
    ensures
        h == spec_half(v as int),
        -0x4000_0000 <= h <= 0x4000_0000,
{
    if v >= 0 {
        v / 2
    } else {
        (-((-(v as i64)) / 2)) as i32
    }
}

/// Half of `v`, rounded toward zero.
pub open spec fn spec_half_of(v: i32) -> i32 {
    spec_half(v as int) as i32
}

} // verus!
