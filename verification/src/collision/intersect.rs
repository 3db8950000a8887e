//! Exact intersection of two lines with integer endpoints.
//!
//! The crossing point of two lines through integer points is rational. It is
//! kept as a pair of numerators over one common denominator, and compared with
//! integers by cross-multiplication, so nothing is ever rounded.

use vstd::prelude::*;
use crate::vector::Vector;

verus! {

/// Largest magnitude of a coordinate of the points whose lines are crossed.
pub const COORD_LIMIT: i64 = 0x4_0000_0000;

/// A point with wide integer coordinates.
#[derive(Clone, Copy, Debug)]
pub struct Point {
    pub x: i64,
    pub y: i64,
}

/// A point of the integer plane.
pub struct PlanePoint {
    pub x: int,
    pub y: int,
}

impl View for Point {
    type V = PlanePoint;

    open spec fn view(&self) -> PlanePoint {
        PlanePoint { x: self.x as int, y: self.y as int }
    }
}

impl Point {
    /// Both coordinates lie within [`COORD_LIMIT`] of zero.
    pub open spec fn bounded(self) -> bool {
        &&& -COORD_LIMIT <= self.x <= COORD_LIMIT
        &&& -COORD_LIMIT <= self.y <= COORD_LIMIT
    }
}

/// The rational point `(x_num / det, y_num / det)`.
#[derive(Clone, Copy, Debug)]
pub struct Crossing {
    pub x_num: i128,
    pub y_num: i128,
    pub det: i128,
}

/// The mathematical value of a [`Crossing`].
pub struct RationalPoint {
    pub x_num: int,
    pub y_num: int,
    pub det: int,
}

impl View for Crossing {
    type V = RationalPoint;

    open spec fn view(&self) -> RationalPoint {
        RationalPoint { x_num: self.x_num as int, y_num: self.y_num as int, det: self.det as int }
    }
}

/// Coefficients `(a, b, c)` of the line `a*x + b*y = c` through `p` and `q`.
pub open spec fn line_through(p: PlanePoint, q: PlanePoint) -> (int, int, int) {
    let a = q.y - p.y;
    let b = p.x - q.x;
    (a, b, a * p.x + b * p.y)
}

/// Determinant of the two lines' coefficients; zero exactly when the lines
/// through `start_pos, end_pos` and through `coll_start, coll_end` are
/// parallel (or one pair of points coincides).
pub open spec fn determinant(
    start_pos: PlanePoint,
    end_pos: PlanePoint,
    coll_start: PlanePoint,
    coll_end: PlanePoint,
) -> int {
    let (a0, b0, c0) = line_through(start_pos, end_pos);
    let (a1, b1, c1) = line_through(coll_end, coll_start);
    a0 * b1 - a1 * b0
}

/// Where the line through `start_pos, end_pos` crosses the line through
/// `coll_start, coll_end`, by Cramer's rule; `None` when the determinant is zero.
pub open spec fn spec_line_intersection(
    start_pos: PlanePoint,
    end_pos: PlanePoint,
    coll_start: PlanePoint,
    coll_end: PlanePoint,
) -> Option<RationalPoint> {
    let (a0, b0, c0) = line_through(start_pos, end_pos);
    let (a1, b1, c1) = line_through(coll_end, coll_start);
    let det = a0 * b1 - a1 * b0;
    if det == 0 {
        None
    } else {
        Some(RationalPoint { x_num: b1 * c0 - b0 * c1, y_num: a0 * c1 - a1 * c0, det })
    }
}

/// `num / det >= k` for a non-zero `det`.
pub open spec fn at_least(num: int, det: int, k: int) -> bool {
    if det > 0 {
        num >= k * det
    } else {
        num <= k * det
    }
}

/// `num / det <= k` for a non-zero `det`.
pub open spec fn at_most(num: int, det: int, k: int) -> bool {
    if det > 0 {
        num <= k * det
    } else {
        num >= k * det
    }
}

/// `lo <= num / det <= hi` for a non-zero `det`.
pub open spec fn between(num: int, det: int, lo: int, hi: int) -> bool {
    at_least(num, det, lo) && at_most(num, det, hi)
}

/// A product is bounded by the product of its factors' bounds.
pub proof fn lemma_product_bound(a: int, b: int, la: int, lb: int)
    requires
        -la <= a <= la,
        -lb <= b <= lb,
    ensures
        -(la * lb) <= a * b <= la * lb,
{
    assert((la - a) * (lb - b) >= 0) by (nonlinear_arith)
        requires la - a >= 0, lb - b >= 0;
    assert((la + a) * (lb + b) >= 0) by (nonlinear_arith)
        requires la + a >= 0, lb + b >= 0;
    assert((la - a) * (lb + b) >= 0) by (nonlinear_arith)
        requires la - a >= 0, lb + b >= 0;
    assert((la + a) * (lb - b) >= 0) by (nonlinear_arith)
        requires la + a >= 0, lb - b >= 0;
    assert((la - a) * (lb - b) == la * lb - la * b - a * lb + a * b) by (nonlinear_arith);
    assert((la + a) * (lb + b) == la * lb + la * b + a * lb + a * b) by (nonlinear_arith);
    assert((la - a) * (lb + b) == la * lb + la * b - a * lb - a * b) by (nonlinear_arith);
    assert((la + a) * (lb - b) == la * lb - la * b + a * lb - a * b) by (nonlinear_arith);
}

/// The crossing that [`spec_line_intersection`] gives lies on both lines.
pub proof fn lemma_crossing_on_both_lines(
    start_pos: PlanePoint,
    end_pos: PlanePoint,
    coll_start: PlanePoint,
    coll_end: PlanePoint,
)
    requires
        spec_line_intersection(start_pos, end_pos, coll_start, coll_end) is Some,
    ensures
        ({
            let p = spec_line_intersection(start_pos, end_pos, coll_start, coll_end).unwrap();
            let (a0, b0, c0) = line_through(start_pos, end_pos);
            let (a1, b1, c1) = line_through(coll_end, coll_start);
            &&& p.det != 0
            &&& a0 * p.x_num + b0 * p.y_num == c0 * p.det
            &&& a1 * p.x_num + b1 * p.y_num == c1 * p.det
        }),
{
    let (a0, b0, c0) = line_through(start_pos, end_pos);
    let (a1, b1, c1) = line_through(coll_end, coll_start);
    assert(a0 * (b1 * c0 - b0 * c1) + b0 * (a0 * c1 - a1 * c0) == c0 * (a0 * b1 - a1 * b0))
        by (nonlinear_arith);
    assert(a1 * (b1 * c0 - b0 * c1) + b1 * (a0 * c1 - a1 * c0) == c1 * (a0 * b1 - a1 * b0))
        by (nonlinear_arith);
}

/// A line crosses a vertical line at that line's horizontal coordinate.
pub proof fn lemma_crossing_on_vertical_line(start_pos: PlanePoint, end_pos: PlanePoint, x: int, y0: int, y1: int)
    requires
        spec_line_intersection(start_pos, end_pos, PlanePoint { x, y: y0 }, PlanePoint { x, y: y1 }) is Some,
    ensures
        ({
            let p = spec_line_intersection(start_pos, end_pos, PlanePoint { x, y: y0 }, PlanePoint { x, y: y1 })
                .unwrap();
            p.x_num == x * p.det
        }),
{
    let coll_start = PlanePoint { x, y: y0 };
    let coll_end = PlanePoint { x, y: y1 };
    let p = spec_line_intersection(start_pos, end_pos, coll_start, coll_end).unwrap();
    let (a1, b1, c1) = line_through(coll_end, coll_start);
    lemma_crossing_on_both_lines(start_pos, end_pos, coll_start, coll_end);
    assert(b1 == 0);
    assert(a1 != 0) by (nonlinear_arith)
        requires
            p.det != 0,
            p.det == (end_pos.y - start_pos.y) * b1 - a1 * (start_pos.x - end_pos.x),
            b1 == 0,
    ;
    assert(p.x_num == x * p.det) by (nonlinear_arith)
        requires
            a1 != 0,
            a1 * p.x_num + b1 * p.y_num == c1 * p.det,
            b1 == 0,
            c1 == a1 * x + b1 * y1,
    ;
}

/// A line crosses a horizontal line at that line's vertical coordinate.
pub proof fn lemma_crossing_on_horizontal_line(start_pos: PlanePoint, end_pos: PlanePoint, y: int, x0: int, x1: int)
    requires
        spec_line_intersection(start_pos, end_pos, PlanePoint { x: x0, y }, PlanePoint { x: x1, y }) is Some,
    ensures
        ({
            let p = spec_line_intersection(start_pos, end_pos, PlanePoint { x: x0, y }, PlanePoint { x: x1, y })
                .unwrap();
            p.y_num == y * p.det
        }),
{
    let coll_start = PlanePoint { x: x0, y };
    let coll_end = PlanePoint { x: x1, y };
    let p = spec_line_intersection(start_pos, end_pos, coll_start, coll_end).unwrap();
    let (a1, b1, c1) = line_through(coll_end, coll_start);
    lemma_crossing_on_both_lines(start_pos, end_pos, coll_start, coll_end);
    assert(a1 == 0);
    assert(b1 != 0) by (nonlinear_arith)
        requires
            p.det != 0,
            p.det == (end_pos.y - start_pos.y) * b1 - a1 * (start_pos.x - end_pos.x),
            a1 == 0,
    ;
    assert(p.y_num == y * p.det) by (nonlinear_arith)
        requires
            b1 != 0,
            a1 * p.x_num + b1 * p.y_num == c1 * p.det,
            a1 == 0,
            c1 == a1 * x1 + b1 * y,
    ;
}

/// Largest magnitude of the determinant of two lines through bounded points.
pub const DET_LIMIT: i128 = 0x80_0000_0000_0000_0000;

/// The crossing of the line through `start_pos` and `end_pos` with the line
/// through `coll_start` and `coll_end`, or `None` when they are parallel.
pub(crate) fn cross_lines(start_pos: Point, end_pos: Point, coll_start: Point, coll_end: Point) -> (crossing:
    Option<Crossing>)
    requires
        start_pos.bounded(),
        end_pos.bounded(),
        coll_start.bounded(),
        coll_end.bounded(),
    ensures
        crossing.is_some() == (determinant(start_pos@, end_pos@, coll_start@, coll_end@) != 0),
        match crossing {
            Some(c) => Some(c@) == spec_line_intersection(start_pos@, end_pos@, coll_start@, coll_end@)
                && -DET_LIMIT <= c.det <= DET_LIMIT && c.det != 0,
            None => spec_line_intersection(start_pos@, end_pos@, coll_start@, coll_end@).is_none(),
        },
{
    let a0: i128 = (end_pos.y - start_pos.y) as i128;
    let b0: i128 = (start_pos.x - end_pos.x) as i128;
    let a1: i128 = (coll_start.y - coll_end.y) as i128;
    let b1: i128 = (coll_end.x - coll_start.x) as i128;
    let ghost lim = COORD_LIMIT as int;
    proof {
        lemma_product_bound(a0 as int, start_pos.x as int, 2 * lim, lim);
        lemma_product_bound(b0 as int, start_pos.y as int, 2 * lim, lim);
        lemma_product_bound(a1 as int, coll_end.x as int, 2 * lim, lim);
        lemma_product_bound(b1 as int, coll_end.y as int, 2 * lim, lim);
        lemma_product_bound(a0 as int, b1 as int, 2 * lim, 2 * lim);
        lemma_product_bound(a1 as int, b0 as int, 2 * lim, 2 * lim);
        assert(2 * lim * lim == 0x20_0000_0000_0000_0000) by (nonlinear_arith)
            requires lim == 0x4_0000_0000;
        assert((2 * lim) * (2 * lim) == 0x40_0000_0000_0000_0000) by (nonlinear_arith)
            requires lim == 0x4_0000_0000;
    }
    let c0: i128 = a0 * (start_pos.x as i128) + b0 * (start_pos.y as i128);
    let c1: i128 = a1 * (coll_end.x as i128) + b1 * (coll_end.y as i128);
    let det: i128 = a0 * b1 - a1 * b0;
    if det == 0 {
        None
    } else {
        let ghost cl = 4 * lim * lim;
        proof {
            lemma_product_bound(b1 as int, c0 as int, 2 * lim, cl);
            lemma_product_bound(b0 as int, c1 as int, 2 * lim, cl);
            lemma_product_bound(a0 as int, c1 as int, 2 * lim, cl);
            lemma_product_bound(a1 as int, c0 as int, 2 * lim, cl);
            assert((2 * lim) * cl == 0x200_0000_0000_0000_0000_0000_0000) by (nonlinear_arith)
                requires lim == 0x4_0000_0000, cl == 4 * lim * lim;
        }
        Some(Crossing { x_num: b1 * c0 - b0 * c1, y_num: a0 * c1 - a1 * c0, det })
    }
}

/// The crossing of the line through `start_pos` and `end_pos` with the line
/// through `coll_start` and `coll_end`, or `None` when they are parallel.
pub fn line_intersection(start_pos: Vector, end_pos: Vector, coll_start: Vector, coll_end: Vector) -> (crossing:
    Option<Crossing>)
    ensures
        crossing.is_some() == (determinant(
            plane_point(start_pos),
            plane_point(end_pos),
            plane_point(coll_start),
            plane_point(coll_end),
        ) != 0),
        crossing matches Some(c) ==> Some(c@) == spec_line_intersection(
            plane_point(start_pos),
            plane_point(end_pos),
            plane_point(coll_start),
            plane_point(coll_end),
        ),
{
    cross_lines(
        Point { x: start_pos.x as i64, y: start_pos.y as i64 },
        Point { x: end_pos.x as i64, y: end_pos.y as i64 },
        Point { x: coll_start.x as i64, y: coll_start.y as i64 },
        Point { x: coll_end.x as i64, y: coll_end.y as i64 },
    )
}

/// The plane point at a vector's coordinates.
pub open spec fn plane_point(v: Vector) -> PlanePoint {
    PlanePoint { x: v.x as int, y: v.y as int }
}

/// Largest magnitude of an integer that [`ratio_at_least`] and
/// [`ratio_at_most`] compare a crossing's coordinate with.
pub const SCALAR_LIMIT: i64 = 0x8_0000_0000;

/// `num / det >= k`, decided without dividing.
pub(crate) fn ratio_at_least(num: i128, det: i128, k: i64) -> (holds: bool)
    requires
        det != 0,
        -DET_LIMIT <= det <= DET_LIMIT,
        -SCALAR_LIMIT <= k <= SCALAR_LIMIT,
    ensures
        holds == at_least(num as int, det as int, k as int),
{
    proof {
        lemma_product_bound(k as int, det as int, SCALAR_LIMIT as int, DET_LIMIT as int);
        assert(SCALAR_LIMIT as int * DET_LIMIT as int == 0x400_0000_0000_0000_0000_0000_0000)
            by (nonlinear_arith)
            requires SCALAR_LIMIT == 0x8_0000_0000, DET_LIMIT == 0x80_0000_0000_0000_0000;
    }
    let scaled: i128 = (k as i128) * det;
    if det > 0 {
        num >= scaled
    } else {
        num <= scaled
    }
}

/// `num / det <= k`, decided without dividing.
pub(crate) fn ratio_at_most(num: i128, det: i128, k: i64) -> (holds: bool)
    requires
        det != 0,
        -DET_LIMIT <= det <= DET_LIMIT,
        -SCALAR_LIMIT <= k <= SCALAR_LIMIT,
    ensures
        holds == at_most(num as int, det as int, k as int),
{
    proof {
        lemma_product_bound(k as int, det as int, SCALAR_LIMIT as int, DET_LIMIT as int);
        assert(SCALAR_LIMIT as int * DET_LIMIT as int == 0x400_0000_0000_0000_0000_0000_0000)
            by (nonlinear_arith)
            requires SCALAR_LIMIT == 0x8_0000_0000, DET_LIMIT == 0x80_0000_0000_0000_0000;
    }
    let scaled: i128 = (k as i128) * det;
    if det > 0 {
        num <= scaled
    } else {
        num >= scaled
    }
}

} // verus!
