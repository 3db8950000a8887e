//! Swept contact resolution of one moving box against static boxes.
//!
//! The mover's centre travelled from `position - last_velocity` to `position`
//! in the last frame. Each static box is tested on its four sides; on each
//! axis the contacts nearest to the start of the sweep decide where the mover
//! stops and which events are reported.

use vstd::prelude::*;
use crate::vector::{half, spec_half, Vector};
use crate::collision::{Collider, Collision, CollisionEvent, Entity, MoveableCollider};
use crate::collision::intersect::{
    between, cross_lines, ratio_at_least, ratio_at_most, spec_line_intersection, PlanePoint, Point,
    COORD_LIMIT, DET_LIMIT,
};

verus! {

/// A moving entity as the sweep sees it.
#[derive(Clone, Copy, Debug)]
pub struct Mover {
    pub entity: Entity,
    /// Centre of the box at the end of the sweep.
    pub position: Vector,
    /// Displacement that brought the mover to `position`.
    pub last_velocity: Vector,
    pub collider: MoveableCollider,
}

/// A static entity as the sweep sees it.
#[derive(Clone, Copy, Debug)]
pub struct Obstacle {
    pub entity: Entity,
    /// Centre of the box.
    pub position: Vector,
    pub collider: Collider,
}

fn half64(v: i32) -> (h: i64)
    ensures
        h == spec_half(v as int),
        -0x4000_0000 <= h <= 0x4000_0000,
{
    half(v) as i64
}

impl Mover {
    /// Horizontal coordinate of the centre at the start of the sweep.
    pub open spec fn start_x(self) -> int {
        self.position.x - self.last_velocity.x
    }

    /// Vertical coordinate of the centre at the start of the sweep.
    pub open spec fn start_y(self) -> int {
        self.position.y - self.last_velocity.y
    }

    /// Distance from the centre to the left and right edges.
    pub open spec fn half_x(self) -> int {
        spec_half(self.collider.size.x as int)
    }

    /// Distance from the centre to the top and bottom edges.
    pub open spec fn half_y(self) -> int {
        spec_half(self.collider.size.y as int)
    }

    /// The centre at the start of the sweep.
    pub open spec fn start(self) -> PlanePoint {
        PlanePoint { x: self.start_x(), y: self.start_y() }
    }

    /// The box has a non-negative extent, and at the start of the sweep it
    /// lay wholly within the representable world.
    pub open spec fn spec_sweep_in_world(&self) -> bool {
        &&& self.collider.size.x >= 0
        &&& self.collider.size.y >= 0
        &&& i32::MIN <= self.start_x() - self.half_x()
        &&& self.start_x() + self.half_x() <= i32::MAX
        &&& i32::MIN <= self.start_y() - self.half_y()
        &&& self.start_y() + self.half_y() <= i32::MAX
    }

    /// Decides [`Mover::spec_sweep_in_world`].
    #[verifier::when_used_as_spec(spec_sweep_in_world)]
    pub fn sweep_in_world(&self) -> (inside: bool)
        ensures
            inside == self.spec_sweep_in_world(),
    {
        let sx: i64 = self.position.x as i64 - self.last_velocity.x as i64;
        let sy: i64 = self.position.y as i64 - self.last_velocity.y as i64;
        let hx: i64 = half64(self.collider.size.x);
        let hy: i64 = half64(self.collider.size.y);
        self.collider.size.x >= 0 && self.collider.size.y >= 0 && i32::MIN as i64 <= sx - hx && sx + hx
            <= i32::MAX as i64 && i32::MIN as i64 <= sy - hy && sy + hy <= i32::MAX as i64
    }
}

impl Obstacle {
    /// Coordinate of the left edge.
    pub open spec fn left(self) -> int {
        self.position.x - spec_half(self.collider.size.x as int)
    }

    /// Coordinate of the right edge.
    pub open spec fn right(self) -> int {
        self.left() + self.collider.size.x
    }

    /// Coordinate of the bottom edge.
    pub open spec fn bottom(self) -> int {
        self.position.y - spec_half(self.collider.size.y as int)
    }

    /// Coordinate of the top edge.
    pub open spec fn top(self) -> int {
        self.bottom() + self.collider.size.y
    }
}

/// A crossing coordinate `num / det` lies on the struck edge, which spans
/// `edge_lo..=edge_hi`, and on the sweep, which runs from `from` to `to`, both
/// taken `tolerance` longer.
pub open spec fn within_tolerance(
    num: int,
    det: int,
    edge_lo: int,
    edge_hi: int,
    from: int,
    to: int,
    tolerance: int,
) -> bool {
    &&& between(num, det, edge_lo - tolerance, edge_hi + tolerance)
    &&& (between(num, det, from, to + tolerance) || between(num, det, to - tolerance, from))
}

/// Where the mover's centre stops against the left side of `obstacle`, if the
/// sweep strikes that side.
///
/// The side is tested when the filter admits it, the obstacle's centre lies
/// to the right of the sweep's start, and the left edge lies between the
/// start and the mover's right edge at the end. The contact counts when the
/// line from the start to the middle of that right edge crosses the edge's
/// line within tolerance. The crossing lies on the edge's line, so the mover
/// stops with its right edge on the obstacle's left edge.
pub open spec fn left_contact(mover: Mover, obstacle: Obstacle) -> Option<int> {
    let reach = PlanePoint { x: mover.position.x + mover.half_x(), y: mover.position.y as int };
    let edge_top = PlanePoint { x: obstacle.left(), y: obstacle.top() };
    let edge_bottom = PlanePoint { x: obstacle.left(), y: obstacle.bottom() };
    if obstacle.collider.filter.spec_collides_left() && obstacle.position.x > mover.start_x()
        && mover.start_x() <= obstacle.left() <= reach.x {
        match spec_line_intersection(mover.start(), reach, edge_top, edge_bottom) {
            Some(p) => if within_tolerance(
                p.y_num,
                p.det,
                obstacle.bottom(),
                obstacle.top(),
                mover.start_y(),
                mover.position.y as int,
                mover.collider.collision_offset.y as int,
            ) {
                Some(obstacle.left() - mover.half_x())
            } else {
                None
            },
            None => None,
        }
    } else {
        None
    }
}

/// Where the mover's centre stops against the right side of `obstacle`, if
/// the sweep strikes that side: the mirror image of [`left_contact`]. The
/// mover stops with its left edge on the obstacle's right edge.
pub open spec fn right_contact(mover: Mover, obstacle: Obstacle) -> Option<int> {
    let reach = PlanePoint { x: mover.position.x - mover.half_x(), y: mover.position.y as int };
    let edge_top = PlanePoint { x: obstacle.right(), y: obstacle.top() };
    let edge_bottom = PlanePoint { x: obstacle.right(), y: obstacle.bottom() };
    if obstacle.collider.filter.spec_collides_right() && obstacle.position.x < mover.start_x()
        && reach.x <= obstacle.right() <= mover.start_x() {
        match spec_line_intersection(mover.start(), reach, edge_top, edge_bottom) {
            Some(p) => if within_tolerance(
                p.y_num,
                p.det,
                obstacle.bottom(),
                obstacle.top(),
                mover.start_y(),
                mover.position.y as int,
                mover.collider.collision_offset.y as int,
            ) {
                Some(obstacle.right() + mover.half_x())
            } else {
                None
            },
            None => None,
        }
    } else {
        None
    }
}

/// Where the mover's centre stops on top of `obstacle`, if the sweep strikes
/// the top side.
///
/// The side is tested when the filter admits it, the top edge lies strictly
/// below the sweep's start, and not below the mover's bottom edge at the end.
/// The mover stops with its bottom edge on the obstacle's top edge.
pub open spec fn top_contact(mover: Mover, obstacle: Obstacle) -> Option<int> {
    let reach = PlanePoint { x: mover.position.x as int, y: mover.position.y - mover.half_y() };
    let edge_left = PlanePoint { x: obstacle.left(), y: obstacle.top() };
    let edge_right = PlanePoint { x: obstacle.right(), y: obstacle.top() };
    if obstacle.collider.filter.spec_collides_top() && reach.y <= obstacle.top() < mover.start_y() {
        match spec_line_intersection(mover.start(), reach, edge_left, edge_right) {
            Some(p) => if within_tolerance(
                p.x_num,
                p.det,
                obstacle.left(),
                obstacle.right(),
                mover.start_x(),
                mover.position.x as int,
                mover.collider.collision_offset.x as int,
            ) {
                Some(obstacle.top() + mover.half_y())
            } else {
                None
            },
            None => None,
        }
    } else {
        None
    }
}

/// Where the mover's centre stops below `obstacle`, if the sweep strikes the
/// bottom side.
///
/// The side is tested when the filter admits it, the obstacle's centre lies
/// above the sweep's start, and the bottom edge lies between the start and
/// the mover's top edge at the end. The mover stops with its top edge on the
/// obstacle's bottom edge.
pub open spec fn bottom_contact(mover: Mover, obstacle: Obstacle) -> Option<int> {
    let reach = PlanePoint { x: mover.position.x as int, y: mover.position.y + mover.half_y() };
    let edge_left = PlanePoint { x: obstacle.left(), y: obstacle.bottom() };
    let edge_right = PlanePoint { x: obstacle.right(), y: obstacle.bottom() };
    if obstacle.collider.filter.spec_collides_bottom() && obstacle.position.y > mover.start_y()
        && mover.start_y() <= obstacle.bottom() <= reach.y {
        match spec_line_intersection(mover.start(), reach, edge_left, edge_right) {
            Some(p) => if within_tolerance(
                p.x_num,
                p.det,
                obstacle.left(),
                obstacle.right(),
                mover.start_x(),
                mover.position.x as int,
                mover.collider.collision_offset.x as int,
            ) {
                Some(obstacle.bottom() - mover.half_y())
            } else {
                None
            },
            None => None,
        }
    } else {
        None
    }
}

/// Where the mover's centre stops against `side` of `obstacle`, if the sweep
/// strikes that side. Nothing is ever struck from inside.
pub open spec fn contact(mover: Mover, obstacle: Obstacle, side: Collision) -> Option<int> {
    match side {
        Collision::Left => left_contact(mover, obstacle),
        Collision::Right => right_contact(mover, obstacle),
        Collision::Top => top_contact(mover, obstacle),
        Collision::Bottom => bottom_contact(mover, obstacle),
        Collision::Inside => None,
    }
}

/// Decides [`within_tolerance`].
fn is_within_tolerance(
    num: i128,
    det: i128,
    edge_lo: i64,
    edge_hi: i64,
    from: i64,
    to: i64,
    tolerance: i32,
) -> (holds: bool)
    requires
        det != 0,
        -DET_LIMIT <= det <= DET_LIMIT,
        -COORD_LIMIT <= edge_lo <= COORD_LIMIT,
        -COORD_LIMIT <= edge_hi <= COORD_LIMIT,
        -COORD_LIMIT <= from <= COORD_LIMIT,
        -COORD_LIMIT <= to <= COORD_LIMIT,
    ensures
        holds == within_tolerance(
            num as int,
            det as int,
            edge_lo as int,
            edge_hi as int,
            from as int,
            to as int,
            tolerance as int,
        ),
{
    let tol: i64 = tolerance as i64;
    ratio_at_least(num, det, edge_lo - tol) && ratio_at_most(num, det, edge_hi + tol) && ((ratio_at_least(
        num,
        det,
        from,
    ) && ratio_at_most(num, det, to + tol)) || (ratio_at_least(num, det, to - tol) && ratio_at_most(
        num,
        det,
        from,
    )))
}

/// Decides [`left_contact`].
fn check_collide_left(mover: &Mover, obstacle: &Obstacle) -> (clamp: Option<i32>)
    requires
        mover.sweep_in_world(),
    ensures
        clamp.is_some() == left_contact(*mover, *obstacle).is_some(),
        clamp matches Some(c) ==> left_contact(*mover, *obstacle) == Some(c as int),
{
    let sx: i64 = mover.position.x as i64 - mover.last_velocity.x as i64;
    let sy: i64 = mover.position.y as i64 - mover.last_velocity.y as i64;
    let hx: i64 = half64(mover.collider.size.x);
    let reach_x: i64 = mover.position.x as i64 + hx;
    let left: i64 = obstacle.position.x as i64 - half64(obstacle.collider.size.x);
    let bottom: i64 = obstacle.position.y as i64 - half64(obstacle.collider.size.y);
    let top: i64 = bottom + obstacle.collider.size.y as i64;
    if obstacle.collider.filter.collides_left() && obstacle.position.x as i64 > sx && sx <= left && left
        <= reach_x {
        let crossing = cross_lines(
            Point { x: sx, y: sy },
            Point { x: reach_x, y: mover.position.y as i64 },
            Point { x: left, y: top },
            Point { x: left, y: bottom },
        );
        match crossing {
            Some(c) => {
                if is_within_tolerance(
                    c.y_num,
                    c.det,
                    bottom,
                    top,
                    sy,
                    mover.position.y as i64,
                    mover.collider.collision_offset.y,
                ) {
                    Some((left - hx) as i32)
                } else {
                    None
                }
            },
            None => None,
        }
    } else {
        None
    }
}

/// Decides [`right_contact`].
fn check_collide_right(mover: &Mover, obstacle: &Obstacle) -> (clamp: Option<i32>)
    requires
        mover.sweep_in_world(),
    ensures
        clamp.is_some() == right_contact(*mover, *obstacle).is_some(),
        clamp matches Some(c) ==> right_contact(*mover, *obstacle) == Some(c as int),
{
    let sx: i64 = mover.position.x as i64 - mover.last_velocity.x as i64;
    let sy: i64 = mover.position.y as i64 - mover.last_velocity.y as i64;
    let hx: i64 = half64(mover.collider.size.x);
    let reach_x: i64 = mover.position.x as i64 - hx;
    let right: i64 = obstacle.position.x as i64 - half64(obstacle.collider.size.x)
        + obstacle.collider.size.x as i64;
    let bottom: i64 = obstacle.position.y as i64 - half64(obstacle.collider.size.y);
    let top: i64 = bottom + obstacle.collider.size.y as i64;
    if obstacle.collider.filter.collides_right() && (obstacle.position.x as i64) < sx && reach_x <= right
        && right <= sx {
        let crossing = cross_lines(
            Point { x: sx, y: sy },
            Point { x: reach_x, y: mover.position.y as i64 },
            Point { x: right, y: top },
            Point { x: right, y: bottom },
        );
        match crossing {
            Some(c) => {
                if is_within_tolerance(
                    c.y_num,
                    c.det,
                    bottom,
                    top,
                    sy,
                    mover.position.y as i64,
                    mover.collider.collision_offset.y,
                ) {
                    Some((right + hx) as i32)
                } else {
                    None
                }
            },
            None => None,
        }
    } else {
        None
    }
}

/// Decides [`top_contact`].
fn check_collide_top(mover: &Mover, obstacle: &Obstacle) -> (clamp: Option<i32>)
    requires
        mover.sweep_in_world(),
    ensures
        clamp.is_some() == top_contact(*mover, *obstacle).is_some(),
        clamp matches Some(c) ==> top_contact(*mover, *obstacle) == Some(c as int),
{
    let sx: i64 = mover.position.x as i64 - mover.last_velocity.x as i64;
    let sy: i64 = mover.position.y as i64 - mover.last_velocity.y as i64;
    let hy: i64 = half64(mover.collider.size.y);
    let reach_y: i64 = mover.position.y as i64 - hy;
    let left: i64 = obstacle.position.x as i64 - half64(obstacle.collider.size.x);
    let right: i64 = left + obstacle.collider.size.x as i64;
    let top: i64 = obstacle.position.y as i64 - half64(obstacle.collider.size.y)
        + obstacle.collider.size.y as i64;
    if obstacle.collider.filter.collides_top() && reach_y <= top && top < sy {
        let crossing = cross_lines(
            Point { x: sx, y: sy },
            Point { x: mover.position.x as i64, y: reach_y },
            Point { x: left, y: top },
            Point { x: right, y: top },
        );
        match crossing {
            Some(c) => {
                if is_within_tolerance(
                    c.x_num,
                    c.det,
                    left,
                    right,
                    sx,
                    mover.position.x as i64,
                    mover.collider.collision_offset.x,
                ) {
                    Some((top + hy) as i32)
                } else {
                    None
                }
            },
            None => None,
        }
    } else {
        None
    }
}

/// Decides [`bottom_contact`].
fn check_collide_bottom(mover: &Mover, obstacle: &Obstacle) -> (clamp: Option<i32>)
    requires
        mover.sweep_in_world(),
    ensures
        clamp.is_some() == bottom_contact(*mover, *obstacle).is_some(),
        clamp matches Some(c) ==> bottom_contact(*mover, *obstacle) == Some(c as int),
{
    let sx: i64 = mover.position.x as i64 - mover.last_velocity.x as i64;
    let sy: i64 = mover.position.y as i64 - mover.last_velocity.y as i64;
    let hy: i64 = half64(mover.collider.size.y);
    let reach_y: i64 = mover.position.y as i64 + hy;
    let left: i64 = obstacle.position.x as i64 - half64(obstacle.collider.size.x);
    let right: i64 = left + obstacle.collider.size.x as i64;
    let bottom: i64 = obstacle.position.y as i64 - half64(obstacle.collider.size.y);
    if obstacle.collider.filter.collides_bottom() && obstacle.position.y as i64 > sy && sy <= bottom
        && bottom <= reach_y {
        let crossing = cross_lines(
            Point { x: sx, y: sy },
            Point { x: mover.position.x as i64, y: reach_y },
            Point { x: left, y: bottom },
            Point { x: right, y: bottom },
        );
        match crossing {
            Some(c) => {
                if is_within_tolerance(
                    c.x_num,
                    c.det,
                    left,
                    right,
                    sx,
                    mover.position.x as i64,
                    mover.collider.collision_offset.x,
                ) {
                    Some((bottom - hy) as i32)
                } else {
                    None
                }
            },
            None => None,
        }
    } else {
        None
    }
}

/// One recorded contact: the index of the obstacle in the list and the side
/// of it that was struck.
pub struct Hit {
    pub obstacle: int,
    pub side: Collision,
}

/// Where the mover stops on one axis, and the contacts that stop it there.
pub struct AxisState {
    pub coord: int,
    pub hits: Seq<Hit>,
}

/// A contact on this side moves the mover's stop toward smaller coordinates.
/// Contacts on the left and bottom sides do: the mover came from below them.
pub open spec fn pulls_down(side: Collision) -> bool {
    side == Collision::Left || side == Collision::Bottom
}

/// `candidate` stops the mover strictly earlier than `coord` does.
pub open spec fn nearer(pull_down: bool, candidate: int, coord: int) -> bool {
    if pull_down {
        candidate < coord
    } else {
        coord < candidate
    }
}

/// Takes one more contact into account: a strictly nearer stop replaces the
/// stop and everything kept so far, an equal one is kept beside the others,
/// a farther one is dropped.
pub open spec fn absorb_into<T>(coord: int, kept: Seq<T>, stop: Option<int>, pull_down: bool, item: T) -> (
    int,
    Seq<T>,
) {
    match stop {
        Some(c) => if nearer(pull_down, c, coord) {
            (c, seq![item])
        } else if c == coord {
            (coord, kept.push(item))
        } else {
            (coord, kept)
        },
        None => (coord, kept),
    }
}

/// [`absorb_into`] on an axis state, for the contact of `hit`, if there is one.
pub open spec fn absorb(state: AxisState, stop: Option<int>, hit: Hit) -> AxisState {
    let (coord, hits) = absorb_into(state.coord, state.hits, stop, pulls_down(hit.side), hit);
    AxisState { coord, hits }
}

/// The horizontal axis after the first `n` obstacles: each is tested on its
/// left side, then on its right.
pub open spec fn horizontal(mover: Mover, obstacles: Seq<Obstacle>, n: nat) -> AxisState
    decreases n,
{
    if n == 0 {
        AxisState { coord: mover.position.x as int, hits: Seq::empty() }
    } else {
        let i = n - 1;
        let on_left = absorb(
            horizontal(mover, obstacles, i as nat),
            left_contact(mover, obstacles[i]),
            Hit { obstacle: i, side: Collision::Left },
        );
        absorb(on_left, right_contact(mover, obstacles[i]), Hit { obstacle: i, side: Collision::Right })
    }
}

/// The vertical axis after the first `n` obstacles: each is tested on its
/// top side, then on its bottom.
pub open spec fn vertical(mover: Mover, obstacles: Seq<Obstacle>, n: nat) -> AxisState
    decreases n,
{
    if n == 0 {
        AxisState { coord: mover.position.y as int, hits: Seq::empty() }
    } else {
        let i = n - 1;
        let on_top = absorb(
            vertical(mover, obstacles, i as nat),
            top_contact(mover, obstacles[i]),
            Hit { obstacle: i, side: Collision::Top },
        );
        absorb(on_top, bottom_contact(mover, obstacles[i]), Hit { obstacle: i, side: Collision::Bottom })
    }
}

/// The event that reports `hit`.
pub open spec fn event_of(mover: Mover, obstacles: Seq<Obstacle>, hit: Hit) -> CollisionEvent {
    CollisionEvent {
        collision: hit.side,
        moving_entity: mover.entity,
        static_entity: obstacles[hit.obstacle].entity,
    }
}

/// The events that report `hits`, in the same order.
pub open spec fn events_of(mover: Mover, obstacles: Seq<Obstacle>, hits: Seq<Hit>) -> Seq<CollisionEvent> {
    Seq::new(hits.len(), |k: int| event_of(mover, obstacles, hits[k]))
}

/// The events of a sweep: those of the contacts kept on the vertical axis,
/// then those kept on the horizontal axis.
pub open spec fn sweep_events(mover: Mover, obstacles: Seq<Obstacle>) -> Seq<CollisionEvent> {
    events_of(mover, obstacles, vertical(mover, obstacles, obstacles.len()).hits) + events_of(
        mover,
        obstacles,
        horizontal(mover, obstacles, obstacles.len()).hits,
    )
}

/// What a sweep leaves: the mover's clamped position and the events of the
/// contacts that clamped it.
#[derive(Debug)]
pub struct Sweep {
    pub position: Vector,
    pub events: Vec<CollisionEvent>,
}

pub open spec fn stop_value(clamp: Option<i32>) -> Option<int> {
    match clamp {
        Some(c) => Some(c as int),
        None => None,
    }
}

/// Decides [`absorb_into`] on the events kept so far.
fn absorb_clamp(
    coord: i32,
    kept: &mut Vec<CollisionEvent>,
    clamp: Option<i32>,
    pull_down: bool,
    event: CollisionEvent,
) -> (next: i32)
    ensures
        (next as int, final(kept)@) == absorb_into(coord as int, old(kept)@, stop_value(clamp), pull_down, event),
{
    match clamp {
        Some(c) => {
            let is_nearer = if pull_down {
                c < coord
            } else {
                coord < c
            };
            if is_nearer {
                kept.clear();
                kept.push(event);
                assert(kept@ =~= seq![event]);
                c
            } else if c == coord {
                kept.push(event);
                coord
            } else {
                coord
            }
        },
        None => coord,
    }
}

/// Reporting commutes with absorbing: the events of the hits kept after one
/// more contact are what absorbing that contact's event into the events gives.
proof fn lemma_absorb_events(mover: Mover, obstacles: Seq<Obstacle>, state: AxisState, stop: Option<int>, hit: Hit)
    ensures
        absorb_into(
            state.coord,
            events_of(mover, obstacles, state.hits),
            stop,
            pulls_down(hit.side),
            event_of(mover, obstacles, hit),
        ) == (
            absorb(state, stop, hit).coord,
            events_of(mover, obstacles, absorb(state, stop, hit).hits),
        ),
{
    let after = absorb(state, stop, hit);
    let direct = absorb_into(
        state.coord,
        events_of(mover, obstacles, state.hits),
        stop,
        pulls_down(hit.side),
        event_of(mover, obstacles, hit),
    );
    assert(direct.1 =~= events_of(mover, obstacles, after.hits));
}

/// Sweeps `mover` against `obstacles` and clamps it to the nearest contact on
/// each axis.
///
/// The position returned is where the two axes settle after every obstacle
/// was tested, in list order. The events are those of the contacts that the
/// vertical axis kept, then those that the horizontal axis kept: a contact is
/// kept when no contact found before or after it stops the mover strictly
/// earlier.
pub fn collision_system(mover: &Mover, obstacles: &Vec<Obstacle>) -> (sweep: Sweep)
    requires
        mover.sweep_in_world(),
    ensures
        sweep.position.x == horizontal(*mover, obstacles@, obstacles@.len()).coord,
        sweep.position.y == vertical(*mover, obstacles@, obstacles@.len()).coord,
        sweep.events@ == sweep_events(*mover, obstacles@),
{
    let mut next_x: i32 = mover.position.x;
    let mut next_y: i32 = mover.position.y;
    let mut vertical_collisions: Vec<CollisionEvent> = Vec::new();
    let mut horizontal_collisions: Vec<CollisionEvent> = Vec::new();
    let mut i: usize = 0;
    assert(horizontal_collisions@ =~= events_of(*mover, obstacles@, horizontal(*mover, obstacles@, 0).hits));
    assert(vertical_collisions@ =~= events_of(*mover, obstacles@, vertical(*mover, obstacles@, 0).hits));
    while i < obstacles.len()
        invariant
            i <= obstacles@.len(),
            mover.sweep_in_world(),
            next_x == horizontal(*mover, obstacles@, i as nat).coord,
            next_y == vertical(*mover, obstacles@, i as nat).coord,
            horizontal_collisions@ == events_of(*mover, obstacles@, horizontal(*mover, obstacles@, i as nat).hits),
            vertical_collisions@ == events_of(*mover, obstacles@, vertical(*mover, obstacles@, i as nat).hits),
        decreases obstacles@.len() - i,
    {
        let obstacle = &obstacles[i];
        let ghost h0 = horizontal(*mover, obstacles@, i as nat);
        let ghost v0 = vertical(*mover, obstacles@, i as nat);
        let ghost on_left = Hit { obstacle: i as int, side: Collision::Left };
        let ghost on_right = Hit { obstacle: i as int, side: Collision::Right };
        let ghost on_top = Hit { obstacle: i as int, side: Collision::Top };
        let ghost on_bottom = Hit { obstacle: i as int, side: Collision::Bottom };

        let left = check_collide_left(mover, obstacle);
        proof {
            lemma_absorb_events(*mover, obstacles@, h0, stop_value(left), on_left);
        }
        next_x = absorb_clamp(
            next_x,
            &mut horizontal_collisions,
            left,
            true,
            CollisionEvent::new(Collision::Left, mover.entity, obstacle.entity),
        );

        let top = check_collide_top(mover, obstacle);
        proof {
            lemma_absorb_events(*mover, obstacles@, v0, stop_value(top), on_top);
        }
        next_y = absorb_clamp(
            next_y,
            &mut vertical_collisions,
            top,
            false,
            CollisionEvent::new(Collision::Top, mover.entity, obstacle.entity),
        );

        let right = check_collide_right(mover, obstacle);
        proof {
            lemma_absorb_events(
                *mover,
                obstacles@,
                absorb(h0, stop_value(left), on_left),
                stop_value(right),
                on_right,
            );
        }
        next_x = absorb_clamp(
            next_x,
            &mut horizontal_collisions,
            right,
            false,
            CollisionEvent::new(Collision::Right, mover.entity, obstacle.entity),
        );

        let bottom = check_collide_bottom(mover, obstacle);
        proof {
            lemma_absorb_events(
                *mover,
                obstacles@,
                absorb(v0, stop_value(top), on_top),
                stop_value(bottom),
                on_bottom,
            );
        }
        next_y = absorb_clamp(
            next_y,
            &mut vertical_collisions,
            bottom,
            true,
            CollisionEvent::new(Collision::Bottom, mover.entity, obstacle.entity),
        );
        i = i + 1;
    }
    let mut events = vertical_collisions;
    events.append(&mut horizontal_collisions);
    Sweep { position: Vector { x: next_x, y: next_y }, events }
}

} // verus!
