//! What the sweep guarantees: every reported contact is a real one that the
//! collider's filter admits, and on each axis the nearest contacts win.

use vstd::prelude::*;
use crate::collision::{Collision, CollisionEvent, TOP_BIT};
use crate::collision::sweep::{
    absorb, bottom_contact, contact, event_of, horizontal, left_contact, right_contact, sweep_events,
    top_contact, vertical, Hit, Mover, Obstacle,
};

verus! {

/// A side is struck only where the collider's filter admits it.
pub proof fn lemma_contact_respects_filter(mover: Mover, obstacle: Obstacle, side: Collision)
    requires
        contact(mover, obstacle, side) is Some,
    ensures
        obstacle.collider.filter.admits(side),
{
}

/// A collider that admits contacts on its top side only is never struck on
/// another side.
pub proof fn lemma_top_only_collider(mover: Mover, obstacle: Obstacle, side: Collision)
    requires
        obstacle.collider.filter.0 == TOP_BIT,
        side != Collision::Top,
    ensures
        contact(mover, obstacle, side) is None,
{
    let bits = obstacle.collider.filter.0;
    assert(bits & 0b0100u8 != 0b0100u8 && bits & 0b0010u8 != 0b0010u8 && bits & 0b0001u8 != 0b0001u8)
        by (bit_vector)
        requires
            bits == 0b1000u8,
    ;
}

/// Every contact kept on the horizontal axis is a contact of a listed
/// obstacle on its left or right side, and stops the mover exactly where the
/// axis settled.
pub proof fn lemma_horizontal_hits_are_contacts(mover: Mover, obstacles: Seq<Obstacle>, n: nat)
    requires
        n <= obstacles.len(),
    ensures
        forall|k: int|
            0 <= k < horizontal(mover, obstacles, n).hits.len() ==> {
                let hit = #[trigger] horizontal(mover, obstacles, n).hits[k];
                &&& 0 <= hit.obstacle < n
                &&& (hit.side == Collision::Left || hit.side == Collision::Right)
                &&& contact(mover, obstacles[hit.obstacle], hit.side) == Some(
                    horizontal(mover, obstacles, n).coord,
                )
            },
    decreases n,
{
    if n > 0 {
        lemma_horizontal_hits_are_contacts(mover, obstacles, (n - 1) as nat);
    }
}

/// Every contact kept on the vertical axis is a contact of a listed obstacle
/// on its top or bottom side, and stops the mover exactly where the axis
/// settled.
pub proof fn lemma_vertical_hits_are_contacts(mover: Mover, obstacles: Seq<Obstacle>, n: nat)
    requires
        n <= obstacles.len(),
    ensures
        forall|k: int|
            0 <= k < vertical(mover, obstacles, n).hits.len() ==> {
                let hit = #[trigger] vertical(mover, obstacles, n).hits[k];
                &&& 0 <= hit.obstacle < n
                &&& (hit.side == Collision::Top || hit.side == Collision::Bottom)
                &&& contact(mover, obstacles[hit.obstacle], hit.side) == Some(
                    vertical(mover, obstacles, n).coord,
                )
            },
    decreases n,
{
    if n > 0 {
        lemma_vertical_hits_are_contacts(mover, obstacles, (n - 1) as nat);
    }
}

/// Every event of a sweep names a listed obstacle whose filter admits the
/// side reported, and that side of it stops the mover on the event's axis
/// exactly where the sweep left it.
pub proof fn lemma_events_respect_filter(mover: Mover, obstacles: Seq<Obstacle>)
    ensures
        forall|k: int|
            0 <= k < sweep_events(mover, obstacles).len() ==> exists|i: int|
                {
                    let event = #[trigger] sweep_events(mover, obstacles)[k];
                    &&& 0 <= i < obstacles.len()
                    &&& event.static_entity == (#[trigger] obstacles[i]).entity
                    &&& event.moving_entity == mover.entity
                    &&& obstacles[i].collider.filter.admits(event.collision)
                    &&& contact(mover, obstacles[i], event.collision) is Some
                },
{
    let n = obstacles.len();
    let v = vertical(mover, obstacles, n);
    let h = horizontal(mover, obstacles, n);
    lemma_vertical_hits_are_contacts(mover, obstacles, n);
    lemma_horizontal_hits_are_contacts(mover, obstacles, n);
    assert forall|k: int| 0 <= k < sweep_events(mover, obstacles).len() implies exists|i: int|
        {
            let event = #[trigger] sweep_events(mover, obstacles)[k];
            &&& 0 <= i < obstacles.len()
            &&& event.static_entity == (#[trigger] obstacles[i]).entity
            &&& event.moving_entity == mover.entity
            &&& obstacles[i].collider.filter.admits(event.collision)
            &&& contact(mover, obstacles[i], event.collision) is Some
        } by {
        let hit = if k < v.hits.len() {
            v.hits[k]
        } else {
            h.hits[k - v.hits.len()]
        };
        assert(sweep_events(mover, obstacles)[k] == event_of(mover, obstacles, hit));
        lemma_contact_respects_filter(mover, obstacles[hit.obstacle], hit.side);
        assert(obstacles[hit.obstacle].entity == event_of(mover, obstacles, hit).static_entity);
    }
}

/// A sweep that strikes nothing leaves the mover where it is and reports
/// nothing.
pub proof fn lemma_free_sweep(mover: Mover, obstacles: Seq<Obstacle>)
    requires
        forall|i: int, side: Collision|
            0 <= i < obstacles.len() ==> #[trigger] contact(mover, obstacles[i], side) is None,
    ensures
        horizontal(mover, obstacles, obstacles.len()).coord == mover.position.x,
        vertical(mover, obstacles, obstacles.len()).coord == mover.position.y,
        sweep_events(mover, obstacles) == Seq::<CollisionEvent>::empty(),
{
    lemma_untouched(mover, obstacles, obstacles.len());
    assert(sweep_events(mover, obstacles) =~= Seq::<CollisionEvent>::empty());
}

proof fn lemma_untouched(mover: Mover, obstacles: Seq<Obstacle>, n: nat)
    requires
        n <= obstacles.len(),
        forall|i: int, side: Collision|
            0 <= i < obstacles.len() ==> #[trigger] contact(mover, obstacles[i], side) is None,
    ensures
        horizontal(mover, obstacles, n).coord == mover.position.x,
        horizontal(mover, obstacles, n).hits == Seq::<Hit>::empty(),
        vertical(mover, obstacles, n).coord == mover.position.y,
        vertical(mover, obstacles, n).hits == Seq::<Hit>::empty(),
    decreases n,
{
    if n > 0 {
        lemma_untouched(mover, obstacles, (n - 1) as nat);
        let o = obstacles[n - 1];
        assert(contact(mover, o, Collision::Left) is None);
        assert(contact(mover, o, Collision::Right) is None);
        assert(contact(mover, o, Collision::Top) is None);
        assert(contact(mover, o, Collision::Bottom) is None);
    }
}

/// Nearest contact from the left: when no obstacle among the first `n` is
/// struck on its right side, the horizontal axis settles at the smallest stop
/// of the contacts on left sides, or at the mover's position where there is
/// none; every contact with that stop is kept, and no other.
pub proof fn lemma_nearest_on_left(mover: Mover, obstacles: Seq<Obstacle>, n: nat)
    requires
        n <= obstacles.len(),
        forall|i: int| 0 <= i < n ==> right_contact(mover, #[trigger] obstacles[i]) is None,
    ensures
        horizontal(mover, obstacles, n).coord <= mover.position.x,
        forall|i: int|
            0 <= i < n ==> (left_contact(mover, #[trigger] obstacles[i]) matches Some(stop)
                ==> horizontal(mover, obstacles, n).coord <= stop),
        forall|i: int|
            0 <= i < n ==> (left_contact(mover, #[trigger] obstacles[i]) == Some(
                horizontal(mover, obstacles, n).coord,
            ) <==> horizontal(mover, obstacles, n).hits.contains(Hit { obstacle: i, side: Collision::Left })),
        horizontal(mover, obstacles, n).coord == mover.position.x || exists|i: int|
            0 <= i < n && left_contact(mover, #[trigger] obstacles[i]) == Some(
                horizontal(mover, obstacles, n).coord,
            ),
    decreases n,
{
    if n > 0 {
        let i = (n - 1) as int;
        let before = horizontal(mover, obstacles, i as nat);
        let hit = Hit { obstacle: i, side: Collision::Left };
        lemma_nearest_on_left(mover, obstacles, i as nat);
        lemma_horizontal_hits_are_contacts(mover, obstacles, i as nat);
        lemma_horizontal_hits_are_contacts(mover, obstacles, n);
        let after = horizontal(mover, obstacles, n);
        assert(obstacles[i] == obstacles[i]);
        assert(after == absorb(before, left_contact(mover, obstacles[i]), hit));
        assert forall|j: int| 0 <= j < n implies (left_contact(mover, #[trigger] obstacles[j]) == Some(
            after.coord,
        ) <==> after.hits.contains(Hit { obstacle: j, side: Collision::Left })) by {
            let wanted = Hit { obstacle: j, side: Collision::Left };
            if after.hits.contains(wanted) {
                let k = choose|k: int| 0 <= k < after.hits.len() && after.hits[k] == wanted;
                assert(after.hits[k] == wanted);
            }
            if left_contact(mover, obstacles[j]) == Some(after.coord) {
                if j == i {
                    if after.coord < before.coord {
                        assert(after.hits[0] == wanted);
                    } else {
                        assert(after.hits[before.hits.len() as int] == wanted);
                    }
                } else {
                    assert(after.coord == before.coord);
                    assert(before.hits.contains(wanted));
                    let k = choose|k: int| 0 <= k < before.hits.len() && before.hits[k] == wanted;
                    assert(after.hits[k] == wanted);
                }
            }
        }
    }
}

/// Nearest contact from the right: the mirror image of
/// [`lemma_nearest_on_left`], for sweeps that strike no left side.
pub proof fn lemma_nearest_on_right(mover: Mover, obstacles: Seq<Obstacle>, n: nat)
    requires
        n <= obstacles.len(),
        forall|i: int| 0 <= i < n ==> left_contact(mover, #[trigger] obstacles[i]) is None,
    ensures
        horizontal(mover, obstacles, n).coord >= mover.position.x,
        forall|i: int|
            0 <= i < n ==> (right_contact(mover, #[trigger] obstacles[i]) matches Some(stop)
                ==> horizontal(mover, obstacles, n).coord >= stop),
        forall|i: int|
            0 <= i < n ==> (right_contact(mover, #[trigger] obstacles[i]) == Some(
                horizontal(mover, obstacles, n).coord,
            ) <==> horizontal(mover, obstacles, n).hits.contains(Hit { obstacle: i, side: Collision::Right })),
        horizontal(mover, obstacles, n).coord == mover.position.x || exists|i: int|
            0 <= i < n && right_contact(mover, #[trigger] obstacles[i]) == Some(
                horizontal(mover, obstacles, n).coord,
            ),
    decreases n,
{
    if n > 0 {
        let i = (n - 1) as int;
        let before = horizontal(mover, obstacles, i as nat);
        let hit = Hit { obstacle: i, side: Collision::Right };
        lemma_nearest_on_right(mover, obstacles, i as nat);
        lemma_horizontal_hits_are_contacts(mover, obstacles, i as nat);
        lemma_horizontal_hits_are_contacts(mover, obstacles, n);
        let after = horizontal(mover, obstacles, n);
        assert(obstacles[i] == obstacles[i]);
        assert(after == absorb(before, right_contact(mover, obstacles[i]), hit));
        assert forall|j: int| 0 <= j < n implies (right_contact(mover, #[trigger] obstacles[j]) == Some(
            after.coord,
        ) <==> after.hits.contains(Hit { obstacle: j, side: Collision::Right })) by {
            let wanted = Hit { obstacle: j, side: Collision::Right };
            if after.hits.contains(wanted) {
                let k = choose|k: int| 0 <= k < after.hits.len() && after.hits[k] == wanted;
                assert(after.hits[k] == wanted);
            }
            if right_contact(mover, obstacles[j]) == Some(after.coord) {
                if j == i {
                    if after.coord > before.coord {
                        assert(after.hits[0] == wanted);
                    } else {
                        assert(after.hits[before.hits.len() as int] == wanted);
                    }
                } else {
                    assert(after.coord == before.coord);
                    assert(before.hits.contains(wanted));
                    let k = choose|k: int| 0 <= k < before.hits.len() && before.hits[k] == wanted;
                    assert(after.hits[k] == wanted);
                }
            }
        }
    }
}

/// Nearest contact from above: when no obstacle among the first `n` is
/// struck on its bottom side, the vertical axis settles at the largest stop
/// of the contacts on top sides, or at the mover's position where there is
/// none; every contact with that stop is kept, and no other.
pub proof fn lemma_nearest_on_top(mover: Mover, obstacles: Seq<Obstacle>, n: nat)
    requires
        n <= obstacles.len(),
        forall|i: int| 0 <= i < n ==> bottom_contact(mover, #[trigger] obstacles[i]) is None,
    ensures
        vertical(mover, obstacles, n).coord >= mover.position.y,
        forall|i: int|
            0 <= i < n ==> (top_contact(mover, #[trigger] obstacles[i]) matches Some(stop) ==> vertical(
                mover,
                obstacles,
                n,
            ).coord >= stop),
        forall|i: int|
            0 <= i < n ==> (top_contact(mover, #[trigger] obstacles[i]) == Some(
                vertical(mover, obstacles, n).coord,
            ) <==> vertical(mover, obstacles, n).hits.contains(Hit { obstacle: i, side: Collision::Top })),
        vertical(mover, obstacles, n).coord == mover.position.y || exists|i: int|
            0 <= i < n && top_contact(mover, #[trigger] obstacles[i]) == Some(
                vertical(mover, obstacles, n).coord,
            ),
    decreases n,
{
    if n > 0 {
        let i = (n - 1) as int;
        let before = vertical(mover, obstacles, i as nat);
        let hit = Hit { obstacle: i, side: Collision::Top };
        lemma_nearest_on_top(mover, obstacles, i as nat);
        lemma_vertical_hits_are_contacts(mover, obstacles, i as nat);
        lemma_vertical_hits_are_contacts(mover, obstacles, n);
        let after = vertical(mover, obstacles, n);
        assert(obstacles[i] == obstacles[i]);
        assert(after == absorb(before, top_contact(mover, obstacles[i]), hit));
        assert forall|j: int| 0 <= j < n implies (top_contact(mover, #[trigger] obstacles[j]) == Some(
            after.coord,
        ) <==> after.hits.contains(Hit { obstacle: j, side: Collision::Top })) by {
            let wanted = Hit { obstacle: j, side: Collision::Top };
            if after.hits.contains(wanted) {
                let k = choose|k: int| 0 <= k < after.hits.len() && after.hits[k] == wanted;
                assert(after.hits[k] == wanted);
            }
            if top_contact(mover, obstacles[j]) == Some(after.coord) {
                if j == i {
                    if after.coord > before.coord {
                        assert(after.hits[0] == wanted);
                    } else {
                        assert(after.hits[before.hits.len() as int] == wanted);
                    }
                } else {
                    assert(after.coord == before.coord);
                    assert(before.hits.contains(wanted));
                    let k = choose|k: int| 0 <= k < before.hits.len() && before.hits[k] == wanted;
                    assert(after.hits[k] == wanted);
                }
            }
        }
    }
}

/// Nearest contact from below: the mirror image of [`lemma_nearest_on_top`],
/// for sweeps that strike no top side.
pub proof fn lemma_nearest_on_bottom(mover: Mover, obstacles: Seq<Obstacle>, n: nat)
    requires
        n <= obstacles.len(),
        forall|i: int| 0 <= i < n ==> top_contact(mover, #[trigger] obstacles[i]) is None,
    ensures
        vertical(mover, obstacles, n).coord <= mover.position.y,
        forall|i: int|
            0 <= i < n ==> (bottom_contact(mover, #[trigger] obstacles[i]) matches Some(stop)
                ==> vertical(mover, obstacles, n).coord <= stop),
        forall|i: int|
            0 <= i < n ==> (bottom_contact(mover, #[trigger] obstacles[i]) == Some(
                vertical(mover, obstacles, n).coord,
            ) <==> vertical(mover, obstacles, n).hits.contains(Hit { obstacle: i, side: Collision::Bottom })),
        vertical(mover, obstacles, n).coord == mover.position.y || exists|i: int|
            0 <= i < n && bottom_contact(mover, #[trigger] obstacles[i]) == Some(
                vertical(mover, obstacles, n).coord,
            ),
    decreases n,
{
    if n > 0 {
        let i = (n - 1) as int;
        let before = vertical(mover, obstacles, i as nat);
        let hit = Hit { obstacle: i, side: Collision::Bottom };
        lemma_nearest_on_bottom(mover, obstacles, i as nat);
        lemma_vertical_hits_are_contacts(mover, obstacles, i as nat);
        lemma_vertical_hits_are_contacts(mover, obstacles, n);
        let after = vertical(mover, obstacles, n);
        assert(obstacles[i] == obstacles[i]);
        assert(after == absorb(before, bottom_contact(mover, obstacles[i]), hit));
        assert forall|j: int| 0 <= j < n implies (bottom_contact(mover, #[trigger] obstacles[j]) == Some(
            after.coord,
        ) <==> after.hits.contains(Hit { obstacle: j, side: Collision::Bottom })) by {
            let wanted = Hit { obstacle: j, side: Collision::Bottom };
            if after.hits.contains(wanted) {
                let k = choose|k: int| 0 <= k < after.hits.len() && after.hits[k] == wanted;
                assert(after.hits[k] == wanted);
            }
            if bottom_contact(mover, obstacles[j]) == Some(after.coord) {
                if j == i {
                    if after.coord < before.coord {
                        assert(after.hits[0] == wanted);
                    } else {
                        assert(after.hits[before.hits.len() as int] == wanted);
                    }
                } else {
                    assert(after.coord == before.coord);
                    assert(before.hits.contains(wanted));
                    let k = choose|k: int| 0 <= k < before.hits.len() && before.hits[k] == wanted;
                    assert(after.hits[k] == wanted);
                }
            }
        }
    }
}

} // verus!
