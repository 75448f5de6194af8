//! Stable sorting of route points by descending sequence number.

use crate::geometry::Position;
use vstd::prelude::*;

verus! {

/// One point of a route under construction: a waypoint's sequence number and
/// its position.
#[derive(Clone, Copy, Debug, PartialEq, Eq, Structural)]
pub struct RoutePoint {
    pub id: u32,
    pub position: Position,
}

/// Where a point with sequence number `id` goes in `sorted`: right after the
/// last point whose sequence number is at least `id`.
pub open spec fn slot_for(sorted: Seq<RoutePoint>, id: u32) -> int
    decreases sorted.len(),
{
    if sorted.len() == 0 {
        0
    } else if sorted.last().id >= id {
        sorted.len() as int
    } else {
        slot_for(sorted.drop_last(), id)
    }
}

/// The points in descending order of sequence number, points with the same
/// number in the order in which they stand in `points`.
pub open spec fn sorted_descending(points: Seq<RoutePoint>) -> Seq<RoutePoint>
    decreases points.len(),
{
    if points.len() == 0 {
        Seq::empty()
    } else {
        let earlier = sorted_descending(points.drop_last());
        earlier.insert(slot_for(earlier, points.last().id), points.last())
    }
}

/// No point is followed by one with a greater sequence number.
pub open spec fn is_descending(points: Seq<RoutePoint>) -> bool {
    forall|i: int, j: int| 0 <= i < j < points.len() ==> points[i].id >= points[j].id
}

/// Every point is followed only by points with smaller sequence numbers.
pub open spec fn is_strictly_descending(points: Seq<RoutePoint>) -> bool {
    forall|i: int, j: int| 0 <= i < j < points.len() ==> points[i].id > points[j].id
}

/// No two points have the same sequence number.
pub open spec fn has_distinct_ids(points: Seq<RoutePoint>) -> bool {
    forall|i: int, j: int| 0 <= i < j < points.len() ==> points[i].id != points[j].id
}

/// The positions of the points, in order.
pub open spec fn positions_of(points: Seq<RoutePoint>) -> Seq<Position> {
    points.map_values(|point: RoutePoint| point.position)
}

/// The slot lies within the sequence, every point from the slot on has a
/// smaller sequence number, and the point before the slot does not.
pub proof fn lemma_slot_for(sorted: Seq<RoutePoint>, id: u32)
    ensures
        0 <= slot_for(sorted, id) <= sorted.len(),
        forall|k: int| slot_for(sorted, id) <= k < sorted.len() ==> sorted[k].id < id,
        slot_for(sorted, id) > 0 ==> sorted[slot_for(sorted, id) - 1].id >= id,
    decreases sorted.len(),
{
    if sorted.len() > 0 && sorted.last().id < id {
        lemma_slot_for(sorted.drop_last(), id);
        assert forall|k: int| slot_for(sorted, id) <= k < sorted.len() implies sorted[k].id
            < id by {
            if k < sorted.len() - 1 {
                assert(sorted.drop_last()[k] == sorted[k]);
            }
        }
    }
}

/// The slot is the only index with the two properties of [`lemma_slot_for`].
pub proof fn lemma_slot_is(sorted: Seq<RoutePoint>, id: u32, slot: int)
    requires
        0 <= slot <= sorted.len(),
        forall|k: int| slot <= k < sorted.len() ==> sorted[k].id < id,
        slot > 0 ==> sorted[slot - 1].id >= id,
    ensures
        slot_for(sorted, id) == slot,
    decreases sorted.len(),
{
    if sorted.len() > 0 && sorted.last().id < id {
        assert forall|k: int| slot <= k < sorted.len() - 1 implies sorted.drop_last()[k].id
            < id by {}
        lemma_slot_is(sorted.drop_last(), id, slot);
    }
}

/// Sorting rearranges the points: each point occurs in the result as often as
/// in the input.
pub proof fn lemma_sorted_is_permutation(points: Seq<RoutePoint>)
    ensures
        sorted_descending(points).to_multiset() == points.to_multiset(),
        sorted_descending(points).len() == points.len(),
    decreases points.len(),
{
    broadcast use vstd::seq_lib::to_multiset_build, vstd::seq_lib::to_multiset_insert;

    if points.len() == 0 {
        assert(points == Seq::<RoutePoint>::empty());
    } else {
        let earlier = sorted_descending(points.drop_last());
        lemma_sorted_is_permutation(points.drop_last());
        lemma_slot_for(earlier, points.last().id);
        assert(points == points.drop_last().push(points.last()));
    }
}

/// The sorted points are in descending order of sequence number.
pub proof fn lemma_sorted_is_descending(points: Seq<RoutePoint>)
    ensures
        is_descending(sorted_descending(points)),
    decreases points.len(),
{
    if points.len() > 0 {
        let earlier = sorted_descending(points.drop_last());
        lemma_sorted_is_descending(points.drop_last());
        lemma_slot_for(earlier, points.last().id);
    }
}

/// Every sequence number of the sorted points is one of the input.
proof fn lemma_sorted_ids_come_from_input(points: Seq<RoutePoint>, index: int)
    requires
        0 <= index < sorted_descending(points).len(),
    ensures
        exists|source: int|
            0 <= source < points.len() && #[trigger] points[source] == sorted_descending(
                points,
            )[index],
    decreases points.len(),
{
    let earlier = sorted_descending(points.drop_last());
    lemma_sorted_is_permutation(points.drop_last());
    lemma_slot_for(earlier, points.last().id);
    let slot = slot_for(earlier, points.last().id);
    if index < slot {
        lemma_sorted_ids_come_from_input(points.drop_last(), index);
    } else if index > slot {
        lemma_sorted_ids_come_from_input(points.drop_last(), index - 1);
    }
}

/// Points with distinct sequence numbers are sorted into strictly descending
/// order.
pub proof fn lemma_sorted_is_strictly_descending(points: Seq<RoutePoint>)
    requires
        has_distinct_ids(points),
    ensures
        is_strictly_descending(sorted_descending(points)),
        has_distinct_ids(sorted_descending(points)),
    decreases points.len(),
{
    if points.len() > 0 {
        let shorter = points.drop_last();
        let earlier = sorted_descending(shorter);
        assert forall|i: int, j: int| 0 <= i < j < shorter.len() implies shorter[i].id
            != shorter[j].id by {}
        lemma_sorted_is_strictly_descending(shorter);
        lemma_sorted_is_permutation(shorter);
        lemma_slot_for(earlier, points.last().id);
        let slot = slot_for(earlier, points.last().id);
        if slot > 0 {
            lemma_sorted_ids_come_from_input(shorter, slot - 1);
        }
    }
}

/// Sorts the points into descending order of sequence number. Points with the
/// same number keep the order they had.
pub fn sort_descending(points: &Vec<RoutePoint>) -> (sorted: Vec<RoutePoint>)
    ensures
        sorted@ == sorted_descending(points@),
{
    let mut sorted: Vec<RoutePoint> = Vec::new();
    let mut index: usize = 0;
    while index < points.len()
        invariant
            index <= points.len(),
            sorted@ == sorted_descending(points@.take(index as int)),
            sorted@.len() == index,
        decreases points.len() - index,
    {
        let point = points[index];
        let mut slot: usize = sorted.len();
        while slot > 0 && sorted[slot - 1].id < point.id
            invariant
                slot <= sorted@.len(),
                forall|k: int| slot <= k < sorted@.len() ==> sorted@[k].id < point.id,
            decreases slot,
        {
            slot -= 1;
        }
        proof {
            lemma_slot_is(sorted@, point.id, slot as int);
            assert(points@.take(index as int + 1).drop_last() == points@.take(index as int));
        }
        sorted.insert(slot, point);
        index += 1;
    }
    assert(points@.take(points.len() as int) == points@);
    sorted
}

/// The positions of the points, in order.
pub fn project_positions(points: &Vec<RoutePoint>) -> (positions: Vec<Position>)
    ensures
        positions@ == positions_of(points@),
{
    let mut positions: Vec<Position> = Vec::new();
    let mut index: usize = 0;
    while index < points.len()
        invariant
            index <= points.len(),
            positions@ == positions_of(points@.take(index as int)),
        decreases points.len() - index,
    {
        assert(points@.take(index as int + 1) == points@.take(index as int).push(
            points@[index as int],
        ));
        positions.push(points[index].position);
        index += 1;
    }
    positions
}

} // verus!
