//! Routes: the ordered lists of positions that units travel, built out of
//! the waypoints of the level.

use crate::geometry::Position;
use crate::navigation::NavRoute;
use crate::route_table::{
    lists_entries, table_entries, table_get, table_insert, table_into_groups, table_new,
    table_remove, RoutePointTable,
};
use crate::sorting::{
    positions_of, project_positions, sort_descending, sorted_descending, RoutePoint,
};
use crate::spawner::{source_views, SpawnSource, SpawnSourceView};
use vstd::prelude::*;

verus! {

/// A level marker that belongs to a route.
#[derive(Clone, Copy, Debug, PartialEq, Eq, Structural)]
pub struct Waypoint {
    /// Orders the waypoints of one route: units visit them in ascending order.
    pub id: u32,
    /// Names the route, and with it the spawn point whose units use it.
    pub spawn_id: u32,
    pub position: Position,
    /// Set once the waypoint has been taken into a route.
    pub initiated: bool,
}

/// The waypoint has not been taken into a route yet and belongs to the route
/// numbered `spawn_id`.
pub open spec fn is_fresh_for(waypoint: Waypoint, spawn_id: u32) -> bool {
    !waypoint.initiated && waypoint.spawn_id == spawn_id
}

/// The waypoint as a point of a route under construction.
pub open spec fn point_of(waypoint: Waypoint) -> RoutePoint {
    RoutePoint { id: waypoint.id, position: waypoint.position }
}

/// The test that picks the fresh waypoints of the route numbered `spawn_id`.
pub open spec fn fresh_for(spawn_id: u32) -> spec_fn(Waypoint) -> bool {
    |waypoint: Waypoint| is_fresh_for(waypoint, spawn_id)
}

/// The points of a list of waypoints, in order.
pub open spec fn points_of(waypoints: Seq<Waypoint>) -> Seq<RoutePoint> {
    waypoints.map_values(|waypoint: Waypoint| point_of(waypoint))
}

/// The fresh waypoints of the route numbered `spawn_id`, in the order in
/// which they stand in `waypoints`.
pub open spec fn group_of(waypoints: Seq<Waypoint>, spawn_id: u32) -> Seq<RoutePoint> {
    points_of(waypoints.filter(fresh_for(spawn_id)))
}

/// Some fresh waypoint belongs to the route numbered `spawn_id`.
pub open spec fn has_group(waypoints: Seq<Waypoint>, spawn_id: u32) -> bool {
    group_of(waypoints, spawn_id).len() > 0
}

/// The route numbered `spawn_id`: the positions of its fresh waypoints in
/// descending order of sequence number, so that the waypoint with the
/// smallest number is the last element and is visited first.
pub open spec fn route_for(waypoints: Seq<Waypoint>, spawn_id: u32) -> Seq<Position> {
    positions_of(sorted_descending(group_of(waypoints, spawn_id)))
}

/// The fresh waypoints grouped by route.
pub open spec fn grouping(waypoints: Seq<Waypoint>) -> Map<u32, Seq<RoutePoint>> {
    Map::new(
        |spawn_id: u32| has_group(waypoints, spawn_id),
        |spawn_id: u32| group_of(waypoints, spawn_id),
    )
}

/// The same entries, each sorted into descending order of sequence number.
pub open spec fn sorted_entries(entries: Map<u32, Seq<RoutePoint>>) -> Map<u32, Seq<RoutePoint>> {
    Map::new(
        |spawn_id: u32| entries.dom().contains(spawn_id),
        |spawn_id: u32| sorted_descending(entries[spawn_id]),
    )
}

/// The same waypoints, all marked as taken into a route.
pub open spec fn all_initiated(waypoints: Seq<Waypoint>) -> Seq<Waypoint> {
    waypoints.map_values(|waypoint: Waypoint| Waypoint { initiated: true, ..waypoint })
}

impl SpawnSourceView {
    /// The source has been dealt with by an earlier build: it has a route,
    /// or it is switched off.
    pub open spec fn settled(self) -> bool {
        self.route is Some || self.disabled
    }

    /// The source after routes have been built from `waypoints`. A settled
    /// source is left as it was. Any other source gets the route with its
    /// number, if fresh waypoints make one, and is switched off for good if
    /// they make none.
    pub open spec fn routed(self, waypoints: Seq<Waypoint>) -> SpawnSourceView {
        if self.settled() {
            self
        } else if has_group(waypoints, self.spawn_point.id) {
            SpawnSourceView { route: Some(route_for(waypoints, self.spawn_point.id)), ..self }
        } else {
            SpawnSourceView { disabled: true, ..self }
        }
    }

    /// The source after routes have been looked up in `routes`.
    pub open spec fn routed_from(self, routes: Map<u32, Seq<RoutePoint>>) -> SpawnSourceView {
        if self.settled() {
            self
        } else if routes.dom().contains(self.spawn_point.id) {
            SpawnSourceView { route: Some(positions_of(routes[self.spawn_point.id])), ..self }
        } else {
            SpawnSourceView { disabled: true, ..self }
        }
    }
}

/// The numbers of the sources that have no route, in the order of the
/// sources.
pub open spec fn unrouted_ids(sources: Seq<SpawnSourceView>) -> Seq<u32>
    decreases sources.len(),
{
    if sources.len() == 0 {
        Seq::empty()
    } else if sources.last().route is None {
        unrouted_ids(sources.drop_last()).push(sources.last().spawn_point.id)
    } else {
        unrouted_ids(sources.drop_last())
    }
}

/// Taking one more waypoint into account adds it to the group of its route,
/// if it is fresh, and changes no other group.
pub proof fn lemma_group_of_next(waypoints: Seq<Waypoint>, count: int, spawn_id: u32)
    requires
        0 <= count < waypoints.len(),
    ensures
        group_of(waypoints.take(count + 1), spawn_id) == if is_fresh_for(
            waypoints[count],
            spawn_id,
        ) {
            group_of(waypoints.take(count), spawn_id).push(point_of(waypoints[count]))
        } else {
            group_of(waypoints.take(count), spawn_id)
        },
{
    let seen = waypoints.take(count);
    assert(waypoints.take(count + 1) == seen.push(waypoints[count]));
    seen.lemma_filter_push(waypoints[count], fresh_for(spawn_id));
    seen.filter(fresh_for(spawn_id)).lemma_push_map_commute(
        |waypoint: Waypoint| point_of(waypoint),
        waypoints[count],
    );
}

/// Groups the fresh waypoints by route and marks every waypoint as taken.
fn group_waypoints(waypoints: &mut Vec<Waypoint>) -> (groups: RoutePointTable)
    ensures
        final(waypoints)@ == all_initiated(old(waypoints)@),
        table_entries(groups) == grouping(old(waypoints)@),
{
    let mut groups = table_new();
    let mut index: usize = 0;
    let count = waypoints.len();
    while index < count
        invariant
            index <= count,
            count == waypoints@.len(),
            waypoints@.len() == old(waypoints)@.len(),
            forall|i: int|
                0 <= i < index ==> #[trigger] waypoints@[i] == (Waypoint {
                    initiated: true,
                    ..old(waypoints)@[i]
                }),
            forall|i: int| index <= i < count ==> #[trigger] waypoints@[i] == old(waypoints)@[i],
            table_entries(groups) == grouping(old(waypoints)@.take(index as int)),
        decreases count - index,
    {
        let waypoint = waypoints[index];
        if !waypoint.initiated {
            waypoints[index].initiated = true;
            let point = RoutePoint { id: waypoint.id, position: waypoint.position };
            let mut points = match table_remove(&mut groups, waypoint.spawn_id) {
                Some(found) => found,
                None => Vec::new(),
            };
            points.push(point);
            table_insert(&mut groups, waypoint.spawn_id, points);
        }
        proof {
            let next = old(waypoints)@.take(index as int + 1);
            let after = table_entries(groups);
            assert forall|spawn_id: u32|
                after.dom().contains(spawn_id) == has_group(next, spawn_id) && (
                after.dom().contains(spawn_id) ==> after[spawn_id] == group_of(
                    next,
                    spawn_id,
                )) by {
                lemma_group_of_next(old(waypoints)@, index as int, spawn_id);
            }
        }
        index += 1;
    }
    assert(old(waypoints)@.take(count as int) == old(waypoints)@);
    groups
}

/// Some group before position `count` carries the route number `spawn_id`.
pub open spec fn is_listed(groups: Seq<(u32, Vec<RoutePoint>)>, count: int, spawn_id: u32) -> bool {
    exists|i: int| 0 <= i < count && (#[trigger] groups[i]).0 == spawn_id
}

/// Sorts the points of every group into descending order of sequence
/// number.
fn sort_groups(groups: RoutePointTable) -> (routes: RoutePointTable)
    ensures
        table_entries(routes) == sorted_entries(table_entries(groups)),
{
    let ghost entries = table_entries(groups);
    let listed = table_into_groups(groups);
    let mut routes = table_new();
    let mut index: usize = 0;
    while index < listed.len()
        invariant
            index <= listed.len(),
            lists_entries(listed@, entries),
            forall|spawn_id: u32|
                table_entries(routes).dom().contains(spawn_id) <==> is_listed(
                    listed@,
                    index as int,
                    spawn_id,
                ),
            forall|spawn_id: u32|
                table_entries(routes).dom().contains(spawn_id) ==> #[trigger] table_entries(
                    routes,
                )[spawn_id] == sorted_descending(entries[spawn_id]),
        decreases listed.len() - index,
    {
        let spawn_id = listed[index].0;
        let sorted = sort_descending(&listed[index].1);
        table_insert(&mut routes, spawn_id, sorted);
        index += 1;
    }
    routes
}

/// Gives every source that is not settled the route with its number, if the
/// table holds one, and switches it off if the table holds none. Returns the
/// numbers of the sources that are left without a route.
fn attach_routes(routes: &RoutePointTable, sources: &mut Vec<SpawnSource>) -> (missing: Vec<u32>)
    ensures
        final(sources)@.len() == old(sources)@.len(),
        forall|i: int|
            0 <= i < old(sources)@.len() ==> (#[trigger] final(sources)@[i])@ == old(
                sources,
            )@[i]@.routed_from(table_entries(*routes)),
        missing@ == unrouted_ids(source_views(final(sources)@)),
{
    let mut missing: Vec<u32> = Vec::new();
    let mut index: usize = 0;
    let count = sources.len();
    while index < count
        invariant
            index <= count,
            count == sources@.len(),
            sources@.len() == old(sources)@.len(),
            forall|i: int|
                0 <= i < index ==> (#[trigger] sources@[i])@ == old(sources)@[i]@.routed_from(
                    table_entries(*routes),
                ),
            forall|i: int| index <= i < count ==> (#[trigger] sources@[i])@ == old(sources)@[i]@,
            missing@ == unrouted_ids(source_views(sources@).take(index as int)),
        decreases count - index,
    {
        let ghost earlier = source_views(sources@).take(index as int);
        let spawn_id = sources[index].spawn_point.id;
        let mut unrouted = sources[index].route.is_none();
        if unrouted && !sources[index].disabled {
            match table_get(routes, spawn_id) {
                Some(points) => {
                    sources[index].route = Some(NavRoute { route: project_positions(points) });
                    unrouted = false;
                },
                None => {
                    sources[index].disabled = true;
                },
            }
        }
        proof {
            let seen = source_views(sources@).take(index as int + 1);
            assert(seen.drop_last() =~= earlier);
        }
        if unrouted {
            missing.push(spawn_id);
        }
        index += 1;
    }
    assert(source_views(sources@).take(count as int) == source_views(sources@));
    missing
}

/// Builds the routes. The fresh waypoints are grouped by route number; each
/// group is sorted into descending order of sequence number; each source
/// that is not settled gets the positions of the group with its number.
/// Every waypoint is marked as taken, so that a later call builds nothing
/// from it again. A source for which no group exists is switched off for
/// good. Returns the numbers of the sources that have no route, in the order
/// of the sources: they never produce a unit.
pub fn init_nav_routes(waypoints: &mut Vec<Waypoint>, sources: &mut Vec<SpawnSource>) -> (missing:
    Vec<u32>)
    ensures
        final(waypoints)@ == all_initiated(old(waypoints)@),
        final(sources)@.len() == old(sources)@.len(),
        forall|i: int|
            0 <= i < old(sources)@.len() ==> (#[trigger] final(sources)@[i])@ == old(
                sources,
            )@[i]@.routed(old(waypoints)@),
        missing@ == unrouted_ids(source_views(final(sources)@)),
{
    let groups = group_waypoints(waypoints);
    let routes = sort_groups(groups);
    attach_routes(&routes, sources)
}

/// No two fresh waypoints of the route numbered `spawn_id` have the same
/// sequence number.
pub open spec fn has_distinct_route_ids(waypoints: Seq<Waypoint>, spawn_id: u32) -> bool {
    forall|i: int, j: int|
        0 <= i < j < waypoints.len() && is_fresh_for(waypoints[i], spawn_id) && is_fresh_for(
            waypoints[j],
            spawn_id,
        ) ==> waypoints[i].id != waypoints[j].id
}

/// `point` is the point of a fresh waypoint of the route numbered `spawn_id`.
pub open spec fn is_point_of_route(
    waypoints: Seq<Waypoint>,
    spawn_id: u32,
    point: RoutePoint,
) -> bool {
    exists|j: int|
        0 <= j < waypoints.len() && is_fresh_for(#[trigger] waypoints[j], spawn_id) && point_of(
            waypoints[j],
        ) == point
}

/// Every point of a group comes from a fresh waypoint of its route, and the
/// points of a route whose waypoints have distinct sequence numbers have
/// distinct sequence numbers too.
proof fn lemma_group_points(waypoints: Seq<Waypoint>, spawn_id: u32)
    ensures
        forall|k: int|
            0 <= k < group_of(waypoints, spawn_id).len() ==> is_point_of_route(
                waypoints,
                spawn_id,
                #[trigger] group_of(waypoints, spawn_id)[k],
            ),
        has_distinct_route_ids(waypoints, spawn_id) ==> crate::sorting::has_distinct_ids(
            group_of(waypoints, spawn_id),
        ),
    decreases waypoints.len(),
{
    let group = group_of(waypoints, spawn_id);
    if waypoints.len() == 0 {
        waypoints.lemma_filter_len(fresh_for(spawn_id));
    } else {
        let count = waypoints.len() - 1;
        let shorter = waypoints.drop_last();
        let earlier = group_of(shorter, spawn_id);
        lemma_group_points(shorter, spawn_id);
        lemma_group_of_next(waypoints, count, spawn_id);
        assert(waypoints.take(count + 1) == waypoints);
        assert forall|k: int| 0 <= k < group.len() implies is_point_of_route(
            waypoints,
            spawn_id,
            #[trigger] group[k],
        ) by {
            if k < earlier.len() {
                let j = choose|j: int|
                    0 <= j < shorter.len() && is_fresh_for(#[trigger] shorter[j], spawn_id)
                        && point_of(shorter[j]) == earlier[k];
                assert(waypoints[j] == shorter[j]);
            }
        }
        if has_distinct_route_ids(waypoints, spawn_id) {
            assert forall|i: int, j: int| 0 <= i < j < group.len() implies group[i].id
                != group[j].id by {
                if j == earlier.len() {
                    let source = choose|source: int|
                        0 <= source < shorter.len() && is_fresh_for(
                            #[trigger] shorter[source],
                            spawn_id,
                        ) && point_of(shorter[source]) == earlier[i];
                    assert(waypoints[source].id != waypoints[count].id);
                }
            }
        }
    }
}

/// The route built for a route number holds exactly the fresh waypoints with
/// that number: its points are a rearrangement of theirs. Where the sequence
/// numbers of those waypoints are distinct, the route is in strictly
/// descending order of sequence number.
pub proof fn lemma_route_is_ordered_and_complete(waypoints: Seq<Waypoint>, spawn_id: u32)
    ensures
        route_for(waypoints, spawn_id) == positions_of(
            sorted_descending(group_of(waypoints, spawn_id)),
        ),
        route_for(waypoints, spawn_id).len() == waypoints.filter(fresh_for(spawn_id)).len(),
        sorted_descending(group_of(waypoints, spawn_id)).to_multiset() == points_of(
            waypoints.filter(fresh_for(spawn_id)),
        ).to_multiset(),
        crate::sorting::is_descending(sorted_descending(group_of(waypoints, spawn_id))),
        has_distinct_route_ids(waypoints, spawn_id) ==> crate::sorting::is_strictly_descending(
            sorted_descending(group_of(waypoints, spawn_id)),
        ),
{
    crate::sorting::lemma_sorted_is_permutation(group_of(waypoints, spawn_id));
    crate::sorting::lemma_sorted_is_descending(group_of(waypoints, spawn_id));
    lemma_group_points(waypoints, spawn_id);
    if has_distinct_route_ids(waypoints, spawn_id) {
        crate::sorting::lemma_sorted_is_strictly_descending(group_of(waypoints, spawn_id));
    }
}

/// Once every waypoint is marked as taken, no route number has a group.
pub proof fn lemma_initiated_waypoints_make_no_group(waypoints: Seq<Waypoint>, spawn_id: u32)
    ensures
        !has_group(all_initiated(waypoints), spawn_id),
        all_initiated(all_initiated(waypoints)) == all_initiated(waypoints),
{
    let marked = all_initiated(waypoints);
    assert forall|i: int| 0 <= i < marked.len() implies !(fresh_for(spawn_id))(
        #[trigger] marked[i],
    ) by {}
    marked.lemma_all_neg_filter_empty(fresh_for(spawn_id));
}

/// Building routes a second time changes nothing: the waypoints stay marked,
/// and a source stays exactly as the first build left it, whatever waypoints
/// the second build is given. No build touches the counters or the timer of
/// a source, and none touches a source that has a route.
pub proof fn lemma_route_building_is_idempotent(
    waypoints: Seq<Waypoint>,
    later: Seq<Waypoint>,
    source: SpawnSourceView,
)
    ensures
        all_initiated(all_initiated(waypoints)) == all_initiated(waypoints),
        source.routed(waypoints).settled(),
        source.routed(waypoints).routed(later) == source.routed(waypoints),
        source.routed(waypoints).routed(all_initiated(waypoints)) == source.routed(waypoints),
        source.routed(waypoints).spawn_point == source.spawn_point,
        source.routed(waypoints).position == source.position,
        source.route is Some ==> source.routed(waypoints) == source,
{
    lemma_initiated_waypoints_make_no_group(waypoints, source.spawn_point.id);
}

/// A source that a build leaves without a route never produces a unit, and a
/// source that a build gives a route has at least one point to go to.
pub proof fn lemma_built_route_is_not_empty(waypoints: Seq<Waypoint>, source: SpawnSourceView)
    requires
        !source.settled(),
    ensures
        source.routed(waypoints).route matches Some(route) ==> route.len() > 0 && route
            == route_for(waypoints, source.spawn_point.id),
        source.routed(waypoints).route is None ==> source.routed(waypoints).disabled && forall|
            deltas: Seq<u64>,
        | #[trigger] source.routed(waypoints).units_produced(deltas) == 0,
{
    crate::sorting::lemma_sorted_is_permutation(group_of(waypoints, source.spawn_point.id));
    if source.routed(waypoints).route is None {
        assert forall|deltas: Seq<u64>| #[trigger]
            source.routed(waypoints).units_produced(deltas) == 0 by {
            crate::spawner::lemma_no_unit_without_route(source.routed(waypoints), deltas);
        }
    }
}

} // verus!
