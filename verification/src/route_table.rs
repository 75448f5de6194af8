//! A hash table from route number to route points.
//!
//! The table is a `bevy::utils::HashMap`. Nothing in this file is proved: the
//! contracts below say what the map's methods do to the table's entries, and
//! the rest of the library is verified against them. The map is held in a
//! struct that the verifier does not look into, because the map's own type
//! has an allocator parameter whose bound is private to its crate and so
//! cannot be declared to the verifier.

use crate::sorting::RoutePoint;
use vstd::prelude::*;

verus! {

/// A table from route number to the points gathered for that route.
#[verifier::external_body]
pub struct RoutePointTable {
    map: bevy::utils::HashMap<u32, Vec<RoutePoint>>,
}

/// The entries of the table.
pub uninterp spec fn table_entries(table: RoutePointTable) -> Map<u32, Seq<RoutePoint>>;

/// `groups` holds every entry of `entries` once, as a pair of route number
/// and points, in some order.
pub open spec fn lists_entries(
    groups: Seq<(u32, Vec<RoutePoint>)>,
    entries: Map<u32, Seq<RoutePoint>>,
) -> bool {
    &&& forall|i: int|
        0 <= i < groups.len() ==> entries.dom().contains((#[trigger] groups[i]).0)
            && groups[i].1@ == entries[groups[i].0]
    &&& forall|i: int, j: int|
        0 <= i < j < groups.len() ==> (#[trigger] groups[i]).0 != (#[trigger] groups[j]).0
    &&& forall|spawn_id: u32|
        entries.dom().contains(spawn_id) ==> exists|i: int|
            0 <= i < groups.len() && (#[trigger] groups[i]).0 == spawn_id
}

/// Calls `HashMap::default`: the new table has no entries.
#[verifier::external_body]
pub(crate) fn table_new() -> (table: RoutePointTable)
    ensures
        table_entries(table) =~= Map::empty(),
{
    RoutePointTable { map: bevy::utils::HashMap::default() }
}

/// Calls `HashMap::remove`: the entry for `spawn_id`, if there is one, leaves
/// the table and its points are returned; every other entry stays.
#[verifier::external_body]
pub(crate) fn table_remove(table: &mut RoutePointTable, spawn_id: u32) -> (points: Option<
    Vec<RoutePoint>,
>)
    ensures
        table_entries(*final(table)) =~= table_entries(*old(table)).remove(spawn_id),
        points is Some <==> table_entries(*old(table)).dom().contains(spawn_id),
        points matches Some(found) ==> found@ == table_entries(*old(table))[spawn_id],
{
    table.map.remove(&spawn_id)
}

/// Calls `HashMap::insert`: afterwards the entry for `spawn_id` holds
/// `points`, whether or not there was one before; every other entry stays.
#[verifier::external_body]
pub(crate) fn table_insert(table: &mut RoutePointTable, spawn_id: u32, points: Vec<RoutePoint>)
    ensures
        table_entries(*final(table)) =~= table_entries(*old(table)).insert(spawn_id, points@),
{
    table.map.insert(spawn_id, points);
}

/// Calls `HashMap::get`: the points of the entry for `spawn_id`, if there is
/// one.
#[verifier::external_body]
pub(crate) fn table_get(table: &RoutePointTable, spawn_id: u32) -> (points: Option<
    &Vec<RoutePoint>,
>)
    ensures
        points is Some <==> table_entries(*table).dom().contains(spawn_id),
        points matches Some(found) ==> found@ == table_entries(*table)[spawn_id],
{
    table.map.get(&spawn_id)
}

/// Calls `HashMap::into_iter`: every entry is handed out once. The order in
/// which they come is not fixed.
#[verifier::external_body]
pub(crate) fn table_into_groups(table: RoutePointTable) -> (groups: Vec<(u32, Vec<RoutePoint>)>)
    ensures
        lists_entries(groups@, table_entries(table)),
{
    table.map.into_iter().collect()
}

} // verus!
