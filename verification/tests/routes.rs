use tower_defense::enemy::EnemyType;
use tower_defense::geometry::Position;
use tower_defense::navigation::NavRoute;
use tower_defense::routes::{init_nav_routes, Waypoint};
use tower_defense::sorting::{project_positions, sort_descending, RoutePoint};
use tower_defense::spawner::{get_spawn_point_for_enemy_type, SpawnSource};

fn waypoint(spawn_id: u32, id: u32, x: i32, z: i32) -> Waypoint {
    Waypoint { id, spawn_id, position: Position::new(x, 500, z), initiated: false }
}

fn source(id: u32) -> SpawnSource {
    SpawnSource::new(
        get_spawn_point_for_enemy_type(id, EnemyType::EnemyBasic),
        Position::new(0, 0, 0),
    )
}

fn route_of(source: &SpawnSource) -> Vec<Position> {
    match &source.route {
        Some(nav_route) => nav_route.route.clone(),
        None => panic!("the source has no route"),
    }
}

#[test]
fn route_is_sorted_by_descending_sequence_number() {
    let mut waypoints = vec![
        waypoint(1, 2, 20, 0),
        waypoint(1, 0, 0, 0),
        waypoint(1, 3, 30, 0),
        waypoint(1, 1, 10, 0),
    ];
    let mut sources = vec![source(1)];
    let missing = init_nav_routes(&mut waypoints, &mut sources);
    assert!(missing.is_empty());
    assert_eq!(
        route_of(&sources[0]),
        vec![
            Position::new(30, 500, 0),
            Position::new(20, 500, 0),
            Position::new(10, 500, 0),
            Position::new(0, 500, 0),
        ]
    );
}

#[test]
fn waypoints_are_grouped_by_route() {
    let mut waypoints = vec![
        waypoint(2, 0, 200, 0),
        waypoint(1, 0, 100, 0),
        waypoint(3, 1, 301, 0),
        waypoint(2, 1, 201, 0),
        waypoint(1, 1, 101, 0),
        waypoint(2, 2, 202, 0),
        waypoint(3, 0, 300, 0),
    ];
    let mut sources = vec![source(3), source(1), source(2)];
    let missing = init_nav_routes(&mut waypoints, &mut sources);
    assert!(missing.is_empty());
    assert_eq!(
        route_of(&sources[0]),
        vec![Position::new(301, 500, 0), Position::new(300, 500, 0)]
    );
    assert_eq!(
        route_of(&sources[1]),
        vec![Position::new(101, 500, 0), Position::new(100, 500, 0)]
    );
    assert_eq!(
        route_of(&sources[2]),
        vec![
            Position::new(202, 500, 0),
            Position::new(201, 500, 0),
            Position::new(200, 500, 0),
        ]
    );
}

#[test]
fn two_sources_of_one_route_get_independent_copies() {
    let mut waypoints = vec![waypoint(4, 0, 1, 1), waypoint(4, 1, 2, 2)];
    let mut sources = vec![source(4), source(4)];
    init_nav_routes(&mut waypoints, &mut sources);
    assert_eq!(route_of(&sources[0]), route_of(&sources[1]));
    match &mut sources[0].route {
        Some(nav_route) => {
            nav_route.route.pop();
        }
        None => panic!("the source has no route"),
    }
    assert_eq!(route_of(&sources[0]).len(), 1);
    assert_eq!(route_of(&sources[1]).len(), 2);
}

#[test]
fn source_without_waypoints_is_reported_and_gets_no_route() {
    let mut waypoints = vec![waypoint(1, 0, 0, 0), waypoint(1, 1, 10, 0)];
    let mut sources = vec![source(7), source(1), source(9)];
    let missing = init_nav_routes(&mut waypoints, &mut sources);
    assert_eq!(missing, vec![7, 9]);
    assert_eq!(sources[0].route, None);
    assert!(sources[0].disabled);
    assert!(sources[1].route.is_some());
    assert!(!sources[1].disabled);
    assert_eq!(sources[2].route, None);
    assert!(sources[2].disabled);
}

#[test]
fn no_waypoints_at_all() {
    let mut waypoints: Vec<Waypoint> = Vec::new();
    let mut sources = vec![source(1)];
    let missing = init_nav_routes(&mut waypoints, &mut sources);
    assert_eq!(missing, vec![1]);
    assert_eq!(sources[0].route, None);
    assert!(sources[0].disabled);
    let mut none: Vec<SpawnSource> = Vec::new();
    assert!(init_nav_routes(&mut waypoints, &mut none).is_empty());
}

#[test]
fn every_waypoint_is_marked() {
    let mut waypoints = vec![waypoint(1, 0, 0, 0), waypoint(5, 1, 10, 0)];
    let mut sources = vec![source(1)];
    init_nav_routes(&mut waypoints, &mut sources);
    assert!(waypoints.iter().all(|waypoint| waypoint.initiated));
    assert_eq!(waypoints[0].position, Position::new(0, 500, 0));
    assert_eq!(waypoints[1].id, 1);
    assert_eq!(waypoints[1].spawn_id, 5);
}

#[test]
fn building_twice_changes_nothing() {
    let mut waypoints = vec![waypoint(1, 1, 10, 0), waypoint(1, 0, 0, 0), waypoint(2, 0, 5, 5)];
    let mut sources = vec![source(1), source(3), source(2)];
    let first_missing = init_nav_routes(&mut waypoints, &mut sources);
    let waypoints_after_first = waypoints.clone();
    let sources_after_first = sources.clone();
    let second_missing = init_nav_routes(&mut waypoints, &mut sources);
    assert_eq!(first_missing, vec![3]);
    assert_eq!(second_missing, first_missing);
    assert_eq!(waypoints, waypoints_after_first);
    assert_eq!(sources, sources_after_first);
    assert_eq!(sources[0].spawn_point.num_spawned, 0);
}

#[test]
fn marked_waypoints_are_not_used_again() {
    let mut waypoints = vec![
        Waypoint { id: 0, spawn_id: 1, position: Position::new(1, 1, 1), initiated: true },
        waypoint(1, 1, 10, 0),
    ];
    let mut sources = vec![source(1)];
    init_nav_routes(&mut waypoints, &mut sources);
    assert_eq!(route_of(&sources[0]), vec![Position::new(10, 500, 0)]);
}

#[test]
fn source_that_has_a_route_keeps_it() {
    let mut waypoints = vec![waypoint(1, 0, 0, 0), waypoint(1, 1, 10, 0)];
    let mut routed = source(1);
    routed.route = Some(NavRoute::new(vec![Position::new(9, 9, 9)]));
    let mut sources = vec![routed];
    let missing = init_nav_routes(&mut waypoints, &mut sources);
    assert!(missing.is_empty());
    assert_eq!(route_of(&sources[0]), vec![Position::new(9, 9, 9)]);
}

#[test]
fn late_waypoints_change_no_source_that_was_dealt_with() {
    let mut waypoints = vec![waypoint(1, 0, 0, 0)];
    let mut sources = vec![source(1), source(2)];
    assert_eq!(init_nav_routes(&mut waypoints, &mut sources), vec![2]);
    let after_first = sources.clone();
    waypoints.push(waypoint(1, 1, 10, 0));
    waypoints.push(waypoint(2, 0, 20, 0));
    sources.push(source(2));
    assert_eq!(init_nav_routes(&mut waypoints, &mut sources), vec![2]);
    assert_eq!(sources[0], after_first[0]);
    assert_eq!(sources[1], after_first[1]);
    assert_eq!(route_of(&sources[0]), vec![Position::new(0, 500, 0)]);
    assert_eq!(route_of(&sources[2]), vec![Position::new(20, 500, 0)]);
    assert!(waypoints.iter().all(|waypoint| waypoint.initiated));
}

#[test]
fn source_that_is_switched_off_gets_no_route() {
    let mut waypoints = vec![waypoint(1, 0, 0, 0)];
    let mut off = source(1);
    off.disabled = true;
    let mut sources = vec![off];
    assert_eq!(init_nav_routes(&mut waypoints, &mut sources), vec![1]);
    assert_eq!(sources[0].route, None);
    assert!(sources[0].disabled);
}

#[test]
fn sort_keeps_the_order_of_equal_sequence_numbers() {
    let points = vec![
        RoutePoint { id: 1, position: Position::new(1, 0, 0) },
        RoutePoint { id: 2, position: Position::new(2, 0, 0) },
        RoutePoint { id: 1, position: Position::new(3, 0, 0) },
        RoutePoint { id: 2, position: Position::new(4, 0, 0) },
        RoutePoint { id: 0, position: Position::new(5, 0, 0) },
    ];
    let sorted = sort_descending(&points);
    assert_eq!(
        project_positions(&sorted),
        vec![
            Position::new(2, 0, 0),
            Position::new(4, 0, 0),
            Position::new(1, 0, 0),
            Position::new(3, 0, 0),
            Position::new(5, 0, 0),
        ]
    );
    assert_eq!(points.len(), 5);
}

#[test]
fn sort_of_nothing_and_of_one_point() {
    let nothing: Vec<RoutePoint> = Vec::new();
    assert!(sort_descending(&nothing).is_empty());
    let one = vec![RoutePoint { id: 9, position: Position::new(1, 2, 3) }];
    assert_eq!(sort_descending(&one), one);
}

#[test]
fn sort_handles_the_extreme_sequence_numbers() {
    let points = vec![
        RoutePoint { id: 0, position: Position::new(0, 0, 0) },
        RoutePoint { id: u32::MAX, position: Position::new(1, 0, 0) },
        RoutePoint { id: 5, position: Position::new(2, 0, 0) },
    ];
    let sorted = sort_descending(&points);
    assert_eq!(sorted[0].id, u32::MAX);
    assert_eq!(sorted[1].id, 5);
    assert_eq!(sorted[2].id, 0);
}

#[test]
fn duplicate_copies_the_route() {
    let route = NavRoute::new(vec![Position::new(1, 2, 3), Position::new(4, 5, 6)]);
    let mut copy = route.duplicate();
    assert_eq!(copy, route);
    copy.route.pop();
    assert_eq!(route.route.len(), 2);
}
