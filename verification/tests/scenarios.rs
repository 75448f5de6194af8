use tower_defense::enemy::EnemyType;
use tower_defense::geometry::{Heading, Position, Vector};
use tower_defense::navigation::NavState;
use tower_defense::routes::{init_nav_routes, Waypoint};
use tower_defense::spawner::{get_spawn_point_for_enemy_type, spawner, SpawnSource};
use tower_defense::tower::{aim, spawn_tower, Target, TowerType};

const SECOND: u64 = 1_000_000_000;

#[test]
fn two_waypoints_one_source_one_unit() {
    let mut waypoints = vec![
        Waypoint { id: 0, spawn_id: 1, position: Position::new(0, 0, 0), initiated: false },
        Waypoint { id: 1, spawn_id: 1, position: Position::new(5000, 0, 0), initiated: false },
    ];
    let mut spawn_point = get_spawn_point_for_enemy_type(1, EnemyType::EnemyBasic);
    spawn_point.max_spawns = 1;
    let mut sources = vec![SpawnSource::new(spawn_point, Position::new(-1000, 0, 0))];

    let missing = init_nav_routes(&mut waypoints, &mut sources);
    assert!(missing.is_empty());
    match &sources[0].route {
        Some(nav_route) => {
            assert_eq!(nav_route.route, vec![Position::new(5000, 0, 0), Position::new(0, 0, 0)])
        }
        None => panic!("the source has no route"),
    }

    let mut units = spawner(&mut sources, 3 * SECOND);
    assert_eq!(units.len(), 1);
    assert!(spawner(&mut sources, 3 * SECOND).is_empty());
    assert!(spawner(&mut sources, 300 * SECOND).is_empty());

    let unit = &mut units[0];
    assert_eq!(unit.location, Vector { x: -1000, y: 500, z: 0 });
    assert_eq!(unit.look_at, Position::new(0, 0, 0));
    let agent = &mut unit.bundle.nav_agent;
    assert_eq!(agent.state, NavState::Delaying);
    let start = Position::new(-1000, 500, 0);

    assert_eq!(agent.step(SECOND / 4, &start), None);
    let motion = agent.step(SECOND / 4, &start);
    assert_eq!(agent.state, NavState::Enabled);
    assert_eq!(agent.destination, Position::new(0, 0, 0));
    assert!(motion.is_some());

    let motion = agent.step(SECOND / 60, &Position::new(-500, 250, 0));
    assert_eq!(agent.destination, Position::new(0, 0, 0));
    assert!(motion.is_some());

    let motion = agent.step(SECOND / 60, &Position::new(-100, 100, 0));
    assert_eq!(agent.state, NavState::Enabled);
    assert_eq!(agent.destination, Position::new(5000, 0, 0));
    assert!(motion.is_some());

    let motion = agent.step(SECOND / 60, &Position::new(4900, 0, 50));
    assert_eq!(agent.state, NavState::Finished);
    assert_eq!(motion, None);

    let mut tick = 0;
    while tick < 20 {
        assert_eq!(agent.step(SECOND, &Position::new(5000, 0, 0)), None);
        assert_eq!(agent.state, NavState::Finished);
        tick += 1;
    }
}

#[test]
fn still_unit_two_units_away() {
    let muzzle = Vector { x: 0, y: 600, z: 0 };
    let target = Target {
        position: Position::new(0, 600, 2000),
        forward: Heading { x: 707, y: 0, z: 707 },
        move_speed: 0,
    };
    let projectile = aim(&muzzle, &target);
    assert_eq!(projectile.speed, 2500);
    assert_eq!(
        Vector {
            x: muzzle.x + projectile.direction.x,
            y: muzzle.y + projectile.direction.y,
            z: muzzle.z + projectile.direction.z,
        },
        Vector { x: 0, y: 600, z: 2000 }
    );

    let mut tower = spawn_tower(TowerType::Cannon);
    let fired = tower.shoot(&Position::new(0, 0, 0), &vec![target], 2 * SECOND);
    assert_eq!(fired, Some(projectile));
}
