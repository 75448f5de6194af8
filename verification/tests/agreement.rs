use bevy::math::Vec3;
use bevy::time::{Timer as EngineTimer, TimerMode as EngineTimerMode};
use bevy::utils::{Duration, FloatOrd};
use tower_defense::enemy::EnemyType;
use tower_defense::geometry::{Heading, Position, Vector};
use tower_defense::routes::{init_nav_routes, Waypoint};
use tower_defense::sorting::{sort_descending, RoutePoint};
use tower_defense::spawner::{get_spawn_point_for_enemy_type, SpawnSource};
use tower_defense::timer::{Timer, TimerMode};
use tower_defense::tower::{aim, select_target, Target};

/// A small generator of reproducible numbers.
struct Numbers {
    state: u64,
}

impl Numbers {
    fn next(&mut self) -> u64 {
        self.state = self
            .state
            .wrapping_mul(6364136223846793005)
            .wrapping_add(1442695040888963407);
        self.state >> 33
    }

    fn below(&mut self, bound: u64) -> u64 {
        self.next() % bound
    }

    fn between(&mut self, low: i32, high: i32) -> i32 {
        low + self.below((high - low) as u64) as i32
    }
}

fn world(position: Position) -> Vec3 {
    Vec3::new(
        position.x as f32 / 1000.0,
        position.y as f32 / 1000.0,
        position.z as f32 / 1000.0,
    )
}

#[test]
fn timer_ticks_as_the_engine_timer_does() {
    let mut numbers = Numbers { state: 7 };
    let mut round = 0;
    while round < 200 {
        let duration = 1 + numbers.below(5_000_000_000);
        let repeating = numbers.below(2) == 0;
        let mut timer = Timer::new(
            duration,
            if repeating { TimerMode::Repeating } else { TimerMode::Once },
        );
        let mut engine_timer = EngineTimer::new(
            Duration::from_nanos(duration),
            if repeating { EngineTimerMode::Repeating } else { EngineTimerMode::Once },
        );
        let mut tick = 0;
        while tick < 40 {
            let delta = match numbers.below(4) {
                0 => 0,
                1 => numbers.below(duration),
                2 => duration,
                _ => numbers.below(4 * duration),
            };
            timer.tick(delta);
            engine_timer.tick(Duration::from_nanos(delta));
            assert_eq!(timer.elapsed as u128, engine_timer.elapsed().as_nanos());
            assert_eq!(timer.finished(), engine_timer.finished());
            assert_eq!(timer.just_finished(), engine_timer.just_finished());
            tick += 1;
        }
        round += 1;
    }
}

#[test]
fn sort_agrees_with_the_stable_sort_of_the_standard_library() {
    let mut numbers = Numbers { state: 11 };
    let mut round = 0;
    while round < 200 {
        let count = numbers.below(30);
        let mut points: Vec<RoutePoint> = Vec::new();
        let mut index = 0;
        while index < count {
            points.push(RoutePoint {
                id: numbers.below(8) as u32,
                position: Position::new(index as i32, round, 0),
            });
            index += 1;
        }
        let mut expected = points.clone();
        expected.sort_by(|a, b| b.id.cmp(&a.id));
        assert_eq!(sort_descending(&points), expected);
        round += 1;
    }
}

#[test]
fn routes_agree_with_grouping_and_sorting_by_hand() {
    let mut numbers = Numbers { state: 13 };
    let mut round = 0;
    while round < 100 {
        let count = numbers.below(40);
        let mut waypoints: Vec<Waypoint> = Vec::new();
        let mut index = 0;
        while index < count {
            waypoints.push(Waypoint {
                id: numbers.below(10) as u32,
                spawn_id: numbers.below(5) as u32,
                position: Position::new(index as i32, 0, round),
                initiated: numbers.below(5) == 0,
            });
            index += 1;
        }
        let given = waypoints.clone();
        let mut sources: Vec<SpawnSource> = Vec::new();
        let mut id = 0;
        while id < 6 {
            sources.push(SpawnSource::new(
                get_spawn_point_for_enemy_type(id, EnemyType::EnemyBasic),
                Position::new(0, 0, 0),
            ));
            id += 1;
        }
        let missing = init_nav_routes(&mut waypoints, &mut sources);
        let mut expected_missing: Vec<u32> = Vec::new();
        for source in &sources {
            let id = source.spawn_point.id;
            let mut group: Vec<&Waypoint> = given
                .iter()
                .filter(|waypoint| !waypoint.initiated && waypoint.spawn_id == id)
                .collect();
            group.sort_by(|a, b| b.id.cmp(&a.id));
            let expected: Vec<Position> = group.iter().map(|waypoint| waypoint.position).collect();
            match &source.route {
                Some(nav_route) => assert_eq!(nav_route.route, expected),
                None => {
                    assert!(expected.is_empty());
                    expected_missing.push(id);
                }
            }
            assert_eq!(source.disabled, expected.is_empty());
        }
        assert_eq!(missing, expected_missing);
        round += 1;
    }
}

#[test]
fn target_selection_agrees_with_floating_point_distances() {
    let mut numbers = Numbers { state: 17 };
    let muzzle = Vector { x: 0, y: 600, z: 0 };
    let muzzle_point = Vec3::new(0.0, 0.6, 0.0);
    let range = 3000;
    let mut round = 0;
    while round < 200 {
        let count = numbers.below(12);
        let mut targets: Vec<Target> = Vec::new();
        let mut index = 0;
        while index < count {
            // Whole world units at different distances, so that rounding in
            // the floating-point distance cannot change the order.
            let steps = numbers.between(-5, 6);
            targets.push(Target {
                position: Position::new(steps * 1000, 600, index as i32 * 37),
                forward: Heading { x: 1000, y: 0, z: 0 },
                move_speed: 1200,
            });
            index += 1;
        }
        let expected = targets
            .iter()
            .enumerate()
            .filter(|(_, target)| {
                Vec3::distance(world(target.position), muzzle_point) <= range as f32 / 1000.0
            })
            .min_by_key(|(_, target)| {
                FloatOrd(Vec3::distance(world(target.position), muzzle_point))
            })
            .map(|(index, _)| index);
        assert_eq!(select_target(&targets, &muzzle, range), expected);
        round += 1;
    }
}

#[test]
fn lead_agrees_with_the_floating_point_formula() {
    let mut numbers = Numbers { state: 19 };
    let muzzle = Vector { x: 500, y: 600, z: -250 };
    let muzzle_point = Vec3::new(0.5, 0.6, -0.25);
    let projectile_speed = 2.5;
    let mut round = 0;
    while round < 500 {
        let position = Position::new(
            numbers.between(-3000, 3000),
            numbers.between(0, 1000),
            numbers.between(-3000, 3000),
        );
        let turn = numbers.between(0, 6283) as f32 / 1000.0;
        let forward = Vec3::new(turn.cos(), 0.0, turn.sin());
        let heading = Heading {
            x: (forward.x * 1000.0).round() as i16,
            y: 0,
            z: (forward.z * 1000.0).round() as i16,
        };
        let move_speed = numbers.below(3000) as u32;
        let target = Target { position, forward: heading, move_speed };

        let distance = Vec3::distance(world(position), muzzle_point);
        let time_to_target = distance / projectile_speed;
        let prediction_vector = forward * (move_speed as f32 / 1000.0) * time_to_target;
        let expected = world(position) + prediction_vector - muzzle_point;

        let direction = aim(&muzzle, &target).direction;
        assert!((direction.x as f32 / 1000.0 - expected.x).abs() < 0.01, "{:?}", target);
        assert!((direction.y as f32 / 1000.0 - expected.y).abs() < 0.01, "{:?}", target);
        assert!((direction.z as f32 / 1000.0 - expected.z).abs() < 0.01, "{:?}", target);
        round += 1;
    }
}
