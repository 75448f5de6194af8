use tower_defense::geometry::Position;
use tower_defense::navigation::{
    waypoint_offset, NavAgent, NavState, Steering, DESTINATION_TOLERANCE, WAYPOINT_HEIGHT,
};
use tower_defense::timer::{Timer, TimerMode};

const HALF_SECOND: u64 = 500_000_000;

fn agent(route: Vec<Position>) -> NavAgent {
    NavAgent::new(1200, 2400, Timer::from_millis(500, TimerMode::Once), route)
}

#[test]
fn waypoint_offset_is_half_a_unit_up() {
    assert_eq!(WAYPOINT_HEIGHT, 500);
    assert_eq!(waypoint_offset(), Position::new(0, 500, 0));
    assert_eq!(DESTINATION_TOLERANCE, 200);
}

#[test]
fn agent_with_a_route_starts_delaying() {
    let agent = agent(vec![Position::new(1, 0, 0)]);
    assert_eq!(agent.state, NavState::Delaying);
    assert_eq!(agent.move_speed, 1200);
    assert_eq!(agent.turn_speed, 2400);
    assert_eq!(agent.steering(), None);
}

#[test]
fn agent_without_a_route_stays_pending() {
    let mut agent = agent(Vec::new());
    let created = agent.clone();
    assert_eq!(agent.state, NavState::Pending);
    let mut tick = 0;
    while tick < 100 {
        let motion = agent.step(HALF_SECOND, &Position::new(tick, 0, 0));
        assert_eq!(motion, None);
        assert_eq!(agent.state, NavState::Pending);
        tick += 1;
    }
    assert_eq!(agent, created);
}

#[test]
fn agent_leaves_when_the_delay_runs_out() {
    let mut agent = agent(vec![Position::new(5000, 0, 0), Position::new(0, 0, 0)]);
    agent.delay(HALF_SECOND - 1);
    assert_eq!(agent.state, NavState::Delaying);
    assert_eq!(agent.route.len(), 2);
    agent.delay(1);
    assert_eq!(agent.state, NavState::Enabled);
    assert_eq!(agent.destination, Position::new(0, 0, 0));
    assert_eq!(agent.route, vec![Position::new(5000, 0, 0)]);
    assert_eq!(
        agent.steering(),
        Some(Steering { destination: Position::new(0, 0, 0), turn_speed: 2400, move_speed: 1200 })
    );
}

#[test]
fn delay_does_not_touch_an_enabled_agent() {
    let mut agent = agent(vec![Position::new(5000, 0, 0)]);
    agent.delay(HALF_SECOND);
    let enabled = agent.clone();
    agent.delay(10 * HALF_SECOND);
    assert_eq!(agent, enabled);
}

#[test]
fn destination_changes_only_within_tolerance() {
    let mut agent = agent(vec![Position::new(5000, 0, 0), Position::new(0, 0, 0)]);
    agent.delay(HALF_SECOND);
    agent.refresh_destination(&Position::new(200, 0, 0));
    assert_eq!(agent.destination, Position::new(0, 0, 0));
    agent.refresh_destination(&Position::new(0, 0, -200));
    assert_eq!(agent.destination, Position::new(0, 0, 0));
    agent.refresh_destination(&Position::new(141, 141, 0));
    assert_eq!(agent.destination, Position::new(5000, 0, 0));
    assert_eq!(agent.state, NavState::Enabled);
    assert!(agent.route.is_empty());
}

#[test]
fn tolerance_is_measured_in_three_dimensions() {
    let mut agent = agent(vec![Position::new(9, 9, 9), Position::new(0, 0, 0)]);
    agent.delay(HALF_SECOND);
    agent.refresh_destination(&Position::new(120, 120, 120));
    assert_eq!(agent.destination, Position::new(0, 0, 0));
    agent.refresh_destination(&Position::new(115, 115, 115));
    assert_eq!(agent.destination, Position::new(9, 9, 9));
}

#[test]
fn agent_finishes_at_the_end_of_its_route() {
    let mut agent = agent(vec![Position::new(0, 0, 0)]);
    agent.delay(HALF_SECOND);
    agent.refresh_destination(&Position::new(50, 0, 0));
    assert_eq!(agent.state, NavState::Finished);
    assert_eq!(agent.steering(), None);
    let finished = agent.clone();
    let mut tick = 0;
    while tick < 50 {
        assert_eq!(agent.step(HALF_SECOND, &Position::new(0, 0, 0)), None);
        tick += 1;
    }
    assert_eq!(agent, finished);
}

#[test]
fn refresh_does_not_touch_a_delaying_agent() {
    let mut agent = agent(vec![Position::new(0, 0, 0)]);
    let created = agent.clone();
    agent.refresh_destination(&Position::new(0, 0, 0));
    assert_eq!(agent, created);
}

#[test]
fn step_waits_before_it_looks_at_the_position() {
    let mut agent = agent(vec![Position::new(5000, 0, 0), Position::new(0, 0, 0)]);
    let motion = agent.step(HALF_SECOND, &Position::new(0, 0, 0));
    assert_eq!(
        motion,
        Some(Steering { destination: Position::new(0, 0, 0), turn_speed: 2400, move_speed: 1200 })
    );
    assert_eq!(agent.destination, Position::new(0, 0, 0));
    let motion = agent.step(HALF_SECOND, &Position::new(0, 0, 0));
    assert_eq!(
        motion,
        Some(Steering {
            destination: Position::new(5000, 0, 0),
            turn_speed: 2400,
            move_speed: 1200
        })
    );
}

#[test]
fn delaying_agent_whose_route_was_emptied_falls_back_to_pending() {
    let mut agent = agent(vec![Position::new(1, 1, 1)]);
    agent.route.clear();
    agent.delay(HALF_SECOND);
    assert_eq!(agent.state, NavState::Pending);
    assert_eq!(agent.steering(), None);
}

#[test]
fn agent_with_no_speed_is_still_steered() {
    let mut agent = NavAgent::new(
        0,
        0,
        Timer::from_millis(500, TimerMode::Once),
        vec![Position::new(1, 1, 1)],
    );
    agent.delay(HALF_SECOND);
    assert_eq!(
        agent.steering(),
        Some(Steering { destination: Position::new(1, 1, 1), turn_speed: 0, move_speed: 0 })
    );
}

#[test]
fn steering_scales_with_the_length_of_the_tick() {
    let steering =
        Steering { destination: Position::new(0, 0, 0), turn_speed: 2400, move_speed: 1200 };
    assert_eq!(steering.advance(0), 0);
    assert_eq!(steering.turn_weight(0), 0);
    assert_eq!(steering.advance(1_000_000_000), 1_200_000_000_000);
    assert_eq!(steering.turn_weight(1_000_000_000), 2_400_000_000_000);
    assert_eq!(steering.advance(16_666_667), 20_000_000_400);
    assert_eq!(steering.turn_weight(16_666_667), 40_000_000_800);
    let fastest = Steering {
        destination: Position::new(0, 0, 0),
        turn_speed: u32::MAX,
        move_speed: u32::MAX,
    };
    assert_eq!(fastest.advance(u64::MAX), 79_228_162_495_817_593_515_539_431_425);
    assert_eq!(fastest.turn_weight(2), 8_589_934_590);
}
