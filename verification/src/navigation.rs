//! Navigation agents: the per-unit state machine that walks a route.

use crate::geometry::{wide_product, Position};
use crate::timer::Timer;
use vstd::prelude::*;

verus! {

/// A unit counts as arrived when it is closer to its destination than this, in
/// thousandths of a world unit.
pub const DESTINATION_TOLERANCE: u32 = 200;

/// Height above a level marker at which units travel, in thousandths of a
/// world unit.
pub const WAYPOINT_HEIGHT: i32 = 500;

/// Displacement from a level marker to the point a unit travels through.
pub open spec fn spec_waypoint_offset() -> Position {
    Position { x: 0, y: WAYPOINT_HEIGHT, z: 0 }
}

/// Displacement from a level marker to the point a unit travels through.
#[verifier::when_used_as_spec(spec_waypoint_offset)]
pub fn waypoint_offset() -> (offset: Position)
    ensures
        offset == spec_waypoint_offset(),
{
    Position { x: 0, y: WAYPOINT_HEIGHT, z: 0 }
}

/// The points a unit travels through, stored so that the next point to visit
/// is the last element.
#[derive(Clone, Debug, PartialEq, Eq)]
pub struct NavRoute {
    pub route: Vec<Position>,
}

/// Where a navigation agent is in its life.
#[derive(Clone, Copy, Debug, PartialEq, Eq, Structural)]
pub enum NavState {
    /// Created without a route; never moves.
    Pending,
    /// Waiting for the start delay to run out.
    Delaying,
    /// Travelling towards `destination`.
    Enabled,
    /// The route is used up; never moves again.
    Finished,
}

/// The movement state of one unit.
#[derive(Clone, Debug, PartialEq, Eq)]
pub struct NavAgent {
    /// Thousandths of a world unit per second.
    pub move_speed: u32,
    /// Thousandths of the turn weight gained per second.
    pub turn_speed: u32,
    /// One-shot timer that holds the unit back after it is created.
    pub delay_timer: Timer,
    /// Points still to visit after `destination`; the next one is the last.
    pub route: Vec<Position>,
    /// The point the unit is heading for; meaningful only while enabled.
    pub destination: Position,
    pub state: NavState,
}

/// The mathematical value of a [`NavAgent`].
pub struct NavAgentView {
    pub move_speed: u32,
    pub turn_speed: u32,
    pub delay_timer: Timer,
    pub route: Seq<Position>,
    pub destination: Position,
    pub state: NavState,
}

/// What an enabled unit does in one tick: it turns towards `destination` with
/// a weight of `turn_speed` times the elapsed time, then moves along its
/// heading by `move_speed` times the elapsed time.
#[derive(Clone, Copy, Debug, PartialEq, Eq, Structural)]
pub struct Steering {
    pub destination: Position,
    pub turn_speed: u32,
    pub move_speed: u32,
}

impl View for NavRoute {
    type V = Seq<Position>;

    open spec fn view(&self) -> Seq<Position> {
        self.route@
    }
}

impl View for NavAgent {
    type V = NavAgentView;

    open spec fn view(&self) -> NavAgentView {
        NavAgentView {
            move_speed: self.move_speed,
            turn_speed: self.turn_speed,
            delay_timer: self.delay_timer,
            route: self.route@,
            destination: self.destination,
            state: self.state,
        }
    }
}

/// `position` is closer to `destination` than the arrival tolerance.
pub open spec fn within_tolerance(position: Position, destination: Position) -> bool {
    position.spec_distance_squared(destination) < DESTINATION_TOLERANCE * DESTINATION_TOLERANCE
}

impl NavAgentView {
    /// A new agent: it waits for its delay if it has somewhere to go.
    pub open spec fn created(
        move_speed: u32,
        turn_speed: u32,
        delay_timer: Timer,
        route: Seq<Position>,
    ) -> NavAgentView {
        NavAgentView {
            move_speed,
            turn_speed,
            delay_timer,
            route,
            destination: Position { x: 0, y: 0, z: 0 },
            state: if route.len() == 0 {
                NavState::Pending
            } else {
                NavState::Delaying
            },
        }
    }

    /// The agent with the last point of its route made its destination.
    pub open spec fn departed(self) -> NavAgentView {
        NavAgentView {
            destination: self.route.last(),
            route: self.route.drop_last(),
            state: NavState::Enabled,
            ..self
        }
    }

    /// The agent after `delta` nanoseconds of its start delay.
    ///
    /// Only a delaying agent is affected. When its delay runs out it leaves
    /// for the last point of its route; should the route be empty it falls
    /// back to pending.
    pub open spec fn delayed(self, delta: u64) -> NavAgentView {
        if self.state == NavState::Delaying {
            let waited = NavAgentView { delay_timer: self.delay_timer.ticked(delta), ..self };
            if !waited.delay_timer.just_finished {
                waited
            } else if waited.route.len() > 0 {
                waited.departed()
            } else {
                NavAgentView { state: NavState::Pending, ..waited }
            }
        } else {
            self
        }
    }

    /// The agent after it has looked at where its unit stands.
    ///
    /// Only an enabled agent within tolerance of its destination is affected:
    /// it leaves for the next point, or finishes when none is left.
    pub open spec fn refreshed(self, position: Position) -> NavAgentView {
        if self.state == NavState::Enabled && within_tolerance(position, self.destination) {
            if self.route.len() > 0 {
                self.departed()
            } else {
                NavAgentView { state: NavState::Finished, ..self }
            }
        } else {
            self
        }
    }

    /// How the unit moves this tick, if it moves.
    pub open spec fn steering(self) -> Option<Steering> {
        if self.state == NavState::Enabled {
            Some(
                Steering {
                    destination: self.destination,
                    turn_speed: self.turn_speed,
                    move_speed: self.move_speed,
                },
            )
        } else {
            None
        }
    }

    /// The agent after one whole tick: an agent that was enabled when the tick
    /// began looks at its position, any other agent waits.
    pub open spec fn stepped(self, delta: u64, position: Position) -> NavAgentView {
        if self.state == NavState::Enabled {
            self.refreshed(position)
        } else {
            self.delayed(delta)
        }
    }

    /// The agent after a run of ticks, given the time step and the unit's
    /// position at each of them.
    pub open spec fn run(self, ticks: Seq<(u64, Position)>) -> NavAgentView
        decreases ticks.len(),
    {
        if ticks.len() == 0 {
            self
        } else {
            self.run(ticks.drop_last()).stepped(ticks.last().0, ticks.last().1)
        }
    }
}

impl Steering {
    /// How far the unit moves along its heading in a tick of `delta`
    /// nanoseconds: speed times time, in thousandths of a world unit times
    /// nanoseconds.
    pub open spec fn spec_advance(self, delta: u64) -> int {
        self.move_speed * delta
    }

    /// The weight with which the unit turns towards its destination in a tick
    /// of `delta` nanoseconds: turn speed times time, in thousandths times
    /// nanoseconds.
    pub open spec fn spec_turn_weight(self, delta: u64) -> int {
        self.turn_speed * delta
    }

    /// How far the unit moves along its heading in a tick of `delta`
    /// nanoseconds, in thousandths of a world unit times nanoseconds.
    pub fn advance(&self, delta: u64) -> (length: u128)
        ensures
            length == self.spec_advance(delta),
    {
        wide_product(self.move_speed as u64, delta)
    }

    /// The weight with which the unit turns towards its destination in a tick
    /// of `delta` nanoseconds, in thousandths times nanoseconds.
    pub fn turn_weight(&self, delta: u64) -> (weight: u128)
        ensures
            weight == self.spec_turn_weight(delta),
    {
        wide_product(self.turn_speed as u64, delta)
    }
}

impl NavRoute {
    /// A route over the given points.
    pub fn new(route: Vec<Position>) -> (nav_route: NavRoute)
        ensures
            nav_route@ == route@,
    {
        NavRoute { route }
    }

    /// An independent copy of the route.
    pub fn duplicate(&self) -> (copy: NavRoute)
        ensures
            copy@ == self@,
    {
        NavRoute { route: copy_positions(&self.route) }
    }
}

/// An independent copy of a list of positions.
pub fn copy_positions(positions: &Vec<Position>) -> (copy: Vec<Position>)
    ensures
        copy@ == positions@,
{
    let mut copy: Vec<Position> = Vec::new();
    let mut index: usize = 0;
    while index < positions.len()
        invariant
            index <= positions.len(),
            copy@ == positions@.take(index as int),
        decreases positions.len() - index,
    {
        copy.push(positions[index]);
        index += 1;
    }
    copy
}

impl NavAgent {
    /// A new agent for a unit that is to travel `route`, last point first,
    /// once `delay_timer` has run out.
    pub fn new(
        move_speed: u32,
        turn_speed: u32,
        delay_timer: Timer,
        route: Vec<Position>,
    ) -> (agent: NavAgent)
        ensures
            agent@ == NavAgentView::created(move_speed, turn_speed, delay_timer, route@),
    {
        let state = if route.len() == 0 {
            NavState::Pending
        } else {
            NavState::Delaying
        };
        NavAgent {
            move_speed,
            turn_speed,
            delay_timer,
            route,
            destination: Position { x: 0, y: 0, z: 0 },
            state,
        }
    }

    /// Lets `delta` nanoseconds of the start delay pass.
    pub fn delay(&mut self, delta: u64)
        ensures
            final(self)@ == old(self)@.delayed(delta),
    {
        if self.state == NavState::Delaying {
            self.delay_timer.tick(delta);
            if self.delay_timer.just_finished() {
                match self.route.pop() {
                    Some(destination) => {
                        self.destination = destination;
                        self.state = NavState::Enabled;
                    },
                    None => {
                        self.state = NavState::Pending;
                    },
                }
            }
        }
    }

    /// Picks the next destination once the unit, standing at `position`, has
    /// arrived at the current one.
    pub fn refresh_destination(&mut self, position: &Position)
        ensures
            final(self)@ == old(self)@.refreshed(*position),
    {
        if self.state == NavState::Enabled {
            let tolerance: u128 = DESTINATION_TOLERANCE as u128 * DESTINATION_TOLERANCE as u128;
            if position.distance_squared(&self.destination) < tolerance {
                match self.route.pop() {
                    Some(destination) => {
                        self.destination = destination;
                    },
                    None => {
                        self.state = NavState::Finished;
                    },
                }
            }
        }
    }

    /// How the unit moves this tick, if it moves.
    pub fn steering(&self) -> (motion: Option<Steering>)
        ensures
            motion == self@.steering(),
    {
        if self.state == NavState::Enabled {
            Some(
                Steering {
                    destination: self.destination,
                    turn_speed: self.turn_speed,
                    move_speed: self.move_speed,
                },
            )
        } else {
            None
        }
    }

    /// Runs one whole tick for a unit standing at `position` and says how the
    /// unit moves in it.
    pub fn step(&mut self, delta: u64, position: &Position) -> (motion: Option<Steering>)
        ensures
            final(self)@ == old(self)@.stepped(delta, *position),
            motion == final(self)@.steering(),
    {
        if self.state == NavState::Enabled {
            self.refresh_destination(position);
        } else {
            self.delay(delta);
        }
        self.steering()
    }
}

/// An agent without a route stays pending, with nothing else about it
/// changed, and its unit never moves, whatever ticks it is given.
pub proof fn lemma_empty_route_never_moves(
    move_speed: u32,
    turn_speed: u32,
    delay_timer: Timer,
    ticks: Seq<(u64, Position)>,
)
    ensures
        NavAgentView::created(move_speed, turn_speed, delay_timer, Seq::empty()).run(ticks)
            == NavAgentView::created(move_speed, turn_speed, delay_timer, Seq::empty()),
        NavAgentView::created(move_speed, turn_speed, delay_timer, Seq::empty()).run(
            ticks,
        ).state == NavState::Pending,
        NavAgentView::created(move_speed, turn_speed, delay_timer, Seq::empty()).run(
            ticks,
        ).steering().is_none(),
    decreases ticks.len(),
{
    if ticks.len() > 0 {
        lemma_empty_route_never_moves(move_speed, turn_speed, delay_timer, ticks.drop_last());
    }
}

/// A finished agent stays finished, with nothing else about it changed, and
/// its unit never moves again.
pub proof fn lemma_finished_is_terminal(agent: NavAgentView, ticks: Seq<(u64, Position)>)
    requires
        agent.state == NavState::Finished,
    ensures
        agent.run(ticks) == agent,
        agent.run(ticks).steering().is_none(),
    decreases ticks.len(),
{
    if ticks.len() > 0 {
        lemma_finished_is_terminal(agent, ticks.drop_last());
    }
}

/// A unit moves in a tick only if its agent is enabled after it, and an agent
/// becomes enabled only from a delay that ran out with a point to go to.
pub proof fn lemma_moves_only_when_enabled(agent: NavAgentView, delta: u64, position: Position)
    ensures
        agent.stepped(delta, position).steering().is_some() <==> agent.stepped(
            delta,
            position,
        ).state == NavState::Enabled,
        agent.state != NavState::Enabled && agent.stepped(delta, position).state
            == NavState::Enabled ==> agent.state == NavState::Delaying
            && agent.delay_timer.completes(delta) && agent.route.len() > 0,
{
}

/// `now` is a stage of walking `route` from its end: the points still to
/// visit are a beginning of `route`, an enabled agent heads for the point
/// that follows them, a delaying agent has visited nothing, and a finished
/// agent has visited everything.
pub open spec fn is_stage_of(route: Seq<Position>, now: NavAgentView) -> bool {
    &&& now.route.len() <= route.len()
    &&& now.route == route.take(now.route.len() as int)
    &&& match now.state {
        NavState::Pending => route.len() == 0,
        NavState::Delaying => now.route.len() == route.len() && route.len() > 0,
        NavState::Enabled => now.route.len() < route.len() && now.destination
            == route[now.route.len() as int],
        NavState::Finished => now.route.len() == 0 && route.len() > 0,
    }
}

/// An agent walks its route from the end, one point after the other and each
/// point once: whatever ticks it is given, it is at a stage of walking the
/// route it was created with, and its speeds are the ones it was created
/// with.
pub proof fn lemma_route_is_walked_from_its_end(
    move_speed: u32,
    turn_speed: u32,
    delay_timer: Timer,
    route: Seq<Position>,
    ticks: Seq<(u64, Position)>,
)
    ensures
        is_stage_of(
            route,
            NavAgentView::created(move_speed, turn_speed, delay_timer, route).run(ticks),
        ),
        NavAgentView::created(move_speed, turn_speed, delay_timer, route).run(ticks).move_speed
            == move_speed,
        NavAgentView::created(move_speed, turn_speed, delay_timer, route).run(ticks).turn_speed
            == turn_speed,
    decreases ticks.len(),
{
    let created = NavAgentView::created(move_speed, turn_speed, delay_timer, route);
    if ticks.len() == 0 {
        assert(route.take(route.len() as int) == route);
    } else {
        lemma_route_is_walked_from_its_end(
            move_speed,
            turn_speed,
            delay_timer,
            route,
            ticks.drop_last(),
        );
        let before = created.run(ticks.drop_last());
        let after = created.run(ticks);
        if after.route != before.route {
            assert(after.route == before.route.drop_last());
            assert(after.route == route.take(after.route.len() as int));
        }
    }
}

} // verus!
