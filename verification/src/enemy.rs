//! Hostile units: their kinds, their stat blocks and how one is created.

use crate::common::Health;
use crate::geometry::{Position, Vector};
use crate::navigation::{copy_positions, NavAgent, NavAgentView, NavRoute};
use crate::timer::{Timer, TimerMode};
use vstd::prelude::*;

verus! {

/// Start delay of a new unit, in milliseconds.
pub const START_DELAY_MILLIS: u32 = 500;

/// The kinds of hostile unit.
#[derive(Clone, Copy, Debug, PartialEq, Eq, Structural)]
pub enum EnemyType {
    EnemyBasic,
}

/// The state a hostile unit is created with.
#[derive(Clone, Debug, PartialEq, Eq)]
pub struct EnemyBundle {
    pub health: Health,
    pub nav_agent: NavAgent,
    /// Radius of the unit's collision sphere, in thousandths of a world unit.
    pub collider_radius: u32,
}

/// The mathematical value of an [`EnemyBundle`].
pub struct EnemyBundleView {
    pub health: Health,
    pub nav_agent: NavAgentView,
    pub collider_radius: u32,
}

/// A hostile unit to be placed in the world.
#[derive(Clone, Debug, PartialEq, Eq)]
pub struct EnemySpawn {
    /// Where the unit appears.
    pub location: Vector,
    /// The point the unit faces when it appears.
    pub look_at: Position,
    pub enemy_type: EnemyType,
    pub bundle: EnemyBundle,
}

/// The mathematical value of an [`EnemySpawn`].
pub struct EnemySpawnView {
    pub location: Vector,
    pub look_at: Position,
    pub enemy_type: EnemyType,
    pub bundle: EnemyBundleView,
}

impl View for EnemyBundle {
    type V = EnemyBundleView;

    open spec fn view(&self) -> EnemyBundleView {
        EnemyBundleView {
            health: self.health,
            nav_agent: self.nav_agent@,
            collider_radius: self.collider_radius,
        }
    }
}

impl View for EnemySpawn {
    type V = EnemySpawnView;

    open spec fn view(&self) -> EnemySpawnView {
        EnemySpawnView {
            location: self.location,
            look_at: self.look_at,
            enemy_type: self.enemy_type,
            bundle: self.bundle@,
        }
    }
}

impl EnemyType {
    /// Hit points of a new unit of this kind.
    pub open spec fn spec_health(self) -> i32 {
        match self {
            EnemyType::EnemyBasic => 3,
        }
    }

    /// Speed of a unit of this kind, in thousandths of a world unit per second.
    pub open spec fn spec_move_speed(self) -> u32 {
        match self {
            EnemyType::EnemyBasic => 1200,
        }
    }

    /// Turn speed of a unit of this kind, in thousandths per second.
    pub open spec fn spec_turn_speed(self) -> u32 {
        match self {
            EnemyType::EnemyBasic => 2400,
        }
    }

    /// Radius of the collision sphere of a unit of this kind, in thousandths
    /// of a world unit.
    pub open spec fn spec_collider_radius(self) -> u32 {
        match self {
            EnemyType::EnemyBasic => 550,
        }
    }

    /// Hit points of a new unit of this kind.
    #[verifier::when_used_as_spec(spec_health)]
    pub fn health(self) -> (points: i32)
        ensures
            points == self.spec_health(),
    {
        match self {
            EnemyType::EnemyBasic => 3,
        }
    }

    /// Speed of a unit of this kind, in thousandths of a world unit per second.
    #[verifier::when_used_as_spec(spec_move_speed)]
    pub fn move_speed(self) -> (speed: u32)
        ensures
            speed == self.spec_move_speed(),
    {
        match self {
            EnemyType::EnemyBasic => 1200,
        }
    }

    /// Turn speed of a unit of this kind, in thousandths per second.
    #[verifier::when_used_as_spec(spec_turn_speed)]
    pub fn turn_speed(self) -> (speed: u32)
        ensures
            speed == self.spec_turn_speed(),
    {
        match self {
            EnemyType::EnemyBasic => 2400,
        }
    }

    /// Radius of the collision sphere of a unit of this kind, in thousandths
    /// of a world unit.
    #[verifier::when_used_as_spec(spec_collider_radius)]
    pub fn collider_radius(self) -> (radius: u32)
        ensures
            radius == self.spec_collider_radius(),
    {
        match self {
            EnemyType::EnemyBasic => 550,
        }
    }
}

impl Default for EnemyType {
    fn default() -> (kind: EnemyType)
        ensures
            kind == EnemyType::EnemyBasic,
    {
        EnemyType::EnemyBasic
    }
}

impl EnemyBundleView {
    /// The state of a new unit with the given stats that is to travel `route`.
    pub open spec fn created(
        health: i32,
        move_speed: u32,
        turn_speed: u32,
        route: Seq<Position>,
        collider_radius: u32,
    ) -> EnemyBundleView {
        EnemyBundleView {
            health: Health { value: health },
            nav_agent: NavAgentView::created(
                move_speed,
                turn_speed,
                Timer::spec_new(
                    (START_DELAY_MILLIS * crate::timer::NANOS_PER_MILLI) as u64,
                    TimerMode::Once,
                ),
                route,
            ),
            collider_radius,
        }
    }
}

impl EnemySpawnView {
    /// A unit of kind `enemy_type` that appears at `location`, faces the first
    /// point it will visit and owns the whole of `route`.
    pub open spec fn created(
        location: Vector,
        enemy_type: EnemyType,
        route: Seq<Position>,
    ) -> EnemySpawnView {
        EnemySpawnView {
            location,
            look_at: route.last(),
            enemy_type,
            bundle: EnemyBundleView::created(
                enemy_type.spec_health(),
                enemy_type.spec_move_speed(),
                enemy_type.spec_turn_speed(),
                route,
                enemy_type.spec_collider_radius(),
            ),
        }
    }
}

impl EnemyBundle {
    /// The state of a new unit with the given stats that is to travel `route`
    /// after the start delay.
    pub fn new(
        health: i32,
        move_speed: u32,
        turn_speed: u32,
        route: Vec<Position>,
        collider_radius: u32,
    ) -> (bundle: EnemyBundle)
        ensures
            bundle@ == EnemyBundleView::created(
                health,
                move_speed,
                turn_speed,
                route@,
                collider_radius,
            ),
    {
        EnemyBundle {
            health: Health { value: health },
            nav_agent: NavAgent::new(
                move_speed,
                turn_speed,
                Timer::from_millis(START_DELAY_MILLIS, TimerMode::Once),
                route,
            ),
            collider_radius,
        }
    }
}

/// Creates a unit of kind `enemy_type` at `location`. The unit faces the first
/// point it will visit and gets a copy of `nav_route` of its own.
pub fn spawn_enemy(location: Vector, enemy_type: EnemyType, nav_route: &NavRoute) -> (spawn:
    EnemySpawn)
    requires
        nav_route@.len() > 0,
    ensures
        spawn@ == EnemySpawnView::created(location, enemy_type, nav_route@),
{
    let look_at = nav_route.route[nav_route.route.len() - 1];
    EnemySpawn {
        location,
        look_at,
        enemy_type,
        bundle: EnemyBundle::new(
            enemy_type.health(),
            enemy_type.move_speed(),
            enemy_type.turn_speed(),
            copy_positions(&nav_route.route),
            enemy_type.collider_radius(),
        ),
    }
}

} // verus!
