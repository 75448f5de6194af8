//! Towers: target selection and lead prediction.

use crate::geometry::{
    integer_sqrt, integer_sqrt_of, lemma_square_monotone, quotient_toward_zero, wide_product,
    Heading, Position, Vector, UNITS_PER_WORLD_UNIT,
};
use crate::projectile::Projectile;
use crate::timer::{Timer, TimerMode};
use vstd::prelude::*;

verus! {

/// Speed of every projectile, in thousandths of a world unit per second.
pub const PROJECTILE_SPEED: u32 = 2500;

/// Hit points that a projectile takes off the unit it hits.
pub const PROJECTILE_DAMAGE: i32 = 1;

/// Time between two shots of a tower, in milliseconds.
pub const SHOOTING_PERIOD_MILLIS: u32 = 2000;

/// Height above a tower's base at which its projectiles appear, in
/// thousandths of a world unit.
pub const PROJECTILE_HEIGHT: i32 = 600;

/// Range of a tower, in thousandths of a world unit.
pub const TOWER_RANGE: u32 = 3000;

/// The kinds of tower.
#[derive(Clone, Copy, Debug, PartialEq, Eq, Structural)]
pub enum TowerType {
    Cannon,
    Catapult,
    Blaster,
}

/// The firing state of one tower.
#[derive(Clone, Copy, Debug, PartialEq, Eq, Structural)]
pub struct Tower {
    /// Repeating timer; the tower looks for a target each time it completes a
    /// period.
    pub shooting_timer: Timer,
    /// From the tower's position to the point where its projectiles appear.
    pub projectile_offset: Position,
    /// Thousandths of a world unit, measured from where projectiles appear.
    pub range: u32,
}

/// What a tower sees of a hostile unit.
#[derive(Clone, Copy, Debug, PartialEq, Eq, Structural)]
pub struct Target {
    pub position: Position,
    /// The direction the unit moves in.
    pub forward: Heading,
    /// Thousandths of a world unit per second.
    pub move_speed: u32,
}

impl Default for TowerType {
    fn default() -> (kind: TowerType)
        ensures
            kind == TowerType::Cannon,
    {
        TowerType::Cannon
    }
}

/// The square of the distance from `muzzle` to the unit.
pub open spec fn target_distance_squared(muzzle: Vector, target: Target) -> int {
    target.position.spec_to_vector().spec_distance_squared(muzzle)
}

/// The unit is no farther from `muzzle` than `range`.
pub open spec fn in_range(muzzle: Vector, range: u32, target: Target) -> bool {
    target_distance_squared(muzzle, target) <= range * range
}

/// The unit at index `chosen` is in range, no unit in range is nearer, and
/// every unit in range that is just as near comes later in the list.
pub open spec fn is_closest_in_range(
    targets: Seq<Target>,
    muzzle: Vector,
    range: u32,
    chosen: int,
) -> bool {
    &&& 0 <= chosen < targets.len()
    &&& in_range(muzzle, range, targets[chosen])
    &&& forall|other: int|
        0 <= other < targets.len() && in_range(muzzle, range, #[trigger] targets[other])
            ==> target_distance_squared(muzzle, targets[chosen]) <= target_distance_squared(
            muzzle,
            targets[other],
        )
    &&& forall|other: int|
        0 <= other < chosen && in_range(muzzle, range, #[trigger] targets[other])
            ==> target_distance_squared(muzzle, targets[chosen]) < target_distance_squared(
            muzzle,
            targets[other],
        )
}

/// The index of the unit that a tower fires at: the nearest unit in range,
/// and the first of them in the list when several are equally near.
pub open spec fn closest_in_range(targets: Seq<Target>, muzzle: Vector, range: u32) -> Option<int>
    decreases targets.len(),
{
    if targets.len() == 0 {
        None
    } else {
        let earlier = closest_in_range(targets.drop_last(), muzzle, range);
        let last = targets.len() - 1;
        if !in_range(muzzle, range, targets[last]) {
            earlier
        } else {
            match earlier {
                None => Some(last),
                Some(best) => if target_distance_squared(muzzle, targets[last])
                    < target_distance_squared(muzzle, targets[best]) {
                    Some(last)
                } else {
                    Some(best)
                },
            }
        }
    }
}

/// How far the unit gets along one axis while a projectile covers `distance`:
/// heading times speed times the time of flight.
pub open spec fn lead_along(forward: int, move_speed: int, distance: int) -> int {
    quotient_toward_zero(
        forward * move_speed * distance,
        PROJECTILE_SPEED * UNITS_PER_WORLD_UNIT,
    )
}

/// The direction from `muzzle` to the point where the unit will be when a
/// projectile fired now has covered the present distance to it.
pub open spec fn lead_direction(muzzle: Vector, target: Target) -> Vector {
    let distance = integer_sqrt(target_distance_squared(muzzle, target));
    Vector {
        x: (target.position.x + lead_along(
            target.forward.x as int,
            target.move_speed as int,
            distance,
        ) - muzzle.x) as i64,
        y: (target.position.y + lead_along(
            target.forward.y as int,
            target.move_speed as int,
            distance,
        ) - muzzle.y) as i64,
        z: (target.position.z + lead_along(
            target.forward.z as int,
            target.move_speed as int,
            distance,
        ) - muzzle.z) as i64,
    }
}

/// The projectile fired from `muzzle` at the unit.
pub open spec fn projectile_at(muzzle: Vector, target: Target) -> Projectile {
    Projectile {
        direction: lead_direction(muzzle, target),
        speed: PROJECTILE_SPEED,
        damage: PROJECTILE_DAMAGE,
    }
}

impl Tower {
    /// A new tower of the given kind.
    pub open spec fn spec_of_type(tower_type: TowerType) -> Tower {
        Tower {
            shooting_timer: Timer::spec_new(
                (SHOOTING_PERIOD_MILLIS * crate::timer::NANOS_PER_MILLI) as u64,
                TimerMode::Repeating,
            ),
            projectile_offset: Position { x: 0, y: PROJECTILE_HEIGHT, z: 0 },
            range: TOWER_RANGE,
        }
    }

    /// The point where the projectiles of a tower standing at `position`
    /// appear.
    pub open spec fn muzzle(self, position: Position) -> Vector {
        position.spec_offset_by(self.projectile_offset)
    }

    /// The tower after a tick of `delta` nanoseconds.
    pub open spec fn ticked(self, delta: u64) -> Tower {
        Tower { shooting_timer: self.shooting_timer.ticked(delta), ..self }
    }

    /// The projectile, if any, that a tower standing at `position` fires on a
    /// tick of `delta` nanoseconds: none unless the tick completes a period
    /// of the firing timer and a unit is in range; else one aimed ahead of
    /// the nearest unit in range.
    pub open spec fn shot(self, position: Position, targets: Seq<Target>, delta: u64) -> Option<
        Projectile,
    > {
        if !self.shooting_timer.completes(delta) {
            None
        } else {
            match closest_in_range(targets, self.muzzle(position), self.range) {
                Some(chosen) => Some(projectile_at(self.muzzle(position), targets[chosen])),
                None => None,
            }
        }
    }

    /// Lets `delta` nanoseconds pass for a tower standing at `position` and
    /// returns the projectile it fires, if it fires. A period that finds no
    /// unit in range is not made up for later.
    pub fn shoot(&mut self, position: &Position, targets: &Vec<Target>, delta: u64) -> (fired:
        Option<Projectile>)
        ensures
            *final(self) == old(self).ticked(delta),
            fired == old(self).shot(*position, targets@, delta),
    {
        self.shooting_timer.tick(delta);
        if !self.shooting_timer.just_finished() {
            return None;
        }
        let muzzle = position.offset_by(&self.projectile_offset);
        match select_target(targets, &muzzle, self.range) {
            Some(chosen) => Some(aim(&muzzle, &targets[chosen])),
            None => None,
        }
    }
}

/// A new tower of the given kind.
pub fn spawn_tower(tower_type: TowerType) -> (tower: Tower)
    ensures
        tower == Tower::spec_of_type(tower_type),
{
    match tower_type {
        TowerType::Cannon => Tower {
            shooting_timer: Timer::from_millis(SHOOTING_PERIOD_MILLIS, TimerMode::Repeating),
            projectile_offset: Position { x: 0, y: PROJECTILE_HEIGHT, z: 0 },
            range: TOWER_RANGE,
        },
        TowerType::Catapult => Tower {
            shooting_timer: Timer::from_millis(SHOOTING_PERIOD_MILLIS, TimerMode::Repeating),
            projectile_offset: Position { x: 0, y: PROJECTILE_HEIGHT, z: 0 },
            range: TOWER_RANGE,
        },
        TowerType::Blaster => Tower {
            shooting_timer: Timer::from_millis(SHOOTING_PERIOD_MILLIS, TimerMode::Repeating),
            projectile_offset: Position { x: 0, y: PROJECTILE_HEIGHT, z: 0 },
            range: TOWER_RANGE,
        },
    }
}

/// The square of the distance from `muzzle` to the unit.
pub fn distance_squared_to(muzzle: &Vector, target: &Target) -> (d: u128)
    requires
        muzzle.in_world(),
    ensures
        d == target_distance_squared(*muzzle, *target),
        d < 0x10_0000_0000_0000_0000,
{
    let d = target.position.to_vector().distance_squared(muzzle);
    proof {
        let gx = target.position.x - muzzle.x;
        let gy = target.position.y - muzzle.y;
        let gz = target.position.z - muzzle.z;
        assert(gx * gx <= 0x2_0000_0000 * 0x2_0000_0000) by (nonlinear_arith)
            requires
                -0x2_0000_0000 <= gx <= 0x2_0000_0000,
        ;
        assert(gy * gy <= 0x2_0000_0000 * 0x2_0000_0000) by (nonlinear_arith)
            requires
                -0x2_0000_0000 <= gy <= 0x2_0000_0000,
        ;
        assert(gz * gz <= 0x2_0000_0000 * 0x2_0000_0000) by (nonlinear_arith)
            requires
                -0x2_0000_0000 <= gz <= 0x2_0000_0000,
        ;
    }
    d
}

/// The index of the nearest unit within `range` of `muzzle`, the first of
/// them when several are equally near, or `None` when no unit is in range.
pub fn select_target(targets: &Vec<Target>, muzzle: &Vector, range: u32) -> (chosen: Option<usize>)
    requires
        muzzle.in_world(),
    ensures
        chosen is Some <==> closest_in_range(targets@, *muzzle, range) is Some,
        chosen matches Some(index) ==> closest_in_range(targets@, *muzzle, range) == Some(
            index as int,
        ) && is_closest_in_range(targets@, *muzzle, range, index as int),
        chosen is None ==> forall|i: int|
            0 <= i < targets@.len() ==> !in_range(*muzzle, range, #[trigger] targets@[i]),
{
    proof {
        lemma_closest_in_range(targets@, *muzzle, range);
    }
    let reach: u128 = wide_product(range as u64, range as u64);
    let mut best: Option<usize> = None;
    let mut best_distance: u128 = 0;
    let mut index: usize = 0;
    while index < targets.len()
        invariant
            index <= targets.len(),
            muzzle.in_world(),
            reach == range * range,
            best is Some <==> closest_in_range(targets@.take(index as int), *muzzle, range) is Some,
            best matches Some(found) ==> {
                &&& found < index
                &&& closest_in_range(targets@.take(index as int), *muzzle, range) == Some(
                    found as int,
                )
                &&& best_distance == target_distance_squared(*muzzle, targets@[found as int])
            },
        decreases targets.len() - index,
    {
        assert(targets@.take(index as int + 1).drop_last() == targets@.take(index as int));
        let distance = distance_squared_to(muzzle, &targets[index]);
        if distance <= reach {
            match best {
                None => {
                    best = Some(index);
                    best_distance = distance;
                },
                Some(_) => {
                    if distance < best_distance {
                        best = Some(index);
                        best_distance = distance;
                    }
                },
            }
        }
        index += 1;
    }
    assert(targets@.take(targets.len() as int) == targets@);
    best
}

/// How far the unit gets along one axis while a projectile covers `distance`.
fn lead_component(forward: i16, move_speed: u32, distance: u64) -> (lead: i64)
    requires
        distance <= 0x4_0000_0000,
    ensures
        lead == lead_along(forward as int, move_speed as int, distance as int),
        -0x1000_0000_0000_0000 <= lead <= 0x1000_0000_0000_0000,
{
    let reverse: bool = forward < 0;
    let size: u64 = if reverse {
        (-(forward as i32)) as u64
    } else {
        forward as u64
    };
    let scaled: u128 = wide_product(size, move_speed as u64);
    assert(scaled <= 0x8000 * 0xffff_ffff) by (nonlinear_arith)
        requires
            scaled == size * move_speed,
            0 <= size <= 0x8000,
            0 <= move_speed <= 0xffff_ffff,
    ;
    assert(scaled * distance <= 0x8000 * 0xffff_ffff * 0x4_0000_0000) by (nonlinear_arith)
        requires
            0 <= scaled <= 0x8000 * 0xffff_ffff,
            0 <= distance <= 0x4_0000_0000,
    ;
    let travelled: u128 = scaled * distance as u128;
    let divisor: u128 = wide_product(PROJECTILE_SPEED as u64, UNITS_PER_WORLD_UNIT as u64);
    let lead: u128 = travelled / divisor;
    proof {
        let product = forward as int * move_speed as int * distance as int;
        if reverse {
            assert(travelled == -product) by (nonlinear_arith)
                requires
                    travelled == size * move_speed * distance,
                    size == -forward,
                    product == forward * move_speed * distance,
            ;
        } else {
            assert(travelled == product) by (nonlinear_arith)
                requires
                    travelled == size * move_speed * distance,
                    size == forward,
                    product == forward * move_speed * distance,
            ;
        }
    }
    if reverse {
        -(lead as i64)
    } else {
        lead as i64
    }
}

/// The projectile fired from `muzzle` at the unit, aimed at the point where
/// the unit will be when the projectile has covered the present distance.
pub fn aim(muzzle: &Vector, target: &Target) -> (projectile: Projectile)
    requires
        muzzle.in_world(),
    ensures
        projectile == projectile_at(*muzzle, *target),
{
    let distance_squared = distance_squared_to(muzzle, target);
    let distance = integer_sqrt_of(distance_squared);
    proof {
        if distance > 0x4_0000_0000 {
            lemma_square_monotone(0x4_0000_0000, distance as int);
        }
    }
    let lead_x = lead_component(target.forward.x, target.move_speed, distance);
    let lead_y = lead_component(target.forward.y, target.move_speed, distance);
    let lead_z = lead_component(target.forward.z, target.move_speed, distance);
    Projectile {
        direction: Vector {
            x: target.position.x as i64 + lead_x - muzzle.x,
            y: target.position.y as i64 + lead_y - muzzle.y,
            z: target.position.z as i64 + lead_z - muzzle.z,
        },
        speed: PROJECTILE_SPEED,
        damage: PROJECTILE_DAMAGE,
    }
}

/// What [`closest_in_range`] names: when it names an index, the unit there is
/// in range, none in range is nearer, and none before it is as near; when it
/// names none, no unit is in range.
pub proof fn lemma_closest_in_range(targets: Seq<Target>, muzzle: Vector, range: u32)
    ensures
        match closest_in_range(targets, muzzle, range) {
            Some(chosen) => is_closest_in_range(targets, muzzle, range, chosen),
            None => forall|i: int|
                0 <= i < targets.len() ==> !in_range(muzzle, range, #[trigger] targets[i]),
        },
    decreases targets.len(),
{
    if targets.len() > 0 {
        let shorter = targets.drop_last();
        let last = targets.len() - 1;
        lemma_closest_in_range(shorter, muzzle, range);
        assert forall|i: int| 0 <= i < shorter.len() implies #[trigger] shorter[i]
            == targets[i] by {}
        match closest_in_range(targets, muzzle, range) {
            Some(chosen) => {
                assert forall|other: int|
                    0 <= other < targets.len() && in_range(
                        muzzle,
                        range,
                        #[trigger] targets[other],
                    ) implies target_distance_squared(muzzle, targets[chosen])
                    <= target_distance_squared(muzzle, targets[other]) by {
                    if other < last {
                        assert(shorter[other] == targets[other]);
                    }
                }
                assert forall|other: int|
                    0 <= other < chosen && in_range(
                        muzzle,
                        range,
                        #[trigger] targets[other],
                    ) implies target_distance_squared(muzzle, targets[chosen])
                    < target_distance_squared(muzzle, targets[other]) by {
                    assert(shorter[other] == targets[other]);
                }
            },
            None => {
                assert forall|i: int| 0 <= i < targets.len() implies !in_range(
                    muzzle,
                    range,
                    #[trigger] targets[i],
                ) by {
                    if i < last {
                        assert(shorter[i] == targets[i]);
                    }
                }
            },
        }
    }
}

/// A tower fires on a tick exactly when the tick completes a period of its
/// firing timer and some unit is in range.
pub proof fn lemma_fires_exactly_when_in_range(
    tower: Tower,
    position: Position,
    targets: Seq<Target>,
    delta: u64,
)
    ensures
        tower.shot(position, targets, delta) is Some <==> tower.shooting_timer.completes(delta) && (
        exists|i: int|
            0 <= i < targets.len() && in_range(
                tower.muzzle(position),
                tower.range,
                #[trigger] targets[i],
            )),
{
    lemma_closest_in_range(targets, tower.muzzle(position), tower.range);
}

/// With a single unit about, a tower whose firing timer completes a period
/// fires if the unit is no farther than the range, and does not fire if it
/// is farther, by however little.
pub proof fn lemma_lone_unit_decides_by_range(
    tower: Tower,
    position: Position,
    target: Target,
    delta: u64,
)
    requires
        tower.shooting_timer.completes(delta),
    ensures
        target_distance_squared(tower.muzzle(position), target) <= tower.range * tower.range
            ==> tower.shot(position, seq![target], delta) == Some(
            projectile_at(tower.muzzle(position), target),
        ),
        target_distance_squared(tower.muzzle(position), target) > tower.range * tower.range
            ==> tower.shot(position, seq![target], delta) is None,
{
    let targets = seq![target];
    assert(closest_in_range(targets.drop_last(), tower.muzzle(position), tower.range) is None);
}

/// A unit that stands still is aimed at where it stands: the lead is zero on
/// every axis, whatever its heading and its distance.
pub proof fn lemma_no_lead_on_still_unit(muzzle: Vector, target: Target)
    requires
        muzzle.in_world(),
        target.move_speed == 0,
    ensures
        lead_direction(muzzle, target) == (Vector {
            x: (target.position.x - muzzle.x) as i64,
            y: (target.position.y - muzzle.y) as i64,
            z: (target.position.z - muzzle.z) as i64,
        }),
{
    let distance = integer_sqrt(target_distance_squared(muzzle, target));
    assert(target.forward.x as int * 0 * distance == 0) by (nonlinear_arith);
    assert(target.forward.y as int * 0 * distance == 0) by (nonlinear_arith);
    assert(target.forward.z as int * 0 * distance == 0) by (nonlinear_arith);
}

} // verus!
