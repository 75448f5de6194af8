//! What a tower hands over when it fires.

use crate::common::Lifetime;
use crate::geometry::Vector;
use crate::timer::{Timer, TimerMode, NANOS_PER_MILLI};
use vstd::prelude::*;

verus! {

/// How long a projectile stays in the world, in milliseconds.
pub const PROJECTILE_LIFETIME_MILLIS: u32 = 10_000;

/// A fired projectile: where it flies, how fast, and what it takes off the
/// unit it hits.
#[derive(Clone, Copy, Debug, PartialEq, Eq, Structural)]
pub struct Projectile {
    /// From the point of firing towards the aim point; not normalised.
    pub direction: Vector,
    /// Thousandths of a world unit per second.
    pub speed: u32,
    pub damage: i32,
}

/// The lifetime that a projectile starts with.
pub fn projectile_lifetime() -> (lifetime: Lifetime)
    ensures
        lifetime.timer == Timer::spec_new(
            (PROJECTILE_LIFETIME_MILLIS * NANOS_PER_MILLI) as u64,
            TimerMode::Once,
        ),
{
    Lifetime::from_millis(PROJECTILE_LIFETIME_MILLIS)
}

} // verus!
