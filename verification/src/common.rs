//! State shared by several kinds of entity: hit points and limited lifetimes.

use crate::timer::Timer;
use vstd::prelude::*;

verus! {

/// Hit points of a unit. The unit is dead once they are zero or less.
#[derive(Clone, Copy, Debug, PartialEq, Eq, Structural)]
pub struct Health {
    pub value: i32,
}

/// How long an entity has left before it is removed.
#[derive(Clone, Copy, Debug, PartialEq, Eq, Structural)]
pub struct Lifetime {
    pub timer: Timer,
}

impl Health {
    /// The hit points left after a hit of `damage`, held within the range of
    /// the counter.
    pub open spec fn spec_after_hit(self, damage: i32) -> Health {
        let left = self.value - damage;
        Health {
            value: if left < i32::MIN {
                i32::MIN
            } else if left > i32::MAX {
                i32::MAX
            } else {
                left as i32
            },
        }
    }

    /// The unit has no hit points left.
    pub open spec fn spec_is_dead(&self) -> bool {
        self.value <= 0
    }

    /// Takes `damage` hit points away.
    pub fn hit(&mut self, damage: i32)
        ensures
            *final(self) == old(self).spec_after_hit(damage),
    {
        let left: i64 = self.value as i64 - damage as i64;
        if left < i32::MIN as i64 {
            self.value = i32::MIN;
        } else if left > i32::MAX as i64 {
            self.value = i32::MAX;
        } else {
            self.value = left as i32;
        }
    }

    /// Whether the unit has no hit points left and is to be removed.
    #[verifier::when_used_as_spec(spec_is_dead)]
    pub fn is_dead(&self) -> (dead: bool)
        ensures
            dead == self.spec_is_dead(),
    {
        self.value <= 0
    }
}

impl Lifetime {
    /// A lifetime of `millis` milliseconds.
    pub fn from_millis(millis: u32) -> (lifetime: Lifetime)
        ensures
            lifetime.timer == Timer::spec_new(
                (millis * crate::timer::NANOS_PER_MILLI) as u64,
                crate::timer::TimerMode::Once,
            ),
    {
        Lifetime { timer: Timer::from_millis(millis, crate::timer::TimerMode::Once) }
    }

    /// Lets `delta` nanoseconds pass and says whether the entity is to be
    /// removed now: true on the tick on which the lifetime runs out.
    pub fn tick(&mut self, delta: u64) -> (expired: bool)
        ensures
            final(self).timer == old(self).timer.ticked(delta),
            expired == old(self).timer.completes(delta),
    {
        self.timer.tick(delta);
        self.timer.just_finished()
    }
}

} // verus!
