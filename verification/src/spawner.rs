//! Spawn sources: timed generators of hostile units, each bound to one route.

use crate::enemy::{spawn_enemy, EnemySpawn, EnemySpawnView, EnemyType};
use crate::geometry::Position;
use crate::navigation::{waypoint_offset, NavRoute};
use crate::timer::{Timer, TimerMode};
use vstd::prelude::*;

verus! {

/// Time between two units of a spawn point, in milliseconds.
pub const SPAWN_PERIOD_MILLIS: u32 = 3000;

/// Number of units a spawn point produces unless told otherwise.
pub const DEFAULT_MAX_SPAWNS: u32 = 99;

/// The counters of a generator of hostile units.
#[derive(Clone, Copy, Debug, PartialEq, Eq, Structural)]
pub struct SpawnPoint {
    /// Names the route that the units of this spawn point travel.
    pub id: u32,
    pub enemy_type: EnemyType,
    /// Repeating timer; one unit is produced each time it completes a period.
    pub spawn_timer: Timer,
    /// The most units this spawn point ever produces.
    pub max_spawns: u32,
    pub num_spawned: u32,
}

/// A spawn point as it stands in the world: with its place, the route it was
/// given, and whether it has been switched off for good.
#[derive(Clone, Debug, PartialEq, Eq)]
pub struct SpawnSource {
    pub spawn_point: SpawnPoint,
    pub position: Position,
    /// The route of this source, once routes have been built.
    pub route: Option<NavRoute>,
    /// Set when the source is found to have produced all its units.
    pub disabled: bool,
}

/// The mathematical value of a [`SpawnSource`].
pub struct SpawnSourceView {
    pub spawn_point: SpawnPoint,
    pub position: Position,
    pub route: Option<Seq<Position>>,
    pub disabled: bool,
}

impl View for SpawnSource {
    type V = SpawnSourceView;

    open spec fn view(&self) -> SpawnSourceView {
        SpawnSourceView {
            spawn_point: self.spawn_point,
            position: self.position,
            route: match self.route {
                Some(nav_route) => Some(nav_route@),
                None => None,
            },
            disabled: self.disabled,
        }
    }
}

impl SpawnPoint {
    /// A spawn point that has produced nothing yet.
    pub open spec fn spec_for_enemy_type(id: u32, enemy_type: EnemyType) -> SpawnPoint {
        SpawnPoint {
            id,
            enemy_type,
            spawn_timer: Timer::spec_new(
                (SPAWN_PERIOD_MILLIS * crate::timer::NANOS_PER_MILLI) as u64,
                TimerMode::Repeating,
            ),
            max_spawns: DEFAULT_MAX_SPAWNS,
            num_spawned: 0,
        }
    }

    /// The spawn point has produced no more units than it may.
    pub open spec fn within_cap(self) -> bool {
        self.num_spawned <= self.max_spawns
    }

    /// The spawn point has produced all its units.
    pub open spec fn maxed(self) -> bool {
        self.num_spawned >= self.max_spawns
    }

    /// A tick of `delta` nanoseconds makes the spawn point produce a unit.
    pub open spec fn fires(self, delta: u64) -> bool {
        !self.maxed() && self.spawn_timer.completes(delta)
    }

    /// The spawn point after a tick of `delta` nanoseconds: unchanged when it
    /// is maxed, else with its timer ticked and the unit, if any, counted.
    pub open spec fn ticked(self, delta: u64) -> SpawnPoint {
        if self.maxed() {
            self
        } else {
            SpawnPoint {
                spawn_timer: self.spawn_timer.ticked(delta),
                num_spawned: if self.spawn_timer.completes(delta) {
                    (self.num_spawned + 1) as u32
                } else {
                    self.num_spawned
                },
                ..self
            }
        }
    }

    /// Lets `delta` nanoseconds pass and says whether a unit is to be produced
    /// now. At most one unit is produced per tick, however long the tick.
    pub fn tick(&mut self, delta: u64) -> (fired: bool)
        ensures
            *final(self) == old(self).ticked(delta),
            fired == old(self).fires(delta),
            old(self).within_cap() ==> final(self).within_cap(),
    {
        if self.num_spawned >= self.max_spawns {
            return false;
        }
        self.spawn_timer.tick(delta);
        if self.spawn_timer.just_finished() {
            self.num_spawned = self.num_spawned + 1;
            true
        } else {
            false
        }
    }
}

/// The spawn point that the level gives to the marker numbered `id`.
pub fn get_spawn_point_for_enemy_type(id: u32, enemy_type: EnemyType) -> (spawn_point: SpawnPoint)
    ensures
        spawn_point == SpawnPoint::spec_for_enemy_type(id, enemy_type),
        spawn_point.within_cap(),
{
    SpawnPoint {
        id,
        enemy_type,
        spawn_timer: Timer::from_millis(SPAWN_PERIOD_MILLIS, TimerMode::Repeating),
        max_spawns: DEFAULT_MAX_SPAWNS,
        num_spawned: 0,
    }
}

impl SpawnSourceView {
    /// The source takes part in ticks: it is not switched off and has a route
    /// with at least one point.
    pub open spec fn armed(self) -> bool {
        &&& !self.disabled
        &&& self.route matches Some(route)
        &&& route.len() > 0
    }

    /// A tick of `delta` nanoseconds makes the source produce a unit.
    pub open spec fn fires(self, delta: u64) -> bool {
        self.armed() && self.spawn_point.fires(delta)
    }

    /// The source after a tick of `delta` nanoseconds. A source that is not
    /// armed is left alone. A maxed source is switched off before its timer
    /// is touched. Any other source ticks its spawn point.
    pub open spec fn ticked(self, delta: u64) -> SpawnSourceView {
        if !self.armed() {
            self
        } else if self.spawn_point.maxed() {
            SpawnSourceView { disabled: true, ..self }
        } else {
            SpawnSourceView { spawn_point: self.spawn_point.ticked(delta), ..self }
        }
    }

    /// The unit that the source produces when it fires: it appears above the
    /// source at travelling height and owns a copy of the route.
    pub open spec fn unit(self) -> EnemySpawnView {
        EnemySpawnView::created(
            self.position.spec_offset_by(waypoint_offset()),
            self.spawn_point.enemy_type,
            self.route.unwrap(),
        )
    }

    /// The source after a run of ticks of the given lengths.
    pub open spec fn run(self, deltas: Seq<u64>) -> SpawnSourceView
        decreases deltas.len(),
    {
        if deltas.len() == 0 {
            self
        } else {
            self.run(deltas.drop_last()).ticked(deltas.last())
        }
    }

    /// The number of units that the source produces over a run of ticks.
    pub open spec fn units_produced(self, deltas: Seq<u64>) -> nat
        decreases deltas.len(),
    {
        if deltas.len() == 0 {
            0
        } else {
            self.units_produced(deltas.drop_last()) + if self.run(deltas.drop_last()).fires(
                deltas.last(),
            ) {
                1nat
            } else {
                0nat
            }
        }
    }
}

/// The timer after a run of ticks of the given lengths.
pub open spec fn timer_run(timer: Timer, deltas: Seq<u64>) -> Timer
    decreases deltas.len(),
{
    if deltas.len() == 0 {
        timer
    } else {
        timer_run(timer, deltas.drop_last()).ticked(deltas.last())
    }
}

/// The number of ticks, in a run of ticks of the given lengths, on which the
/// timer completes a period.
pub open spec fn periods_completed(timer: Timer, deltas: Seq<u64>) -> nat
    decreases deltas.len(),
{
    if deltas.len() == 0 {
        0
    } else {
        periods_completed(timer, deltas.drop_last()) + if timer_run(
            timer,
            deltas.drop_last(),
        ).completes(deltas.last()) {
            1nat
        } else {
            0nat
        }
    }
}

/// The values of a list of sources.
pub open spec fn source_views(sources: Seq<SpawnSource>) -> Seq<SpawnSourceView> {
    sources.map_values(|source: SpawnSource| source@)
}

/// The values of a list of units to be placed.
pub open spec fn spawn_views(spawns: Seq<EnemySpawn>) -> Seq<EnemySpawnView> {
    spawns.map_values(|spawn: EnemySpawn| spawn@)
}

/// The units that a tick of `delta` nanoseconds makes the sources produce,
/// in the order of the sources.
pub open spec fn units_of_tick(sources: Seq<SpawnSourceView>, delta: u64) -> Seq<EnemySpawnView>
    decreases sources.len(),
{
    if sources.len() == 0 {
        Seq::empty()
    } else if sources.last().fires(delta) {
        units_of_tick(sources.drop_last(), delta).push(sources.last().unit())
    } else {
        units_of_tick(sources.drop_last(), delta)
    }
}

impl SpawnSource {
    /// A source at `position` that has no route yet.
    pub fn new(spawn_point: SpawnPoint, position: Position) -> (source: SpawnSource)
        ensures
            source@ == (SpawnSourceView { spawn_point, position, route: None, disabled: false }),
    {
        SpawnSource { spawn_point, position, route: None, disabled: false }
    }

    /// Whether the source takes part in ticks.
    pub fn armed(&self) -> (armed: bool)
        ensures
            armed == self@.armed(),
    {
        if self.disabled {
            return false;
        }
        match &self.route {
            Some(nav_route) => nav_route.route.len() > 0,
            None => false,
        }
    }

    /// Lets `delta` nanoseconds pass and returns the unit to be placed, if the
    /// source produces one now.
    pub fn tick(&mut self, delta: u64) -> (spawn: Option<EnemySpawn>)
        ensures
            final(self)@ == old(self)@.ticked(delta),
            spawn is Some <==> old(self)@.fires(delta),
            spawn matches Some(unit) ==> unit@ == old(self)@.unit(),
            old(self)@.spawn_point.within_cap() ==> final(self)@.spawn_point.within_cap(),
    {
        if self.disabled {
            return None;
        }
        match &self.route {
            None => None,
            Some(nav_route) => {
                if nav_route.route.len() == 0 {
                    return None;
                }
                if self.spawn_point.num_spawned >= self.spawn_point.max_spawns {
                    self.disabled = true;
                    return None;
                }
                if self.spawn_point.tick(delta) {
                    let offset = waypoint_offset();
                    Some(
                        spawn_enemy(
                            self.position.offset_by(&offset),
                            self.spawn_point.enemy_type,
                            nav_route,
                        ),
                    )
                } else {
                    None
                }
            },
        }
    }
}

/// Runs one tick of `delta` nanoseconds on every source and returns the units
/// to be placed, in the order of the sources. Each source is ticked on its
/// own: one that is maxed or has no route does not hold up the others.
pub fn spawner(sources: &mut Vec<SpawnSource>, delta: u64) -> (spawned: Vec<EnemySpawn>)
    ensures
        final(sources)@.len() == old(sources)@.len(),
        forall|i: int|
            0 <= i < old(sources)@.len() ==> (#[trigger] final(sources)@[i])@ == old(
                sources,
            )@[i]@.ticked(delta),
        spawn_views(spawned@) == units_of_tick(source_views(old(sources)@), delta),
{
    let mut spawned: Vec<EnemySpawn> = Vec::new();
    let mut index: usize = 0;
    let count = sources.len();
    while index < count
        invariant
            index <= count,
            count == sources@.len(),
            sources@.len() == old(sources)@.len(),
            forall|i: int|
                0 <= i < index ==> (#[trigger] sources@[i])@ == old(sources)@[i]@.ticked(delta),
            forall|i: int| index <= i < count ==> (#[trigger] sources@[i])@ == old(sources)@[i]@,
            spawn_views(spawned@) == units_of_tick(
                source_views(old(sources)@).take(index as int),
                delta,
            ),
        decreases count - index,
    {
        let ghost seen = source_views(old(sources)@).take(index as int + 1);
        assert(seen.drop_last() == source_views(old(sources)@).take(index as int));
        match sources[index].tick(delta) {
            Some(spawn) => {
                spawned.push(spawn);
            },
            None => {},
        }
        index += 1;
    }
    assert(source_views(old(sources)@).take(count as int) == source_views(old(sources)@));
    spawned
}

/// While a source stays below its cap, its timer runs as a free timer does,
/// and the source produces a unit on each completed period. From the moment
/// the cap is reached, the count of units stays at the cap.
proof fn lemma_run_follows_timer(source: SpawnSourceView, deltas: Seq<u64>)
    requires
        source.armed(),
        source.spawn_point.num_spawned <= source.spawn_point.max_spawns,
    ensures
        source.run(deltas).position == source.position,
        source.run(deltas).route == source.route,
        source.run(deltas).spawn_point.max_spawns == source.spawn_point.max_spawns,
        source.spawn_point.num_spawned + periods_completed(source.spawn_point.spawn_timer, deltas)
            < source.spawn_point.max_spawns ==> {
            &&& source.run(deltas).armed()
            &&& source.run(deltas).spawn_point.spawn_timer == timer_run(
                source.spawn_point.spawn_timer,
                deltas,
            )
            &&& source.run(deltas).spawn_point.num_spawned == source.spawn_point.num_spawned
                + periods_completed(source.spawn_point.spawn_timer, deltas)
            &&& source.units_produced(deltas) == periods_completed(
                source.spawn_point.spawn_timer,
                deltas,
            )
        },
        source.spawn_point.num_spawned + periods_completed(source.spawn_point.spawn_timer, deltas)
            >= source.spawn_point.max_spawns ==> {
            &&& source.run(deltas).spawn_point.num_spawned == source.spawn_point.max_spawns
            &&& source.units_produced(deltas) == source.spawn_point.max_spawns
                - source.spawn_point.num_spawned
        },
    decreases deltas.len(),
{
    if deltas.len() > 0 {
        lemma_run_follows_timer(source, deltas.drop_last());
    }
}

/// A source with a cap of `max_spawns` produces, over any run of ticks, one
/// unit per completed period of its timer until the cap is reached, and none
/// after that: the number of units is the smaller of the room left under the
/// cap and the number of periods completed.
pub proof fn lemma_units_produced_up_to_cap(source: SpawnSourceView, deltas: Seq<u64>)
    requires
        source.armed(),
        source.spawn_point.num_spawned <= source.spawn_point.max_spawns,
    ensures
        source.units_produced(deltas) == vstd::math::min(
            source.spawn_point.max_spawns - source.spawn_point.num_spawned,
            periods_completed(source.spawn_point.spawn_timer, deltas) as int,
        ),
        source.run(deltas).spawn_point.num_spawned == source.spawn_point.num_spawned
            + source.units_produced(deltas),
        source.run(deltas).spawn_point.num_spawned <= source.spawn_point.max_spawns,
{
    lemma_run_follows_timer(source, deltas);
}

/// A source that has reached its cap produces nothing more, however much time
/// passes.
pub proof fn lemma_maxed_source_is_spent(source: SpawnSourceView, deltas: Seq<u64>)
    requires
        source.spawn_point.maxed(),
    ensures
        source.units_produced(deltas) == 0,
        source.run(deltas).spawn_point == source.spawn_point,
    decreases deltas.len(),
{
    if deltas.len() > 0 {
        lemma_maxed_source_is_spent(source, deltas.drop_last());
    }
}

/// A repeating timer with a positive period completes a period on every tick
/// that is at least one period long.
pub proof fn lemma_long_ticks_all_complete(timer: Timer, deltas: Seq<u64>)
    requires
        timer.mode == TimerMode::Repeating,
        forall|i: int| 0 <= i < deltas.len() ==> #[trigger] deltas[i] >= timer.duration,
    ensures
        periods_completed(timer, deltas) == deltas.len(),
        timer_run(timer, deltas).mode == TimerMode::Repeating,
        timer_run(timer, deltas).duration == timer.duration,
    decreases deltas.len(),
{
    if deltas.len() > 0 {
        lemma_long_ticks_all_complete(timer, deltas.drop_last());
    }
}

/// Over unbounded time a source produces exactly as many units as its cap
/// allows: once its timer has completed at least as many periods as there was
/// room under the cap, the source has produced exactly that many units, and
/// its count stands at the cap.
pub proof fn lemma_cap_is_reached_exactly(source: SpawnSourceView, deltas: Seq<u64>)
    requires
        source.armed(),
        source.spawn_point.num_spawned <= source.spawn_point.max_spawns,
        periods_completed(source.spawn_point.spawn_timer, deltas) >= source.spawn_point.max_spawns
            - source.spawn_point.num_spawned,
    ensures
        source.units_produced(deltas) == source.spawn_point.max_spawns
            - source.spawn_point.num_spawned,
        source.run(deltas).spawn_point.num_spawned == source.spawn_point.max_spawns,
        forall|more: Seq<u64>| #[trigger] source.run(deltas).units_produced(more) == 0,
{
    lemma_run_follows_timer(source, deltas);
    assert forall|more: Seq<u64>| #[trigger] source.run(deltas).units_produced(more) == 0 by {
        lemma_maxed_source_is_spent(source.run(deltas), more);
    }
}

/// A source produces no unit before it has a route: as long as no route is
/// attached, or the attached route is empty, ticks leave the source as it is.
pub proof fn lemma_no_unit_without_route(source: SpawnSourceView, deltas: Seq<u64>)
    requires
        source.route matches Some(route) ==> route.len() == 0,
    ensures
        source.units_produced(deltas) == 0,
        source.run(deltas) == source,
    decreases deltas.len(),
{
    if deltas.len() > 0 {
        lemma_no_unit_without_route(source, deltas.drop_last());
    }
}

} // verus!
