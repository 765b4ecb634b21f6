//! The whole simulated colony.
use crate::building_system::BuildingSystem;
use crate::colonist::{all_summable, Colonist};
use crate::event_log::{ColonyLogEntry, LogCategory, SocialHistoryEntry};
use crate::grid::Grid;
use crate::mission::MissionState;
use crate::priority::PriorityState;
use crate::resources::ResourceState;
use crate::scenario::ScenarioState;
use crate::technology::TechnologyState;
use crate::time::{spec_day, spec_hour, spec_minute, TimeState, TimeSystem};
use vstd::prelude::*;

verus! {

/// The log keeps at most this many entries, dropping the oldest.
pub const MAX_EVENT_LOG_ENTRIES: usize = 80;

/// The colony: time, map, colonists, buildings, stockpile, missions,
/// research, objective, and the log.
pub struct GameState {
    pub tick: u64,
    pub time: TimeState,
    pub grid: Grid,
    pub colonists: Vec<Colonist>,
    pub event_log: Vec<ColonyLogEntry>,
    pub social_history: Vec<SocialHistoryEntry>,
    pub resources: ResourceState,
    pub missions: MissionState,
    pub priority: PriorityState,
    pub technology: TechnologyState,
    pub scenario: ScenarioState,
    pub building_system: BuildingSystem,
}

/// The log after appending `e` and dropping the oldest entries beyond the cap.
pub open spec fn capped_log(log: Seq<ColonyLogEntry>, e: ColonyLogEntry) -> Seq<ColonyLogEntry> {
    let full = log.push(e);
    if full.len() > 80 {
        full.subrange(full.len() - 80, full.len() as int)
    } else {
        full
    }
}

/// The log after appending each of `entries` in turn under the cap.
pub open spec fn extend_log(log: Seq<ColonyLogEntry>, entries: Seq<ColonyLogEntry>) -> Seq<ColonyLogEntry>
    decreases entries.len(),
{
    if entries.len() == 0 {
        log
    } else {
        capped_log(extend_log(log, entries.drop_last()), entries.last())
    }
}

/// A log entry with this category, title, and detail, stamped at `tick`.
pub open spec fn entry_is(e: ColonyLogEntry, tick: u64, category: LogCategory, title: Seq<char>, detail: Seq<char>) -> bool {
    &&& e.category == category
    &&& e.title@ == title
    &&& e.detail@ == detail
    &&& e.day == spec_day(tick)
    &&& e.hour == spec_hour(tick)
    &&& e.minute == spec_minute(tick)
}

/// Two colonies that differ at most in their logs.
pub open spec fn same_except_log(a: GameState, b: GameState) -> bool {
    &&& b.tick == a.tick
    &&& b.time == a.time
    &&& b.grid == a.grid
    &&& b.colonists == a.colonists
    &&& b.social_history == a.social_history
    &&& b.resources == a.resources
    &&& b.missions == a.missions
    &&& b.priority == a.priority
    &&& b.technology == a.technology
    &&& b.scenario == a.scenario
    &&& b.building_system == a.building_system
}

/// Two colonies that differ at most in their colonists.
pub open spec fn same_except_colonists(a: GameState, b: GameState) -> bool {
    &&& b.tick == a.tick
    &&& b.time == a.time
    &&& b.grid == a.grid
    &&& b.event_log == a.event_log
    &&& b.social_history == a.social_history
    &&& b.resources == a.resources
    &&& b.missions == a.missions
    &&& b.priority == a.priority
    &&& b.technology == a.technology
    &&& b.scenario == a.scenario
    &&& b.building_system == a.building_system
}

impl GameState {
    /// The colony is internally consistent: buildings agree with the grid,
    /// research agrees with the collected items, relationship values can be
    /// averaged, and the log respects its cap.
    pub open spec fn wf(&self) -> bool {
        &&& self.building_system.consistent(&self.grid)
        &&& self.technology.wf()
        &&& all_summable(self.colonists@)
        &&& self.event_log@.len() <= 80
    }

    pub fn new() -> (s: GameState)
        ensures
            s.wf(),
            s.tick == 0,
            s.colonists@.len() == 0,
            s.event_log@.len() == 0,
            s.social_history@.len() == 0,
            s.building_system.placed().len() == 0,
            s.building_system.upcoming_id() == 1,
            s.missions.active_missions@.len() == 0,
            s.missions.next_id == 1,
            s.missions.next_launch_tick == 0,
            s.technology.unlocked@.len() == 0,
            s.resources == ResourceState::spec_default(),
            s.priority == PriorityState::spec_default(),
            s.scenario == ScenarioState::spec_default(),
            s.grid.width == crate::grid::GRID_WIDTH,
            s.grid.height == crate::grid::GRID_HEIGHT,
            forall|x: int, y: int| s.grid.in_bounds(x, y) ==> #[trigger] s.grid.cell(x, y) == crate::grid::empty_cell(),
            s.technology.item_counts@ == seq![0u32, 0u32, 0u32, 0u32, 0u32],
            s.time == (TimeState { speed: crate::time::TimeSpeed::Normal, day_length_ticks: 1440 }),
    {
        let grid = Grid::default();
        let building_system = BuildingSystem::new();
        proof {
            building_system.lemma_new_consistent(&grid);
        }
        GameState {
            tick: 0,
            time: TimeState::default(),
            grid,
            colonists: Vec::new(),
            event_log: Vec::new(),
            social_history: Vec::new(),
            resources: ResourceState::default(),
            missions: MissionState::default(),
            priority: PriorityState::default(),
            technology: TechnologyState::default(),
            scenario: ScenarioState::default(),
            building_system,
        }
    }

    /// Appends a log entry stamped with the current game time, dropping the
    /// oldest entries so that at most 80 remain.
    pub fn push_log(&mut self, category: LogCategory, title: String, detail: String)
        ensures
            final(self).event_log@.len() == if old(self).event_log@.len() + 1 > 80 {
                80
            } else {
                old(self).event_log@.len() + 1
            },
            final(self).event_log@ == capped_log(old(self).event_log@, final(self).event_log@.last()),
            final(self).event_log@.last().day == spec_day(old(self).tick),
            final(self).event_log@.last().hour == spec_hour(old(self).tick),
            final(self).event_log@.last().minute == spec_minute(old(self).tick),
            final(self).event_log@.last().category == category,
            final(self).event_log@.last().title@ == title@,
            final(self).event_log@.last().detail@ == detail@,
            final(self).tick == old(self).tick,
            final(self).time == old(self).time,
            final(self).grid == old(self).grid,
            final(self).colonists == old(self).colonists,
            final(self).social_history == old(self).social_history,
            final(self).resources == old(self).resources,
            final(self).missions == old(self).missions,
            final(self).priority == old(self).priority,
            final(self).technology == old(self).technology,
            final(self).scenario == old(self).scenario,
            final(self).building_system == old(self).building_system,
    {
        let (day, hour, minute) = TimeSystem::get_time_of_day(self.tick);
        let entry = ColonyLogEntry::new(day, hour, minute, category, title, detail);
        let ghost e = entry;
        append_capped(&mut self.event_log, entry);
        assert(self.event_log@.last() == e);
    }
}

/// Appends an entry and drops the oldest ones beyond the cap.
fn append_capped(log: &mut Vec<ColonyLogEntry>, entry: ColonyLogEntry)
    ensures
        final(log)@ == capped_log(old(log)@, entry),
{
    let ghost full = log@.push(entry);
    log.push(entry);
    let n = log.len();
    let mut dropped: usize = 0;
    let ghost extra: int = if full.len() > 80 { full.len() - 80 } else { 0 };
    while log.len() > MAX_EVENT_LOG_ENTRIES
        invariant
            0 <= extra,
            full.len() == n,
            full.len() > 80 ==> extra == full.len() - 80,
            full.len() <= 80 ==> extra == 0,
            dropped <= extra,
            log@ == full.subrange(dropped as int, full.len() as int),
        decreases log@.len(),
    {
        log.remove(0);
        dropped = dropped + 1;
    }
    assert(full.subrange(0, full.len() as int) == full);
}

} // verus!
