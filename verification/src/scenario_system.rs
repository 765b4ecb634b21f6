//! Judging the run: victory on the target day, failure on collapse.
use crate::event_log::LogCategory;
use crate::game_state::GameState;
use crate::resource_system::{logged, need_floor, sizes_ok, spec_daily_need, ResourceSystem};
use crate::resources::{spec_condition_label, ColonyCondition};
use crate::scenario::ScenarioOutcome;
use crate::text::{decimal, push_decimal, push_signed, signed_decimal, text};
use crate::time::{spec_day, TimeSpeed, TimeSystem};
use vstd::prelude::*;
use vstd::string::StringExecFns;

verus! {

/// The colony can claim victory: not critical or collapsed, a day's
/// supplies in store, and enough technologies unlocked.
pub open spec fn spec_meets_victory(s: GameState) -> bool {
    &&& s.resources.condition != ColonyCondition::Collapsed
    &&& s.resources.condition != ColonyCondition::Critical
    &&& s.resources.supplies >= need_floor(spec_daily_need(s))
    &&& s.technology.unlocked@.len() >= s.scenario.required_tech_unlocks
}

pub open spec fn spec_objective_line(s: GameState) -> Seq<char> {
    "Survive to Day "@ + decimal(s.scenario.target_day as nat) + " | Tech "@ + decimal(s.technology.unlocked@.len())
        + "/"@ + decimal(s.scenario.required_tech_unlocks as nat) + " | Supplies "@
        + signed_decimal(s.resources.supplies as int) + "/"@ + signed_decimal(need_floor(spec_daily_need(s)))
        + " | "@ + spec_condition_label(s.resources.condition)
}

/// The run ends with `outcome` at the current tick, time pauses, and the
/// ending is logged.
pub open spec fn finished_with(s0: GameState, s1: GameState, outcome: ScenarioOutcome, title: Seq<char>, detail: Seq<char>) -> bool {
    &&& s1.scenario.outcome == outcome
    &&& s1.scenario.outcome_tick == Some(s0.tick)
    &&& s1.scenario.target_day == s0.scenario.target_day
    &&& s1.scenario.required_tech_unlocks == s0.scenario.required_tech_unlocks
    &&& s1.time.speed == TimeSpeed::Paused
    &&& s1.time.day_length_ticks == s0.time.day_length_ticks
    &&& logged(s0, s1, LogCategory::Colony, title, detail)
    &&& s1.tick == s0.tick
    &&& s1.grid == s0.grid
    &&& s1.colonists == s0.colonists
    &&& s1.social_history == s0.social_history
    &&& s1.resources == s0.resources
    &&& s1.missions == s0.missions
    &&& s1.priority == s0.priority
    &&& s1.technology == s0.technology
    &&& s1.building_system == s0.building_system
}

/// What an evaluation does: a finished run stays as it is; an unfinished
/// one fails once the colony has collapsed, and wins from the target day on
/// when the victory requirements are met.
pub open spec fn evaluated(s0: GameState, s1: GameState) -> bool {
    if s0.scenario.outcome != ScenarioOutcome::InProgress {
        s1 == s0
    } else if s0.resources.condition == ColonyCondition::Collapsed {
        finished_with(s0, s1, ScenarioOutcome::Failure, "Colony failed"@,
            "The settlement collapsed before a stable landing site could form."@)
    } else if spec_day(s0.tick) >= s0.scenario.target_day && spec_meets_victory(s0) {
        finished_with(s0, s1, ScenarioOutcome::Victory, "Stable landing secured"@,
            "The colony survived the first week with enough infrastructure, knowledge, and supplies to continue."@)
    } else {
        s1 == s0
    }
}

/// Victory in plain terms: an unfinished run ends in victory exactly when
/// the target day has come, the colony is neither critical nor collapsed,
/// it holds at least one day's supplies (the need counted as at least one),
/// and research has reached the objective.
pub open spec fn victory_by_case(s0: GameState, s1: GameState) -> bool {
    let need = spec_daily_need(s0);
    let floor = if need > 1 { need } else { 1 };
    s0.scenario.outcome == ScenarioOutcome::InProgress ==> (s1.scenario.outcome == ScenarioOutcome::Victory <==> {
        &&& spec_day(s0.tick) >= s0.scenario.target_day
        &&& s0.resources.condition != ColonyCondition::Collapsed
        &&& s0.resources.condition != ColonyCondition::Critical
        &&& s0.resources.supplies >= floor
        &&& s0.technology.unlocked@.len() >= s0.scenario.required_tech_unlocks
    })
}

/// The outcome in plain terms: a finished run keeps its outcome and the
/// colony is untouched; an unfinished run fails exactly when the colony has
/// collapsed, and an unfinished run that neither fails nor wins leaves the
/// colony as it was.
pub open spec fn outcome_by_case(s0: GameState, s1: GameState) -> bool {
    &&& s0.scenario.outcome != ScenarioOutcome::InProgress ==> s1 == s0
    &&& s0.scenario.outcome == ScenarioOutcome::InProgress ==> (s1.scenario.outcome == ScenarioOutcome::Failure
        <==> s0.resources.condition == ColonyCondition::Collapsed)
    &&& s0.scenario.outcome == ScenarioOutcome::InProgress && s1.scenario.outcome == ScenarioOutcome::InProgress ==> s1 == s0
    &&& s1.scenario.outcome != s0.scenario.outcome ==> s1.time.speed == TimeSpeed::Paused
        && s1.scenario.outcome_tick == Some(s0.tick) && s1.resources == s0.resources
}

/// A run is decided once: a finished run is left alone; an unfinished one
/// fails exactly when its colony has collapsed; any ending pauses time and
/// records the tick, and changes no stockpile.
pub proof fn law_outcome(s0: GameState, s1: GameState)
    requires
        evaluated(s0, s1),
    ensures
        outcome_by_case(s0, s1),
{
}

/// An evaluation declares victory only for a colony that holds at least a
/// day's supplies (the need counted as at least one), is neither critical
/// nor collapsed, has met the research objective, and has reached the
/// target day; a colony meeting all of these on an unfinished run wins.
pub proof fn law_victory_requirements(s0: GameState, s1: GameState)
    requires
        evaluated(s0, s1),
        s0.scenario.outcome == ScenarioOutcome::InProgress,
    ensures
        victory_by_case(s0, s1),
        s1.scenario.outcome == ScenarioOutcome::Victory ==> s0.resources.supplies >= (if spec_daily_need(s0) > 1 {
            spec_daily_need(s0)
        } else {
            1
        }),
{
}

pub struct ScenarioSystem;

impl ScenarioSystem {
    /// Ends an unfinished run: in failure once the colony has collapsed, in
    /// victory from the target day on when the requirements are met.
    pub fn evaluate(state: &mut GameState)
        requires
            sizes_ok(*old(state)),
        ensures
            evaluated(*old(state), *final(state)),
            victory_by_case(*old(state), *final(state)),
            outcome_by_case(*old(state), *final(state)),
    {
        if state.scenario.is_finished() {
            return;
        }
        let (day, _, _) = TimeSystem::get_time_of_day(state.tick);
        if state.resources.condition == ColonyCondition::Collapsed {
            Self::finish(
                state,
                ScenarioOutcome::Failure,
                "Colony failed",
                "The settlement collapsed before a stable landing site could form.",
            );
            return;
        }
        if day >= state.scenario.target_day && Self::meets_victory_requirements(state) {
            Self::finish(
                state,
                ScenarioOutcome::Victory,
                "Stable landing secured",
                "The colony survived the first week with enough infrastructure, knowledge, and supplies to continue.",
            );
        }
    }

    /// Days left until the target day (zero once it is reached).
    pub fn days_remaining(state: &GameState) -> (r: u32)
        ensures
            r == (if state.scenario.target_day > spec_day(state.tick) {
                state.scenario.target_day - spec_day(state.tick)
            } else {
                0
            }),
    {
        let (day, _, _) = TimeSystem::get_time_of_day(state.tick);
        state.scenario.target_day.saturating_sub(day)
    }

    pub fn meets_victory_requirements(state: &GameState) -> (r: bool)
        requires
            sizes_ok(*state),
        ensures
            r == spec_meets_victory(*state),
            r == (state.resources.condition != ColonyCondition::Collapsed
                && state.resources.condition != ColonyCondition::Critical
                && state.resources.supplies >= (if spec_daily_need(*state) > 1 { spec_daily_need(*state) } else { 1 })
                && state.technology.unlocked@.len() >= state.scenario.required_tech_unlocks),
    {
        let need = ResourceSystem::daily_supply_need(state);
        let daily_need: i32 = if need > 1 { need } else { 1 };
        state.resources.condition != ColonyCondition::Collapsed
            && state.resources.condition != ColonyCondition::Critical
            && state.resources.supplies >= daily_need
            && state.technology.unlocked_count() >= state.scenario.required_tech_unlocks
    }

    /// The objective banner: target day, technology, supplies against the
    /// daily need, and the colony condition.
    pub fn objective_line(state: &GameState) -> (r: String)
        requires
            sizes_ok(*state),
        ensures
            r@ == spec_objective_line(*state),
    {
        let need = ResourceSystem::daily_supply_need(state);
        let daily_need: i32 = if need > 1 { need } else { 1 };
        let mut s = String::new();
        s.append("Survive to Day ");
        push_decimal(&mut s, state.scenario.target_day as u64);
        s.append(" | Tech ");
        push_decimal(&mut s, state.technology.unlocked_count() as u64);
        s.append("/");
        push_decimal(&mut s, state.scenario.required_tech_unlocks as u64);
        s.append(" | Supplies ");
        push_signed(&mut s, state.resources.supplies as i64);
        s.append("/");
        push_signed(&mut s, daily_need as i64);
        s.append(" | ");
        s.append(state.resources.condition.label());
        s
    }

    fn finish(state: &mut GameState, outcome: ScenarioOutcome, title: &str, detail: &str)
        ensures
            finished_with(*old(state), *final(state), outcome, title@, detail@),
    {
        state.scenario.outcome = outcome;
        state.scenario.outcome_tick = Some(state.tick);
        state.time.speed = TimeSpeed::Paused;
        state.push_log(LogCategory::Colony, text(title), text(detail));
    }
}

} // verus!
