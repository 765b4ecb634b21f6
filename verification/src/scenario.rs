//! The run's objective: survive to a target day with enough technology.
use vstd::prelude::*;

verus! {

#[derive(Clone, Copy, Debug, PartialEq, Eq, Structural)]
pub enum ScenarioOutcome {
    InProgress,
    Victory,
    Failure,
}

#[derive(Clone, Copy, Debug, PartialEq, Eq, Structural)]
pub struct ScenarioState {
    pub target_day: u32,
    pub required_tech_unlocks: usize,
    pub outcome: ScenarioOutcome,
    pub outcome_tick: Option<u64>,
}

impl ScenarioState {
    /// The state a new colony starts with.
    pub open spec fn spec_default() -> ScenarioState {
        ScenarioState { target_day: 7, required_tech_unlocks: 3, outcome: ScenarioOutcome::InProgress, outcome_tick: None }
    }

    pub fn default() -> (s: ScenarioState)
        ensures
            s == ScenarioState::spec_default(),
            s.target_day == 7,
            s.required_tech_unlocks == 3,
            s.outcome == ScenarioOutcome::InProgress,
            s.outcome_tick is None,
    {
        ScenarioState { target_day: 7, required_tech_unlocks: 3, outcome: ScenarioOutcome::InProgress, outcome_tick: None }
    }

    pub fn is_finished(&self) -> (r: bool)
        ensures
            r == (self.outcome != ScenarioOutcome::InProgress),
    {
        match self.outcome {
            ScenarioOutcome::InProgress => false,
            _ => true,
        }
    }
}

} // verus!
