//! The colony-wide priority that the player sets.
use vstd::prelude::*;

verus! {

/// What the colony currently emphasizes.
#[derive(Clone, Copy, Debug, PartialEq, Eq, Structural)]
pub enum ColonyPriority {
    Recovery,
    Stockpile,
    Survey,
}

/// Mission danger after the priority's adjustment: recovery halves the risk,
/// stockpiling leaves it, surveying adds a tenth.
pub open spec fn spec_adjust_danger(p: ColonyPriority, danger: u32) -> u32 {
    match p {
        ColonyPriority::Recovery => danger / 2,
        ColonyPriority::Stockpile => danger,
        ColonyPriority::Survey => (danger + danger / 10) as u32,
    }
}

/// The name the interface shows for a priority.
pub open spec fn spec_priority_label(p: ColonyPriority) -> Seq<char> {
    match p {
        ColonyPriority::Recovery => "Recovery"@,
        ColonyPriority::Stockpile => "Stockpile"@,
        ColonyPriority::Survey => "Survey"@,
    }
}

/// What a priority does, as the log explains it when the priority is set.
pub open spec fn spec_priority_description(p: ColonyPriority) -> Seq<char> {
    match p {
        ColonyPriority::Recovery => "Missions run at half danger; shared meals and habitats mend relationships faster."@,
        ColonyPriority::Stockpile => "Work shifts build trust faster; missions favor salvage and supplies."@,
        ColonyPriority::Survey => "Missions favor research items at a tenth more danger; strained shifts cost more."@,
    }
}

impl ColonyPriority {
    /// What the priority does.
    pub fn description(self) -> (r: &'static str)
        ensures
            r@ == spec_priority_description(self),
    {
        match self {
            ColonyPriority::Recovery => "Missions run at half danger; shared meals and habitats mend relationships faster.",
            ColonyPriority::Stockpile => "Work shifts build trust faster; missions favor salvage and supplies.",
            ColonyPriority::Survey => "Missions favor research items at a tenth more danger; strained shifts cost more.",
        }
    }

    pub fn label(self) -> (r: &'static str)
        ensures
            r@ == spec_priority_label(self),
    {
        proof {
            reveal_strlit("Recovery");
            reveal_strlit("Stockpile");
            reveal_strlit("Survey");
        }
        match self {
            ColonyPriority::Recovery => "Recovery",
            ColonyPriority::Stockpile => "Stockpile",
            ColonyPriority::Survey => "Survey",
        }
    }

    /// Applies this priority's adjustment to a mission danger percentage.
    pub fn adjust_mission_danger(self, danger: u32) -> (r: u32)
        requires
            danger <= 100,
        ensures
            r == spec_adjust_danger(self, danger),
    {
        match self {
            ColonyPriority::Recovery => danger / 2,
            ColonyPriority::Stockpile => danger,
            ColonyPriority::Survey => danger + danger / 10,
        }
    }
}

/// The active colony priority.
#[derive(Clone, Copy, Debug, PartialEq, Eq, Structural)]
pub struct PriorityState {
    pub active: ColonyPriority,
}

impl PriorityState {
    /// The state a new colony starts with.
    pub open spec fn spec_default() -> PriorityState {
        PriorityState { active: ColonyPriority::Stockpile }
    }

    pub fn default() -> (p: PriorityState)
        ensures
            p == PriorityState::spec_default(),
            p.active == ColonyPriority::Stockpile,
    {
        PriorityState { active: ColonyPriority::Stockpile }
    }
}

} // verus!
