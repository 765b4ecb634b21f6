//! Mission items, mission kinds, and the missions currently away.
use crate::priority::ColonyPriority;
use vstd::prelude::*;

verus! {

/// Items that a returning mission can bring back.
#[derive(Clone, Copy, Debug, PartialEq, Eq, Structural)]
pub enum MissionItem {
    StructuralAlloy,
    AlienCircuit,
    MedicinalGel,
    NutrientPods,
    SalvageCache,
}

/// Position of an item in per-item tables.
pub open spec fn item_slot(item: MissionItem) -> int {
    match item {
        MissionItem::StructuralAlloy => 0,
        MissionItem::AlienCircuit => 1,
        MissionItem::MedicinalGel => 2,
        MissionItem::NutrientPods => 3,
        MissionItem::SalvageCache => 4,
    }
}

pub open spec fn spec_item_name(item: MissionItem) -> Seq<char> {
    match item {
        MissionItem::StructuralAlloy => "Structural Alloy"@,
        MissionItem::AlienCircuit => "Alien Circuit"@,
        MissionItem::MedicinalGel => "Medicinal Gel"@,
        MissionItem::NutrientPods => "Nutrient Pods"@,
        MissionItem::SalvageCache => "Salvage Cache"@,
    }
}

/// Every item except salvage caches feeds technology research.
pub open spec fn spec_contributes(item: MissionItem) -> bool {
    item != MissionItem::SalvageCache
}

impl MissionItem {
    pub fn name(&self) -> (r: &'static str)
        ensures
            r@ == spec_item_name(*self),
    {
        proof {
            reveal_strlit("Structural Alloy");
            reveal_strlit("Alien Circuit");
            reveal_strlit("Medicinal Gel");
            reveal_strlit("Nutrient Pods");
            reveal_strlit("Salvage Cache");
        }
        match self {
            MissionItem::StructuralAlloy => "Structural Alloy",
            MissionItem::AlienCircuit => "Alien Circuit",
            MissionItem::MedicinalGel => "Medicinal Gel",
            MissionItem::NutrientPods => "Nutrient Pods",
            MissionItem::SalvageCache => "Salvage Cache",
        }
    }

    pub fn contributes_to_technology(&self) -> (r: bool)
        ensures
            r == spec_contributes(*self),
    {
        match self {
            MissionItem::SalvageCache => false,
            _ => true,
        }
    }

    /// The table slot of this item.
    pub fn slot(&self) -> (r: usize)
        ensures
            r == item_slot(*self),
    {
        match self {
            MissionItem::StructuralAlloy => 0,
            MissionItem::AlienCircuit => 1,
            MissionItem::MedicinalGel => 2,
            MissionItem::NutrientPods => 3,
            MissionItem::SalvageCache => 4,
        }
    }
}

/// The kinds of missions the exploration gate can send.
#[derive(Clone, Copy, Debug, PartialEq, Eq, Structural)]
pub enum MissionType {
    SupplyRun,
    PerimeterScan,
    DeepSurvey,
}

/// The fixed parameters of a mission kind.
#[derive(Clone, Copy, Debug, PartialEq, Eq)]
pub struct MissionDefinition {
    pub mission_type: MissionType,
    pub name: &'static str,
    pub duration_minutes: u64,
    pub cooldown_minutes: u64,
    pub danger_percent: u32,
    pub description: &'static str,
    pub reward_profile: &'static str,
}

/// Base danger of a mission kind, before technology and priority.
pub open spec fn spec_base_danger(t: MissionType) -> u32 {
    match t {
        MissionType::SupplyRun => 15,
        MissionType::PerimeterScan => 25,
        MissionType::DeepSurvey => 40,
    }
}

pub open spec fn spec_duration(t: MissionType) -> u64 {
    match t {
        MissionType::SupplyRun => 30,
        MissionType::PerimeterScan => 1,
        MissionType::DeepSurvey => 60,
    }
}

pub open spec fn spec_cooldown(t: MissionType) -> u64 {
    match t {
        MissionType::SupplyRun => 30,
        MissionType::PerimeterScan => 20,
        MissionType::DeepSurvey => 45,
    }
}

pub open spec fn spec_mission_name(t: MissionType) -> Seq<char> {
    match t {
        MissionType::SupplyRun => "Supply Run"@,
        MissionType::PerimeterScan => "Perimeter Scan"@,
        MissionType::DeepSurvey => "Deep Survey"@,
    }
}

pub open spec fn spec_reward_profile(t: MissionType) -> Seq<char> {
    match t {
        MissionType::SupplyRun => "Favors supplies."@,
        MissionType::PerimeterScan => "Balanced returns."@,
        MissionType::DeepSurvey => "Favors research items."@,
    }
}

pub open spec fn spec_description(t: MissionType) -> Seq<char> {
    match t {
        MissionType::SupplyRun => "A salvage sweep for food stores and usable wreckage."@,
        MissionType::PerimeterScan => "A quick one-minute sweep for useful wreckage and unknown materials."@,
        MissionType::DeepSurvey => "A long push toward the wreck field for research materials."@,
    }
}

/// All mission kinds, in the order the mission panel lists them.
pub open spec fn spec_all_mission_types() -> Seq<MissionType> {
    seq![MissionType::SupplyRun, MissionType::PerimeterScan, MissionType::DeepSurvey]
}

impl MissionType {
    pub fn all() -> (r: &'static [MissionType])
        ensures
            r@ == spec_all_mission_types(),
    {
        &[MissionType::SupplyRun, MissionType::PerimeterScan, MissionType::DeepSurvey]
    }

    pub fn definition(&self) -> (d: MissionDefinition)
        ensures
            d.mission_type == *self,
            d.name@ == spec_mission_name(*self),
            d.duration_minutes == spec_duration(*self),
            d.cooldown_minutes == spec_cooldown(*self),
            d.danger_percent == spec_base_danger(*self),
            d.reward_profile@ == spec_reward_profile(*self),
            d.description@ == spec_description(*self),
    {
        proof {
            reveal_strlit("Favors supplies.");
            reveal_strlit("Balanced returns.");
            reveal_strlit("Favors research items.");
            reveal_strlit("Supply Run");
            reveal_strlit("Perimeter Scan");
            reveal_strlit("Deep Survey");
        }
        match self {
            MissionType::SupplyRun => MissionDefinition {
                mission_type: MissionType::SupplyRun,
                name: "Supply Run",
                duration_minutes: 30,
                cooldown_minutes: 30,
                danger_percent: 15,
                description: "A salvage sweep for food stores and usable wreckage.",
                reward_profile: "Favors supplies.",
            },
            MissionType::PerimeterScan => MissionDefinition {
                mission_type: MissionType::PerimeterScan,
                name: "Perimeter Scan",
                duration_minutes: 1,
                cooldown_minutes: 20,
                danger_percent: 25,
                description: "A quick one-minute sweep for useful wreckage and unknown materials.",
                reward_profile: "Balanced returns.",
            },
            MissionType::DeepSurvey => MissionDefinition {
                mission_type: MissionType::DeepSurvey,
                name: "Deep Survey",
                duration_minutes: 60,
                cooldown_minutes: 45,
                danger_percent: 40,
                description: "A long push toward the wreck field for research materials.",
                reward_profile: "Favors research items.",
            },
        }
    }
}

/// A mission that is currently away from the colony.
#[derive(Clone, Copy, Debug, PartialEq, Eq, Structural)]
pub struct ActiveMission {
    pub id: u32,
    pub colonist_id: u32,
    pub mission_type: MissionType,
    pub started_tick: u64,
    pub completes_at_tick: u64,
    pub danger_percent: u32,
    pub priority: ColonyPriority,
}

impl ActiveMission {
    /// Ticks left until the mission returns (zero once it is due).
    pub fn remaining_ticks(&self, current_tick: u64) -> (r: u64)
        ensures
            r == (if self.completes_at_tick > current_tick {
                self.completes_at_tick - current_tick
            } else {
                0
            }),
    {
        self.completes_at_tick.saturating_sub(current_tick)
    }
}

/// The missions away, the next mission id, and the earliest next launch.
#[derive(Clone, Debug)]
pub struct MissionState {
    pub active_missions: Vec<ActiveMission>,
    pub next_id: u32,
    pub next_launch_tick: u64,
}

impl MissionState {
    pub fn default() -> (m: MissionState)
        ensures
            m.active_missions@.len() == 0,
            m.next_id == 1,
            m.next_launch_tick == 0,
    {
        MissionState { active_missions: Vec::new(), next_id: 1, next_launch_tick: 0 }
    }

    pub fn active_count(&self) -> (r: usize)
        ensures
            r == self.active_missions@.len(),
    {
        self.active_missions.len()
    }

    /// Ticks until the crew can launch again.
    pub fn cooldown_remaining(&self, current_tick: u64) -> (r: u64)
        ensures
            r == (if self.next_launch_tick > current_tick {
                self.next_launch_tick - current_tick
            } else {
                0
            }),
    {
        self.next_launch_tick.saturating_sub(current_tick)
    }
}

} // verus!
