//! Mission planning and launches, returns with their rewards and injuries,
//! and recovery from injuries.
use crate::building::BuildingType;
use crate::colonist::{spec_can_start_mission, ActivityLocation, ActivityType, Colonist, ColonistState, JobPreference, all_summable};
use crate::event_log::LogCategory;
use crate::game_state::GameState;
use crate::mission::{
    spec_base_danger, spec_cooldown, spec_duration, spec_mission_name, spec_all_mission_types,
    spec_reward_profile, ActiveMission, MissionDefinition, MissionItem, MissionType,
};
use crate::priority::{spec_adjust_danger, spec_priority_label, ColonyPriority};
use crate::resource_system::{count_type, logged, need_floor, sizes_ok, spec_daily_need, ResourceSystem};
use crate::technology::TechId;
use crate::text::{decimal, push_decimal, push_signed, signed_decimal, text};
use vstd::prelude::*;
use vstd::string::StringExecFns;

verus! {

/// Why a mission could not launch.
#[derive(Clone, Copy, Debug, PartialEq, Eq, Structural)]
pub enum LaunchMissionError {
    NoExplorationGate,
    NoAvailableColonist,
    MissionCooldown { remaining_ticks: u64 },
}

/// What the mission panel shows for one mission kind.
#[derive(Clone, Debug)]
pub struct MissionPlan {
    pub mission_type: MissionType,
    pub definition: MissionDefinition,
    pub danger_percent: u32,
    pub recommended: bool,
    pub recommendation_reason: String,
    pub cooldown_remaining: u64,
}

/// The item a mission kind brings back under a priority for a roll of 0..6.
pub open spec fn spec_item_table(t: MissionType, p: ColonyPriority, roll: int) -> MissionItem {
    match t {
        MissionType::SupplyRun => match p {
            ColonyPriority::Recovery => if roll <= 1 {
                MissionItem::MedicinalGel
            } else if roll <= 3 {
                MissionItem::NutrientPods
            } else {
                MissionItem::SalvageCache
            },
            ColonyPriority::Stockpile => if roll <= 2 {
                MissionItem::SalvageCache
            } else if roll <= 4 {
                MissionItem::NutrientPods
            } else {
                MissionItem::StructuralAlloy
            },
            ColonyPriority::Survey => if roll == 0 {
                MissionItem::AlienCircuit
            } else if roll <= 2 {
                MissionItem::NutrientPods
            } else if roll == 3 {
                MissionItem::StructuralAlloy
            } else {
                MissionItem::SalvageCache
            },
        },
        MissionType::PerimeterScan => match p {
            ColonyPriority::Recovery => if roll <= 1 {
                MissionItem::MedicinalGel
            } else if roll == 2 {
                MissionItem::NutrientPods
            } else if roll == 3 {
                MissionItem::StructuralAlloy
            } else {
                MissionItem::SalvageCache
            },
            ColonyPriority::Stockpile => if roll == 0 {
                MissionItem::StructuralAlloy
            } else if roll == 2 || roll == 3 {
                MissionItem::NutrientPods
            } else {
                MissionItem::SalvageCache
            },
            ColonyPriority::Survey => if roll == 0 {
                MissionItem::StructuralAlloy
            } else if roll == 1 {
                MissionItem::AlienCircuit
            } else if roll == 2 || roll == 5 {
                MissionItem::MedicinalGel
            } else {
                MissionItem::NutrientPods
            },
        },
        MissionType::DeepSurvey => match p {
            ColonyPriority::Recovery => if roll <= 1 {
                MissionItem::MedicinalGel
            } else if roll == 2 {
                MissionItem::AlienCircuit
            } else if roll == 3 {
                MissionItem::StructuralAlloy
            } else {
                MissionItem::NutrientPods
            },
            ColonyPriority::Stockpile => if roll <= 1 {
                MissionItem::StructuralAlloy
            } else if roll == 2 {
                MissionItem::AlienCircuit
            } else if roll == 3 {
                MissionItem::MedicinalGel
            } else if roll == 4 {
                MissionItem::NutrientPods
            } else {
                MissionItem::SalvageCache
            },
            ColonyPriority::Survey => if roll <= 1 {
                MissionItem::AlienCircuit
            } else if roll == 2 {
                MissionItem::StructuralAlloy
            } else if roll == 3 {
                MissionItem::MedicinalGel
            } else {
                MissionItem::NutrientPods
            },
        },
    }
}

/// The roll that picks a mission's item.
pub open spec fn item_roll(m: ActiveMission) -> int {
    (m.id + m.colonist_id + (m.started_tick as u32)) % 6
}

/// The roll that decides whether a mission hurts its colonist.
pub open spec fn injury_roll(m: ActiveMission) -> int {
    (m.id * 37 + m.colonist_id * 11 + (m.started_tick as u32)) % 100
}

/// The item roll is computed without leaving `u32`.
pub open spec fn item_roll_fits(m: ActiveMission) -> bool {
    m.id + m.colonist_id + (m.started_tick as u32) <= u32::MAX
}

/// The injury roll is computed without leaving `u32`.
pub open spec fn injury_roll_fits(m: ActiveMission) -> bool {
    m.id * 37 + m.colonist_id * 11 + (m.started_tick as u32) <= u32::MAX
}

/// A mission's rolls are computed without leaving `u32`.
pub open spec fn rolls_fit(m: ActiveMission) -> bool {
    &&& item_roll_fits(m)
    &&& injury_roll_fits(m)
}

pub open spec fn spec_item_for_mission(m: ActiveMission) -> MissionItem {
    spec_item_table(m.mission_type, m.priority, item_roll(m))
}

pub open spec fn spec_mission_injures(m: ActiveMission) -> bool {
    injury_roll(m) < m.danger_percent
}

/// Supplies and salvage an item adds on return.
pub open spec fn spec_item_resources(item: MissionItem) -> (i32, i32) {
    match item {
        MissionItem::StructuralAlloy => (0, 1),
        MissionItem::AlienCircuit => (0, 0),
        MissionItem::MedicinalGel => (0, 0),
        MissionItem::NutrientPods => (3, 0),
        MissionItem::SalvageCache => (0, 4),
    }
}

/// Supplies and salvage every mission of a kind brings back.
pub open spec fn spec_base_resources(t: MissionType) -> (i32, i32) {
    match t {
        MissionType::SupplyRun => (6, 1),
        MissionType::PerimeterScan => (2, 1),
        MissionType::DeepSurvey => (0, 2),
    }
}

/// Danger of a mission kind after scanners and the colony priority.
pub open spec fn spec_danger(s: GameState, t: MissionType) -> u32 {
    let reduction: u32 = if s.technology.unlocked@.contains(TechId::SurveyScanners) { 10 } else { 0 };
    let base = spec_base_danger(t);
    let adjusted: u32 = if base > reduction { (base - reduction) as u32 } else { 0 };
    spec_adjust_danger(s.priority.active, adjusted)
}

/// A mission's danger case by case: 15, 25 or 40 percent for a supply run,
/// a perimeter scan or a deep survey, ten points less with Survey Scanners;
/// then halved (rounded down) under Recovery, unchanged under Stockpile, and
/// raised by a tenth (rounded down) under Survey.
pub open spec fn danger_by_case(s: GameState, t: MissionType, r: int) -> bool {
    let base: int = match t {
        MissionType::SupplyRun => 15,
        MissionType::PerimeterScan => 25,
        MissionType::DeepSurvey => 40,
    };
    let scanned = if s.technology.unlocked@.contains(TechId::SurveyScanners) { base - 10 } else { base };
    match s.priority.active {
        ColonyPriority::Recovery => r == scanned / 2,
        ColonyPriority::Stockpile => r == scanned,
        ColonyPriority::Survey => r == scanned + scanned / 10,
    }
}

/// Danger orders the missions and the priorities: a deep survey is more
/// dangerous than a perimeter scan, which is more dangerous than a supply
/// run; Recovery never makes a mission more dangerous than Stockpile would,
/// nor Stockpile than Survey; and each danger follows `danger_by_case`.
pub proof fn law_mission_danger(s: GameState, t: MissionType)
    ensures
        danger_by_case(s, t, spec_danger(s, t) as int),
        spec_danger(s, MissionType::SupplyRun) < spec_danger(s, MissionType::PerimeterScan),
        spec_danger(s, MissionType::PerimeterScan) < spec_danger(s, MissionType::DeepSurvey),
        s.priority.active == ColonyPriority::Recovery ==> spec_danger(s, t) <= spec_danger(
            GameState { priority: crate::priority::PriorityState { active: ColonyPriority::Stockpile }, ..s }, t),
        s.priority.active == ColonyPriority::Stockpile ==> spec_danger(s, t) <= spec_danger(
            GameState { priority: crate::priority::PriorityState { active: ColonyPriority::Survey }, ..s }, t),
{
}

/// The mission kind the panel recommends.
pub open spec fn spec_recommended(s: GameState) -> MissionType {
    if s.resources.supplies < need_floor(spec_daily_need(s)) * 2 {
        MissionType::SupplyRun
    } else if s.priority.active == ColonyPriority::Recovery {
        MissionType::PerimeterScan
    } else if s.priority.active == ColonyPriority::Survey
        || s.technology.unlocked@.len() < s.scenario.required_tech_unlocks {
        MissionType::DeepSurvey
    } else {
        MissionType::PerimeterScan
    }
}

/// The recommendation case by case: with supplies under two days' need
/// (the need counted as at least one) a supply run; otherwise a perimeter
/// scan under Recovery, a deep survey under Survey or while research is
/// short of the objective, and a perimeter scan once it is met.
pub open spec fn recommendation_by_case(s: GameState, r: MissionType) -> bool {
    let need = spec_daily_need(s);
    let floor = if need > 1 { need } else { 1 };
    let behind = s.technology.unlocked@.len() < s.scenario.required_tech_unlocks;
    if s.resources.supplies < 2 * floor {
        r == MissionType::SupplyRun
    } else if s.priority.active == ColonyPriority::Recovery {
        r == MissionType::PerimeterScan
    } else if s.priority.active == ColonyPriority::Survey || behind {
        r == MissionType::DeepSurvey
    } else {
        r == MissionType::PerimeterScan
    }
}

/// What the planner recommends: a supply run exactly when supplies are
/// under two days' need; with a safe buffer, Recovery always scouts the
/// perimeter, and otherwise a colony behind on research (or set to Survey)
/// is sent on a deep survey; a supply run is never recommended with a safe
/// buffer.
pub proof fn law_recommendation(s: GameState)
    ensures
        ({
            let need = spec_daily_need(s);
            let floor = if need > 1 { need } else { 1 };
            let safe = s.resources.supplies >= 2 * floor;
            let r = spec_recommended(s);
            &&& (r == MissionType::SupplyRun <==> !safe)
            &&& (safe && s.priority.active == ColonyPriority::Recovery ==> r == MissionType::PerimeterScan)
            &&& (safe && s.priority.active != ColonyPriority::Recovery
                && s.technology.unlocked@.len() < s.scenario.required_tech_unlocks ==> r == MissionType::DeepSurvey)
            &&& (safe && s.priority.active == ColonyPriority::Survey ==> r == MissionType::DeepSurvey)
            &&& (safe && s.priority.active == ColonyPriority::Stockpile
                && s.technology.unlocked@.len() >= s.scenario.required_tech_unlocks ==> r == MissionType::PerimeterScan)
        }),
{
}

/// Why the panel recommends a mission kind.
pub open spec fn spec_reason(s: GameState, t: MissionType) -> Seq<char> {
    match t {
        MissionType::SupplyRun => "Supplies "@ + signed_decimal(s.resources.supplies as int) + " are under a "@
            + signed_decimal(need_floor(spec_daily_need(s)) * 2) + "-supply safety buffer."@,
        MissionType::PerimeterScan => spec_priority_label(s.priority.active)
            + " priority favors a safer balanced scout."@,
        MissionType::DeepSurvey => spec_priority_label(s.priority.active) + " priority pushes tech progress "@
            + decimal(s.technology.unlocked@.len()) + "/"@ + decimal(s.scenario.required_tech_unlocks as nat) + "."@,
    }
}

/// The first colonist, by index, who can start a mission (an explorer when
/// `explorers_only`).
pub open spec fn first_ready(cs: Seq<Colonist>, tick: u64, explorers_only: bool) -> Option<int>
    decreases cs.len(),
{
    if cs.len() == 0 {
        None
    } else {
        match first_ready(cs.drop_last(), tick, explorers_only) {
            Some(i) => Some(i),
            None => {
                let c = cs.last();
                if spec_can_start_mission(c, tick) && (!explorers_only || c.job_preference == JobPreference::Explorer) {
                    Some(cs.len() - 1)
                } else {
                    None
                }
            },
        }
    }
}

/// The colonist a launch sends: the first ready explorer, else the first
/// ready colonist.
pub open spec fn spec_pick(cs: Seq<Colonist>, tick: u64) -> Option<int> {
    match first_ready(cs, tick, true) {
        Some(i) => Some(i),
        None => first_ready(cs, tick, false),
    }
}

proof fn lemma_first_ready_bounds(cs: Seq<Colonist>, tick: u64, explorers_only: bool)
    ensures
        first_ready(cs, tick, explorers_only) matches Some(i) ==> 0 <= i < cs.len(),
    decreases cs.len(),
{
    if cs.len() > 0 {
        lemma_first_ready_bounds(cs.drop_last(), tick, explorers_only);
    }
}

/// A colonist after leaving on a mission.
pub open spec fn sent_on_mission(c: Colonist, mission_id: u32) -> Colonist {
    Colonist {
        state: ColonistState::OnMission { mission_id },
        current_activity: ActivityType::Work,
        activity_location: ActivityLocation::Unset,
        active_mission_id: Some(mission_id),
        ..c
    }
}

pub open spec fn launch_title(name: Seq<char>, t: MissionType) -> Seq<char> {
    name + " started "@ + spec_mission_name(t)
}

pub open spec fn launch_detail(t: MissionType, danger: u32, p: ColonyPriority) -> Seq<char> {
    spec_reward_profile(t) + " Duration "@ + decimal(spec_duration(t) as nat) + "m, danger "@ + decimal(danger as nat)
        + "% after "@ + spec_priority_label(p) + " priority. Crew regroups for "@ + decimal(spec_cooldown(t) as nat) + "m."@
}

/// The outcome of a launch that found a colonist at index `i`.
pub open spec fn launched(s0: GameState, s1: GameState, t: MissionType, i: int) -> bool {
    let id = s0.missions.next_id;
    let danger = spec_danger(s0, t);
    &&& s1.missions.next_id == id + 1
    &&& s1.missions.active_missions@ == s0.missions.active_missions@.push(ActiveMission {
        id,
        colonist_id: s0.colonists@[i].id,
        mission_type: t,
        started_tick: s0.tick,
        completes_at_tick: (s0.tick + spec_duration(t)) as u64,
        danger_percent: danger,
        priority: s0.priority.active,
    })
    &&& s1.missions.next_launch_tick == s0.tick + spec_cooldown(t)
    &&& s1.colonists@ == s0.colonists@.update(i, sent_on_mission(s0.colonists@[i], id))
    &&& logged(s0, s1, LogCategory::Mission, launch_title(s0.colonists@[i].name@, t),
        launch_detail(t, danger, s0.priority.active))
    &&& s1.tick == s0.tick
    &&& s1.time == s0.time
    &&& s1.grid == s0.grid
    &&& s1.social_history == s0.social_history
    &&& s1.resources == s0.resources
    &&& s1.priority == s0.priority
    &&& s1.technology == s0.technology
    &&& s1.scenario == s0.scenario
    &&& s1.building_system == s0.building_system
}

fn reason_text(state: &GameState, mission_type: MissionType) -> (r: String)
    requires
        sizes_ok(*state),
    ensures
        r@ == spec_reason(*state, mission_type),
{
    let mut s = String::new();
    match mission_type {
        MissionType::SupplyRun => {
            let need = ResourceSystem::daily_supply_need(state);
            let daily_need: i64 = if need > 1 { need as i64 } else { 1 };
            s.append("Supplies ");
            push_signed(&mut s, state.resources.supplies as i64);
            s.append(" are under a ");
            push_signed(&mut s, daily_need * 2);
            s.append("-supply safety buffer.");
        },
        MissionType::PerimeterScan => {
            s.append(state.priority.active.label());
            s.append(" priority favors a safer balanced scout.");
        },
        MissionType::DeepSurvey => {
            s.append(state.priority.active.label());
            s.append(" priority pushes tech progress ");
            push_decimal(&mut s, state.technology.unlocked.len() as u64);
            s.append("/");
            push_decimal(&mut s, state.scenario.required_tech_unlocks as u64);
            s.append(".");
        },
    }
    s
}

fn launch_texts(name: &String, mission_type: MissionType, danger: u32, priority: ColonyPriority) -> (r: (String, String))
    ensures
        r.0@ == launch_title(name@, mission_type),
        r.1@ == launch_detail(mission_type, danger, priority),
{
    let definition = mission_type.definition();
    let mut t = String::new();
    t.append(name.as_str());
    t.append(" started ");
    t.append(definition.name);
    let mut s = String::new();
    s.append(definition.reward_profile);
    s.append(" Duration ");
    push_decimal(&mut s, definition.duration_minutes);
    s.append("m, danger ");
    push_decimal(&mut s, danger as u64);
    s.append("% after ");
    s.append(priority.label());
    s.append(" priority. Crew regroups for ");
    push_decimal(&mut s, definition.cooldown_minutes);
    s.append("m.");
    (t, s)
}

pub struct MissionSystem;

impl MissionSystem {
    /// One plan per mission kind, in panel order, marking the recommended one.
    pub fn mission_plans(state: &GameState) -> (plans: Vec<MissionPlan>)
        requires
            sizes_ok(*state),
        ensures
            plans@.len() == 3,
            forall|k: int| 0 <= k < 3 ==> {
                let p = #[trigger] plans@[k];
                let t = spec_all_mission_types()[k];
                &&& p.mission_type == t
                &&& p.definition.mission_type == t
                &&& p.definition.name@ == spec_mission_name(t)
                &&& p.definition.duration_minutes == spec_duration(t)
                &&& p.definition.cooldown_minutes == spec_cooldown(t)
                &&& p.definition.danger_percent == spec_base_danger(t)
                &&& p.danger_percent == spec_danger(*state, t)
                &&& p.recommended == (t == spec_recommended(*state))
                &&& p.recommendation_reason@ == spec_reason(*state, spec_recommended(*state))
                &&& p.cooldown_remaining == (if state.missions.next_launch_tick > state.tick {
                    state.missions.next_launch_tick - state.tick
                } else {
                    0
                })
            },
    {
        let recommended_type = Self::recommended_mission_type(state);
        let cooldown_remaining = state.missions.cooldown_remaining(state.tick);
        let all = MissionType::all();
        let mut plans: Vec<MissionPlan> = Vec::new();
        let mut i: usize = 0;
        while i < all.len()
            invariant
                all@ == spec_all_mission_types(),
                sizes_ok(*state),
                i <= 3,
                plans@.len() == i,
                recommended_type == spec_recommended(*state),
                cooldown_remaining == (if state.missions.next_launch_tick > state.tick {
                    state.missions.next_launch_tick - state.tick
                } else {
                    0
                }),
                forall|k: int| 0 <= k < i ==> {
                    let p = #[trigger] plans@[k];
                    let t = spec_all_mission_types()[k];
                    &&& p.mission_type == t
                    &&& p.definition.mission_type == t
                    &&& p.definition.name@ == spec_mission_name(t)
                    &&& p.definition.duration_minutes == spec_duration(t)
                    &&& p.definition.cooldown_minutes == spec_cooldown(t)
                    &&& p.definition.danger_percent == spec_base_danger(t)
                    &&& p.danger_percent == spec_danger(*state, t)
                    &&& p.recommended == (t == spec_recommended(*state))
                    &&& p.recommendation_reason@ == spec_reason(*state, spec_recommended(*state))
                    &&& p.cooldown_remaining == cooldown_remaining
                },
            decreases 3 - i,
        {
            let mission_type = all[i];
            let plan = MissionPlan {
                mission_type,
                definition: mission_type.definition(),
                danger_percent: Self::mission_danger_percent(state, mission_type),
                recommended: mission_type == recommended_type,
                recommendation_reason: reason_text(state, recommended_type),
                cooldown_remaining,
            };
            plans.push(plan);
            i = i + 1;
        }
        plans
    }

    /// Supplies under two days' need call for a supply run; otherwise the
    /// priority and research progress decide.
    pub fn recommended_mission_type(state: &GameState) -> (r: MissionType)
        requires
            sizes_ok(*state),
        ensures
            r == spec_recommended(*state),
            recommendation_by_case(*state, r),
    {
        let need = ResourceSystem::daily_supply_need(state);
        let daily_need: i64 = if need > 1 { need as i64 } else { 1 };
        if (state.resources.supplies as i64) < daily_need * 2 {
            return MissionType::SupplyRun;
        }
        match state.priority.active {
            ColonyPriority::Recovery => MissionType::PerimeterScan,
            ColonyPriority::Survey => MissionType::DeepSurvey,
            ColonyPriority::Stockpile => {
                if state.technology.unlocked_count() < state.scenario.required_tech_unlocks {
                    MissionType::DeepSurvey
                } else {
                    MissionType::PerimeterScan
                }
            },
        }
    }

    pub fn recommendation_reason(state: &GameState, mission_type: MissionType) -> (r: String)
        requires
            sizes_ok(*state),
        ensures
            r@ == spec_reason(*state, mission_type),
    {
        reason_text(state, mission_type)
    }

    /// Base danger, less ten points with Survey Scanners (never below
    /// zero), then adjusted by the colony priority.
    pub fn mission_danger_percent(state: &GameState, mission_type: MissionType) -> (r: u32)
        ensures
            r == spec_danger(*state, mission_type),
            danger_by_case(*state, mission_type, r as int),
    {
        let definition = mission_type.definition();
        let technology_adjusted = definition.danger_percent.saturating_sub(state.technology.mission_danger_reduction());
        state.priority.active.adjust_mission_danger(technology_adjusted)
    }

    pub fn perimeter_scan_danger_percent(state: &GameState) -> (r: u32)
        ensures
            r == spec_danger(*state, MissionType::PerimeterScan),
    {
        Self::mission_danger_percent(state, MissionType::PerimeterScan)
    }

    pub fn launch_perimeter_scan(state: &mut GameState) -> (r: Result<u32, LaunchMissionError>)
        requires
            old(state).missions.next_id < u32::MAX,
            old(state).tick <= u64::MAX - 60,
        ensures
            launch_post(*old(state), *final(state), MissionType::PerimeterScan, r),
    {
        Self::launch_mission(state, MissionType::PerimeterScan)
    }

    /// Sends the first ready explorer (else the first ready colonist) on a
    /// mission through an Exploration Gate, unless the crew is regrouping.
    pub fn launch_mission(state: &mut GameState, mission_type: MissionType) -> (r: Result<u32, LaunchMissionError>)
        requires
            old(state).missions.next_id < u32::MAX,
            old(state).tick <= u64::MAX - 60,
        ensures
            launch_post(*old(state), *final(state), mission_type, r),
    {
        if ResourceSystem::building_count(&state.building_system, BuildingType::ExplorationGate) == 0 {
            return Err(LaunchMissionError::NoExplorationGate);
        }
        let cooldown_remaining = state.missions.cooldown_remaining(state.tick);
        if cooldown_remaining > 0 {
            return Err(LaunchMissionError::MissionCooldown { remaining_ticks: cooldown_remaining });
        }
        let colonist_index = match Self::find_available_mission_colonist(state) {
            Some(i) => i,
            None => {
                return Err(LaunchMissionError::NoAvailableColonist);
            },
        };
        let ghost s0 = *state;
        let definition = mission_type.definition();
        let mission_id = state.missions.next_id;
        state.missions.next_id = state.missions.next_id + 1;
        let danger_percent = Self::mission_danger_percent(state, mission_type);
        let completes_at_tick = state.tick + definition.duration_minutes;
        let priority = state.priority.active;
        let (title, detail) = launch_texts(&state.colonists[colonist_index].name, mission_type, danger_percent, priority);
        state.colonists[colonist_index].state = ColonistState::OnMission { mission_id };
        state.colonists[colonist_index].current_activity = ActivityType::Work;
        state.colonists[colonist_index].activity_location = ActivityLocation::Unset;
        state.colonists[colonist_index].active_mission_id = Some(mission_id);
        assert(state.colonists@ == s0.colonists@.update(colonist_index as int, sent_on_mission(s0.colonists@[colonist_index as int], mission_id)));
        let colonist_id = state.colonists[colonist_index].id;
        state.missions.active_missions.push(ActiveMission {
            id: mission_id,
            colonist_id,
            mission_type,
            started_tick: state.tick,
            completes_at_tick,
            danger_percent,
            priority,
        });
        state.missions.next_launch_tick = state.tick + definition.cooldown_minutes;
        state.push_log(LogCategory::Mission, title, detail);
        Ok(mission_id)
    }

    /// Index of the colonist a launch would send.
    pub fn find_available_mission_colonist(state: &GameState) -> (r: Option<usize>)
        ensures
            match r {
                Some(i) => spec_pick(state.colonists@, state.tick) == Some(i as int) && i < state.colonists@.len(),
                None => spec_pick(state.colonists@, state.tick) is None,
            },
    {
        proof {
            lemma_first_ready_bounds(state.colonists@, state.tick, true);
            lemma_first_ready_bounds(state.colonists@, state.tick, false);
        }
        match first_ready_index(&state.colonists, state.tick, true) {
            Some(i) => Some(i),
            None => first_ready_index(&state.colonists, state.tick, false),
        }
    }
}

/// What a launch does: each refusal leaves the colony unchanged.
pub open spec fn launch_post(s0: GameState, s1: GameState, t: MissionType, r: Result<u32, LaunchMissionError>) -> bool {
    let cooldown = if s0.missions.next_launch_tick > s0.tick { s0.missions.next_launch_tick - s0.tick } else { 0 };
    if count_type(s0.building_system.placed(), BuildingType::ExplorationGate) == 0 {
        r == Err::<u32, LaunchMissionError>(LaunchMissionError::NoExplorationGate) && s1 == s0
    } else if cooldown > 0 {
        r == Err::<u32, LaunchMissionError>(LaunchMissionError::MissionCooldown { remaining_ticks: cooldown as u64 }) && s1 == s0
    } else {
        match spec_pick(s0.colonists@, s0.tick) {
            None => r == Err::<u32, LaunchMissionError>(LaunchMissionError::NoAvailableColonist) && s1 == s0,
            Some(i) => r == Ok::<u32, LaunchMissionError>(s0.missions.next_id) && launched(s0, s1, t, i)
                && (s0.wf() ==> s1.wf()),
        }
    }
}

fn first_ready_index(colonists: &Vec<Colonist>, tick: u64, explorers_only: bool) -> (r: Option<usize>)
    ensures
        match r {
            Some(i) => first_ready(colonists@, tick, explorers_only) == Some(i as int),
            None => first_ready(colonists@, tick, explorers_only) is None,
        },
{
    let mut i: usize = 0;
    while i < colonists.len()
        invariant
            i <= colonists@.len(),
            first_ready(colonists@.take(i as int), tick, explorers_only) is None,
        decreases colonists@.len() - i,
    {
        assert(colonists@.take(i + 1).drop_last() == colonists@.take(i as int));
        let c = &colonists[i];
        if c.can_start_mission(tick) && (!explorers_only || c.job_preference == JobPreference::Explorer) {
            proof {
                lemma_first_ready_prefix(colonists@, tick, explorers_only, i + 1);
            }
            return Some(i);
        }
        i = i + 1;
    }
    assert(colonists@.take(colonists@.len() as int) == colonists@);
    None
}

/// Once a prefix has a ready colonist, the whole sequence picks the same one.
proof fn lemma_first_ready_prefix(cs: Seq<Colonist>, tick: u64, explorers_only: bool, n: int)
    requires
        0 <= n <= cs.len(),
        first_ready(cs.take(n), tick, explorers_only) is Some,
    ensures
        first_ready(cs, tick, explorers_only) == first_ready(cs.take(n), tick, explorers_only),
    decreases cs.len() - n,
{
    if n < cs.len() {
        assert(cs.take(n + 1).drop_last() == cs.take(n));
        lemma_first_ready_prefix(cs, tick, explorers_only, n + 1);
    } else {
        assert(cs.take(n) == cs);
    }
}


/// The first colonist, by index, with the given id.
pub open spec fn first_with_id(cs: Seq<Colonist>, id: u32) -> Option<int>
    decreases cs.len(),
{
    if cs.len() == 0 {
        None
    } else {
        match first_with_id(cs.drop_last(), id) {
            Some(i) => Some(i),
            None => if cs.last().id == id { Some(cs.len() - 1) } else { None },
        }
    }
}

proof fn lemma_first_with_id(cs: Seq<Colonist>, id: u32, n: int)
    requires
        0 <= n <= cs.len(),
        first_with_id(cs.take(n), id) is Some,
    ensures
        first_with_id(cs, id) == first_with_id(cs.take(n), id),
    decreases cs.len() - n,
{
    if n < cs.len() {
        assert(cs.take(n + 1).drop_last() == cs.take(n));
        lemma_first_with_id(cs, id, n + 1);
    } else {
        assert(cs.take(n) == cs);
    }
}

pub proof fn lemma_first_with_id_found(cs: Seq<Colonist>, id: u32)
    ensures
        first_with_id(cs, id) matches Some(i) ==> 0 <= i < cs.len() && cs[i].id == id,
    decreases cs.len(),
{
    if cs.len() > 0 {
        lemma_first_with_id_found(cs.drop_last(), id);
    }
}

/// While every colonist keeps its id, the first colonist with an id stays
/// the same.
pub proof fn lemma_first_with_id_same_ids(c0: Seq<Colonist>, c1: Seq<Colonist>, id: u32)
    requires
        c1.len() == c0.len(),
        forall|k: int| 0 <= k < c0.len() ==> #[trigger] c1[k].id == c0[k].id,
    ensures
        first_with_id(c1, id) == first_with_id(c0, id),
    decreases c0.len(),
{
    if c0.len() > 0 {
        assert forall|k: int| 0 <= k < c0.drop_last().len() implies #[trigger] c1.drop_last()[k].id == c0.drop_last()[k].id by {
            assert(c1.drop_last()[k] == c1[k] && c0.drop_last()[k] == c0[k]);
        }
        lemma_first_with_id_same_ids(c0.drop_last(), c1.drop_last(), id);
    }
}

/// Index of the first colonist with the given id.
pub fn colonist_index_by_id(colonists: &[Colonist], id: u32) -> (r: Option<usize>)
    ensures
        match r {
            Some(i) => first_with_id(colonists@, id) == Some(i as int) && i < colonists@.len(),
            None => first_with_id(colonists@, id) is None,
        },
{
    let mut i: usize = 0;
    while i < colonists.len()
        invariant
            i <= colonists@.len(),
            first_with_id(colonists@.take(i as int), id) is None,
        decreases colonists@.len() - i,
    {
        assert(colonists@.take(i + 1).drop_last() == colonists@.take(i as int));
        if colonists[i].id == id {
            proof {
                lemma_first_with_id(colonists@, id, i + 1);
            }
            return Some(i);
        }
        i = i + 1;
    }
    assert(colonists@.take(colonists@.len() as int) == colonists@);
    None
}

/// A colonist back from a mission, hurt until `until` when injured.
pub open spec fn returned_colonist(c: Colonist, injured: bool, until: u64) -> Colonist {
    Colonist {
        active_mission_id: None,
        activity_location: ActivityLocation::Unset,
        state: ColonistState::Idle,
        injured_until_tick: if injured { Some(until) } else { c.injured_until_tick },
        ..c
    }
}

/// Minutes a mission injury lasts.
pub open spec fn spec_injury_ticks(s: GameState) -> u64 {
    if s.technology.unlocked@.contains(TechId::FieldMedicine) { 60 } else { 150 }
}

/// The summary logged when a mission returns.
pub open spec fn spec_mission_detail(m: ActiveMission, item: MissionItem, supplies: int, salvage: int, wasted: int) -> Seq<char> {
    let head = spec_mission_name(m.mission_type) + " completed under "@ + spec_priority_label(m.priority)
        + " priority. Found "@ + crate::mission::spec_item_name(item) + "."@;
    let stored = if supplies > 0 {
        " Stored "@ + signed_decimal(supplies - wasted) + " supplies."@
            + if wasted > 0 { " "@ + signed_decimal(wasted) + " supplies were wasted."@ } else { Seq::empty() }
    } else {
        Seq::empty()
    };
    let added = if salvage > 0 { " Added "@ + signed_decimal(salvage) + " salvage."@ } else { Seq::empty() };
    let tail = if crate::mission::spec_contributes(item) {
        " Added to technology research."@
    } else {
        " This was a resource-focused return."@
    };
    head + stored + added + tail
}

pub open spec fn hurt_detail(m: ActiveMission, ticks: u64) -> Seq<char> {
    spec_mission_name(m.mission_type) + " risk caught up with the crew at "@ + decimal(m.danger_percent as nat)
        + "% danger. Recovery takes "@ + decimal(ticks as nat) + " minutes."@
}

pub open spec fn unlock_detail(item: MissionItem, m: ActiveMission, t: TechId) -> Seq<char> {
    crate::mission::spec_item_name(item) + " from "@ + spec_mission_name(m.mission_type) + " completed research. "@
        + crate::technology::spec_effect_text(t)
}

/// The name the log uses for the colonist of a mission.
pub open spec fn crew_name(cs: Seq<Colonist>, id: u32) -> Seq<char> {
    match first_with_id(cs, id) {
        Some(i) => cs[i].name@,
        None => "Colonist "@ + decimal(id as nat),
    }
}

/// The supplies and salvage a return brings.
pub open spec fn return_supplies(m: ActiveMission) -> int {
    spec_base_resources(m.mission_type).0 + spec_item_resources(spec_item_for_mission(m)).0
}

pub open spec fn return_salvage(m: ActiveMission) -> int {
    spec_base_resources(m.mission_type).1 + spec_item_resources(spec_item_for_mission(m)).1
}

/// What a return brings and risks: a mission without danger never hurts
/// its colonist and one at 100 percent or more always does; raising the
/// danger never spares a colonist who would have been hurt; every return
/// brings salvage and never a negative amount of supplies, a supply run at
/// least six supplies and a deep survey at least two salvage.
pub proof fn law_mission_returns(m: ActiveMission, higher_danger: u32)
    requires
        higher_danger >= m.danger_percent,
    ensures
        spec_mission_injures(m) ==> m.danger_percent > 0,
        m.danger_percent >= 100 ==> spec_mission_injures(m),
        spec_mission_injures(m) ==> spec_mission_injures(ActiveMission { danger_percent: higher_danger, ..m }),
        return_supplies(m) >= 0,
        return_salvage(m) >= 1,
        m.mission_type == MissionType::SupplyRun ==> return_supplies(m) >= 6,
        m.mission_type == MissionType::DeepSurvey ==> return_salvage(m) >= 2,
{
    let i = spec_item_for_mission(m);
    assert(spec_item_resources(i).0 >= 0 && spec_item_resources(i).1 >= 0);
}

/// Every item count can grow by one.
pub open spec fn item_counts_have_room(s: GameState) -> bool {
    forall|k: int| 0 <= k < 5 ==> #[trigger] s.technology.item_counts@[k] < u32::MAX
}

/// The log entries a return writes: the return itself, an injury if any,
/// and one per technology it unlocks.
pub open spec fn return_entries_ok(s0: GameState, m: ActiveMission, es: Seq<crate::event_log::ColonyLogEntry>,
    wasted: int, newly: Seq<TechId>) -> bool
{
    let item = spec_item_for_mission(m);
    let injured = spec_mission_injures(m);
    let name = crew_name(s0.colonists@, m.colonist_id);
    let first_tech: int = if injured { 2 } else { 1 };
    &&& es.len() == first_tech + newly.len()
    &&& crate::game_state::entry_is(es[0], s0.tick, LogCategory::Mission,
        name + " returned from "@ + spec_mission_name(m.mission_type),
        spec_mission_detail(m, item, return_supplies(m), return_salvage(m), wasted))
    &&& injured ==> crate::game_state::entry_is(es[1], s0.tick, LogCategory::Mission, name + " was hurt"@,
        hurt_detail(m, spec_injury_ticks(s0)))
    &&& forall|k: int| 0 <= k < newly.len() ==> crate::game_state::entry_is(#[trigger] es[first_tech + k], s0.tick,
        LogCategory::Technology, "Technology unlocked: "@ + crate::technology::spec_tech_name(newly[k]),
        unlock_detail(item, m, newly[k]))
}

#[verifier::rlimit(40)]
fn mission_detail_text(mission: &ActiveMission, item: MissionItem, supplies: i32, salvage: i32, wasted_supplies: i32) -> (r: String)
    requires
        -0x1000_0000 <= supplies <= 0x1000_0000,
        -0x1000_0000 <= wasted_supplies <= 0x1000_0000,
    ensures
        r@ == spec_mission_detail(*mission, item, supplies as int, salvage as int, wasted_supplies as int),
{
    let definition = mission.mission_type.definition();
    let mut detail = String::new();
    detail.append(definition.name);
    detail.append(" completed under ");
    detail.append(mission.priority.label());
    detail.append(" priority. Found ");
    detail.append(item.name());
    detail.append(".");
    let ghost head = detail@;
    if supplies > 0 {
        detail.append(" Stored ");
        push_signed(&mut detail, (supplies - wasted_supplies) as i64);
        detail.append(" supplies.");
        if wasted_supplies > 0 {
            detail.append(" ");
            push_signed(&mut detail, wasted_supplies as i64);
            detail.append(" supplies were wasted.");
        }
    }
    let ghost stored = detail@;
    if salvage > 0 {
        detail.append(" Added ");
        push_signed(&mut detail, salvage as i64);
        detail.append(" salvage.");
    }
    if item.contributes_to_technology() {
        detail.append(" Added to technology research.");
    } else {
        detail.append(" This was a resource-focused return.");
    }
    proof {
        let item_text = spec_mission_detail(*mission, item, supplies as int, salvage as int, wasted_supplies as int);
        assert(detail@ =~= item_text);
    }
    detail
}

impl MissionSystem {
    /// The item a returning mission brings, from its kind, priority, and a
    /// roll on its id, colonist, and start tick.
    pub fn item_for_mission(mission: &ActiveMission) -> (r: MissionItem)
        requires
            item_roll_fits(*mission),
        ensures
            r == spec_item_for_mission(*mission),
    {
        let roll = (mission.id + mission.colonist_id + mission.started_tick as u32) % 6;
        match mission.mission_type {
            MissionType::SupplyRun => match mission.priority {
                ColonyPriority::Recovery => match roll {
                    0 | 1 => MissionItem::MedicinalGel,
                    2 | 3 => MissionItem::NutrientPods,
                    _ => MissionItem::SalvageCache,
                },
                ColonyPriority::Stockpile => match roll {
                    0 | 1 | 2 => MissionItem::SalvageCache,
                    3 | 4 => MissionItem::NutrientPods,
                    _ => MissionItem::StructuralAlloy,
                },
                ColonyPriority::Survey => match roll {
                    0 => MissionItem::AlienCircuit,
                    1 | 2 => MissionItem::NutrientPods,
                    3 => MissionItem::StructuralAlloy,
                    _ => MissionItem::SalvageCache,
                },
            },
            MissionType::PerimeterScan => match mission.priority {
                ColonyPriority::Recovery => match roll {
                    0 | 1 => MissionItem::MedicinalGel,
                    2 => MissionItem::NutrientPods,
                    3 => MissionItem::StructuralAlloy,
                    _ => MissionItem::SalvageCache,
                },
                ColonyPriority::Stockpile => match roll {
                    0 => MissionItem::StructuralAlloy,
                    1 | 4 | 5 => MissionItem::SalvageCache,
                    2 | 3 => MissionItem::NutrientPods,
                    _ => MissionItem::SalvageCache,
                },
                ColonyPriority::Survey => match roll {
                    0 => MissionItem::StructuralAlloy,
                    1 => MissionItem::AlienCircuit,
                    2 | 5 => MissionItem::MedicinalGel,
                    _ => MissionItem::NutrientPods,
                },
            },
            MissionType::DeepSurvey => match mission.priority {
                ColonyPriority::Recovery => match roll {
                    0 | 1 => MissionItem::MedicinalGel,
                    2 => MissionItem::AlienCircuit,
                    3 => MissionItem::StructuralAlloy,
                    _ => MissionItem::NutrientPods,
                },
                ColonyPriority::Stockpile => match roll {
                    0 | 1 => MissionItem::StructuralAlloy,
                    2 => MissionItem::AlienCircuit,
                    3 => MissionItem::MedicinalGel,
                    4 => MissionItem::NutrientPods,
                    _ => MissionItem::SalvageCache,
                },
                ColonyPriority::Survey => match roll {
                    0 | 1 => MissionItem::AlienCircuit,
                    2 => MissionItem::StructuralAlloy,
                    3 => MissionItem::MedicinalGel,
                    _ => MissionItem::NutrientPods,
                },
            },
        }
    }

    /// Whether a mission hurts its colonist: a roll on its id, colonist,
    /// and start tick falls under its danger percentage.
    pub fn mission_caused_injury(mission: &ActiveMission) -> (r: bool)
        requires
            injury_roll_fits(*mission),
        ensures
            r == spec_mission_injures(*mission),
    {
        let roll = (mission.id * 37 + mission.colonist_id * 11 + mission.started_tick as u32) % 100;
        roll < mission.danger_percent
    }

    /// Supplies and salvage an item is worth.
    pub fn resources_for_item(item: MissionItem) -> (r: (i32, i32))
        ensures
            r == spec_item_resources(item),
    {
        match item {
            MissionItem::StructuralAlloy => (0, 1),
            MissionItem::AlienCircuit => (0, 0),
            MissionItem::MedicinalGel => (0, 0),
            MissionItem::NutrientPods => (3, 0),
            MissionItem::SalvageCache => (0, 4),
        }
    }

    /// Supplies and salvage every mission of this kind brings.
    pub fn base_resources_for_mission(mission: &ActiveMission) -> (r: (i32, i32))
        ensures
            r == spec_base_resources(mission.mission_type),
    {
        match mission.mission_type {
            MissionType::SupplyRun => (6, 1),
            MissionType::PerimeterScan => (2, 1),
            MissionType::DeepSurvey => (0, 2),
        }
    }

    /// The log summary of a return.
    pub fn mission_detail(mission: &ActiveMission, item: MissionItem, supplies: i32, salvage: i32, wasted_supplies: i32) -> (r: String)
        requires
            -0x1000_0000 <= supplies <= 0x1000_0000,
            -0x1000_0000 <= wasted_supplies <= 0x1000_0000,
        ensures
            r@ == spec_mission_detail(*mission, item, supplies as int, salvage as int, wasted_supplies as int),
    {
        mission_detail_text(mission, item, supplies, salvage, wasted_supplies)
    }
}


/// The missions of `ms` that are due at `tick`, in order.
pub open spec fn due_missions(ms: Seq<ActiveMission>, tick: u64) -> Seq<ActiveMission>
    decreases ms.len(),
{
    if ms.len() == 0 {
        Seq::empty()
    } else if ms.last().completes_at_tick <= tick {
        due_missions(ms.drop_last(), tick).push(ms.last())
    } else {
        due_missions(ms.drop_last(), tick)
    }
}

/// The missions of `ms` still away at `tick`, in order.
pub open spec fn pending_missions(ms: Seq<ActiveMission>, tick: u64) -> Seq<ActiveMission>
    decreases ms.len(),
{
    if ms.len() == 0 {
        Seq::empty()
    } else if ms.last().completes_at_tick <= tick {
        pending_missions(ms.drop_last(), tick)
    } else {
        pending_missions(ms.drop_last(), tick).push(ms.last())
    }
}

/// Whether a colonist's injury has run out by `tick`.
pub open spec fn recovers(c: Colonist, tick: u64) -> bool {
    c.injured_until_tick matches Some(t) && t <= tick
}

/// The names of the colonists of `cs` who recover at `tick`, in order.
pub open spec fn recovered_names(cs: Seq<Colonist>, tick: u64) -> Seq<Seq<char>>
    decreases cs.len(),
{
    if cs.len() == 0 {
        Seq::empty()
    } else if recovers(cs.last(), tick) {
        recovered_names(cs.drop_last(), tick).push(cs.last().name@)
    } else {
        recovered_names(cs.drop_last(), tick)
    }
}

proof fn lemma_extend_log_push(log: Seq<crate::event_log::ColonyLogEntry>, es: Seq<crate::event_log::ColonyLogEntry>,
    e: crate::event_log::ColonyLogEntry)
    ensures
        crate::game_state::extend_log(log, es.push(e)) == crate::game_state::capped_log(crate::game_state::extend_log(log, es), e),
{
    assert(es.push(e).drop_last() == es);
}

proof fn lemma_extend_log_len(log: Seq<crate::event_log::ColonyLogEntry>, es: Seq<crate::event_log::ColonyLogEntry>)
    requires
        log.len() <= 80,
    ensures
        crate::game_state::extend_log(log, es).len() <= 80,
    decreases es.len(),
{
    if es.len() > 0 {
        lemma_extend_log_len(log, es.drop_last());
    }
}

/// Items counts after a return records its item.
pub open spec fn counts_after(s0: GameState, item: MissionItem) -> Seq<u32> {
    if crate::mission::spec_contributes(item) {
        s0.technology.item_counts@.update(crate::mission::item_slot(item),
            (s0.technology.item_counts@[crate::mission::item_slot(item)] + 1) as u32)
    } else {
        s0.technology.item_counts@
    }
}

/// Technologies a return unlocks.
pub open spec fn unlocked_by_return(s0: GameState, m: ActiveMission) -> Seq<TechId> {
    crate::technology::newly_unlockable(s0.technology.unlocked@, counts_after(s0, spec_item_for_mission(m)),
        crate::technology::spec_all_techs())
}

/// Supplies wasted because storage is full when a return is stored.
pub open spec fn wasted_on_return(s0: GameState, m: ActiveMission) -> int {
    let cap = crate::resource_system::spec_storage_capacity(s0);
    let total = s0.resources.supplies + return_supplies(m);
    if return_supplies(m) > 0 && total > cap { total - cap } else { 0 }
}

/// The returning colonist is freed, and hurt when the mission injures.
pub open spec fn completion_colonists(s0: GameState, s1: GameState, m: ActiveMission, hurt: Option<usize>) -> bool {
    let injured = spec_mission_injures(m);
    match first_with_id(s0.colonists@, m.colonist_id) {
        Some(i) => s1.colonists@ == s0.colonists@.update(i, returned_colonist(s0.colonists@[i], injured,
            (s0.tick + spec_injury_ticks(s0)) as u64))
            && hurt == (if injured { Some(i as usize) } else { None }),
        None => s1.colonists@ == s0.colonists@ && hurt is None,
    }
}

/// Supplies are stored up to capacity and salvage is added.
pub open spec fn completion_resources(s0: GameState, s1: GameState, m: ActiveMission) -> bool {
    let supplies = return_supplies(m);
    let salvage = return_salvage(m);
    let cap = crate::resource_system::spec_storage_capacity(s0);
    let total = s0.resources.supplies + supplies;
    &&& s1.resources.supplies == (if supplies > 0 { if total > cap { cap } else { total } } else { s0.resources.supplies as int })
    &&& s1.resources.salvage == s0.resources.salvage + (if salvage > 0 { salvage } else { 0 })
    &&& s1.resources.prepared_meals == s0.resources.prepared_meals
    &&& s1.resources.condition == s0.resources.condition
    &&& s1.resources.stable_days == s0.resources.stable_days
}

/// The item counts for research and unlocks what it can.
pub open spec fn completion_research(s0: GameState, s1: GameState, m: ActiveMission) -> bool {
    &&& s1.technology.item_counts@ == counts_after(s0, spec_item_for_mission(m))
    &&& s1.technology.unlocked@ == s0.technology.unlocked@ + unlocked_by_return(s0, m)
}

/// The return's log entries are appended.
pub open spec fn completion_log(s0: GameState, s1: GameState, m: ActiveMission) -> bool {
    exists|es: Seq<crate::event_log::ColonyLogEntry>|
        s1.event_log@ == crate::game_state::extend_log(s0.event_log@, es)
        && #[trigger] return_entries_ok(s0, m, es, wasted_on_return(s0, m), unlocked_by_return(s0, m))
}

/// Nothing else changes, and the colony stays consistent.
pub open spec fn completion_rest(s0: GameState, s1: GameState) -> bool {
    &&& s1.tick == s0.tick
    &&& s1.time == s0.time
    &&& s1.grid == s0.grid
    &&& s1.social_history == s0.social_history
    &&& s1.missions == s0.missions
    &&& s1.priority == s0.priority
    &&& s1.scenario == s0.scenario
    &&& s1.building_system == s0.building_system
    &&& s0.wf() ==> s1.wf()
}

impl MissionSystem {
    /// Takes the missions due at the current tick off the active list and
    /// returns them in order; each is then finished with `complete_mission`.
    pub fn take_due_missions(state: &mut GameState) -> (completed: Vec<ActiveMission>)
        ensures
            completed@ == due_missions(old(state).missions.active_missions@, old(state).tick),
            final(state).missions.active_missions@ == pending_missions(old(state).missions.active_missions@, old(state).tick),
            final(state).missions.next_id == old(state).missions.next_id,
            final(state).missions.next_launch_tick == old(state).missions.next_launch_tick,
            final(state).tick == old(state).tick,
            final(state).time == old(state).time,
            final(state).grid == old(state).grid,
            final(state).colonists == old(state).colonists,
            final(state).event_log == old(state).event_log,
            final(state).social_history == old(state).social_history,
            final(state).resources == old(state).resources,
            final(state).priority == old(state).priority,
            final(state).technology == old(state).technology,
            final(state).scenario == old(state).scenario,
            final(state).building_system == old(state).building_system,
    {
        let mut completed: Vec<ActiveMission> = Vec::new();
        let mut remaining: Vec<ActiveMission> = Vec::new();
        let ghost ms = state.missions.active_missions@;
        let mut i: usize = 0;
        while i < state.missions.active_missions.len()
            invariant
                ms == state.missions.active_missions@,
                i <= ms.len(),
                completed@ == due_missions(ms.take(i as int), state.tick),
                remaining@ == pending_missions(ms.take(i as int), state.tick),
            decreases ms.len() - i,
        {
            assert(ms.take(i + 1).drop_last() == ms.take(i as int));
            let m = state.missions.active_missions[i];
            if m.completes_at_tick <= state.tick {
                completed.push(m);
            } else {
                remaining.push(m);
            }
            i = i + 1;
        }
        assert(ms.take(ms.len() as int) == ms);
        state.missions.active_missions = remaining;
        completed
    }

    /// Finishes a returned mission: frees (and maybe injures) its colonist,
    /// stores its supplies and salvage, records its item for research, and
    /// logs the return, any injury, and any unlocked technology. Returns the
    /// index of the colonist it hurt, whose mood then drops by ten where
    /// mood is kept, before the colony condition is re-judged.
    pub fn complete_mission(state: &mut GameState, mission: ActiveMission) -> (hurt: Option<usize>)
        requires
            sizes_ok(*old(state)),
            rolls_fit(mission),
            old(state).tick <= u64::MAX - 150,
            item_counts_have_room(*old(state)),
            old(state).resources.supplies >= 0,
        ensures
            completion_colonists(*old(state), *final(state), mission, hurt),
            completion_resources(*old(state), *final(state), mission),
            completion_research(*old(state), *final(state), mission),
            completion_log(*old(state), *final(state), mission),
            completion_rest(*old(state), *final(state)),
    {
        let ghost s0 = *state;
        let item = Self::item_for_mission(&mission);
        let injured = Self::mission_caused_injury(&mission);
        let injury_duration = state.technology.injury_duration_ticks();
        let definition = mission.mission_type.definition();
        let found = colonist_index_by_id(&state.colonists, mission.colonist_id);
        proof {
            lemma_first_with_id_found(state.colonists@, mission.colonist_id);
        }
        let mut hurt: Option<usize> = None;
        let colonist_name = match found {
            Some(i) => {
                state.colonists[i].active_mission_id = None;
                state.colonists[i].activity_location = ActivityLocation::Unset;
                state.colonists[i].state = ColonistState::Idle;
                if injured {
                    state.colonists[i].injured_until_tick = Some(state.tick + injury_duration);
                    hurt = Some(i);
                }
                assert(state.colonists@ == s0.colonists@.update(i as int, returned_colonist(s0.colonists@[i as int], injured,
                    (s0.tick + spec_injury_ticks(s0)) as u64)));
                state.colonists[i].name.clone()
            },
            None => {
                let mut n = String::new();
                n.append("Colonist ");
                push_decimal(&mut n, mission.colonist_id as u64);
                n
            },
        };
        assert(colonist_name@ == crew_name(s0.colonists@, mission.colonist_id));
        let (base_supplies, base_salvage) = Self::base_resources_for_mission(&mission);
        let (item_supplies, item_salvage) = Self::resources_for_item(item);
        let supplies = base_supplies + item_supplies;
        let salvage = base_salvage + item_salvage;
        let wasted_supplies = if supplies > 0 {
            ResourceSystem::add_supplies_from_work(state, supplies)
        } else {
            0
        };
        if salvage > 0 {
            state.resources.add_salvage(salvage);
        }
        let unlocked = state.technology.add_item(item);
        let ghost mut es: Seq<crate::event_log::ColonyLogEntry> = Seq::empty();
        let ghost log0 = state.event_log@;
        assert(log0 == s0.event_log@);
        let detail = mission_detail_text(&mission, item, supplies, salvage, wasted_supplies);
        let mut title = colonist_name.clone();
        title.append(" returned from ");
        title.append(definition.name);
        state.push_log(LogCategory::Mission, title, detail);
        proof {
            lemma_extend_log_push(log0, es, state.event_log@.last());
            es = es.push(state.event_log@.last());
        }
        if injured {
            let mut t = colonist_name.clone();
            t.append(" was hurt");
            let mut d = String::new();
            d.append(definition.name);
            d.append(" risk caught up with the crew at ");
            push_decimal(&mut d, mission.danger_percent as u64);
            d.append("% danger. Recovery takes ");
            push_decimal(&mut d, injury_duration);
            d.append(" minutes.");
            state.push_log(LogCategory::Mission, t, d);
            proof {
                let old_es = es;
                lemma_extend_log_push(log0, es, state.event_log@.last());
                es = es.push(state.event_log@.last());
                assert(es[0] == old_es[0]);
            }
        }
        let first_tech: usize = if injured { 2 } else { 1 };
        let ghost s_mid = *state;
        let mut k: usize = 0;
        while k < unlocked.len()
            invariant
                crate::game_state::same_except_log(s_mid, *state),
                definition.name@ == spec_mission_name(mission.mission_type),
                item == spec_item_for_mission(mission),
                k <= unlocked@.len(),
                es.len() == first_tech + k,
                first_tech == (if injured { 2usize } else { 1usize }),
                state.event_log@ == crate::game_state::extend_log(log0, es),
                state.tick == s0.tick,
                crate::game_state::entry_is(es[0], s0.tick, LogCategory::Mission,
                    crew_name(s0.colonists@, mission.colonist_id) + " returned from "@ + spec_mission_name(mission.mission_type),
                    spec_mission_detail(mission, item, supplies as int, salvage as int, wasted_supplies as int)),
                injured ==> crate::game_state::entry_is(es[1], s0.tick, LogCategory::Mission,
                    crew_name(s0.colonists@, mission.colonist_id) + " was hurt"@, hurt_detail(mission, spec_injury_ticks(s0))),
                forall|j: int| 0 <= j < k ==> crate::game_state::entry_is(#[trigger] es[first_tech + j], s0.tick,
                    LogCategory::Technology, "Technology unlocked: "@ + crate::technology::spec_tech_name(unlocked@[j]),
                    unlock_detail(item, mission, unlocked@[j])),
            decreases unlocked@.len() - k,
        {
            let tech_id = unlocked[k];
            let mut t = String::new();
            t.append("Technology unlocked: ");
            t.append(tech_id.name());
            let mut d = String::new();
            d.append(item.name());
            d.append(" from ");
            d.append(definition.name);
            d.append(" completed research. ");
            d.append(tech_id.effect_text());
            state.push_log(LogCategory::Technology, t, d);
            proof {
                let old_es = es;
                lemma_extend_log_push(log0, es, state.event_log@.last());
                es = es.push(state.event_log@.last());
                assert forall|j: int| 0 <= j < k + 1 implies crate::game_state::entry_is(#[trigger] es[first_tech + j], s0.tick,
                    LogCategory::Technology, "Technology unlocked: "@ + crate::technology::spec_tech_name(unlocked@[j]),
                    unlock_detail(item, mission, unlocked@[j])) by {
                    if j < k {
                        assert(es[first_tech + j] == old_es[first_tech + j]);
                    } else {
                        let e = es[first_tech + j];
                        assert(e == state.event_log@.last());
                        assert(e.category == LogCategory::Technology);
                        assert(e.title@ == "Technology unlocked: "@ + crate::technology::spec_tech_name(unlocked@[j]));
                        assert(e.detail@ == unlock_detail(item, mission, unlocked@[j]));
                        assert(e.day == crate::time::spec_day(s0.tick));
                    }
                }
                assert(es[0] == old_es[0]);
                if injured {
                    assert(es[1] == old_es[1]);
                }
            }
            k = k + 1;
        }
        proof {
            assert(wasted_supplies as int == wasted_on_return(s0, mission));
            assert(unlocked@ == unlocked_by_return(s0, mission));
            assert(return_entries_ok(s0, mission, es, wasted_on_return(s0, mission), unlocked_by_return(s0, mission)));
            assert(state.event_log@ == crate::game_state::extend_log(s0.event_log@, es));
            if s0.wf() {
                lemma_extend_log_len(s0.event_log@, es);
                assert forall|j: int| 0 <= j < state.colonists@.len() implies
                    crate::colonist::relationships_summable(#[trigger] state.colonists@[j]) by {
                    assert(crate::colonist::relationships_summable(s0.colonists@[j]));
                }
            }
        }
        hurt
    }

    /// Clears injuries that have run out and logs each recovery.
    pub fn recover_injured_colonists(state: &mut GameState)
        ensures
            final(state).colonists@.len() == old(state).colonists@.len(),
            forall|i: int| 0 <= i < old(state).colonists@.len() ==> #[trigger] final(state).colonists@[i] == (
                if recovers(old(state).colonists@[i], old(state).tick) {
                    Colonist { injured_until_tick: None, ..old(state).colonists@[i] }
                } else {
                    old(state).colonists@[i]
                }),
            exists|es: Seq<crate::event_log::ColonyLogEntry>|
                final(state).event_log@ == crate::game_state::extend_log(old(state).event_log@, es)
                && es.len() == recovered_names(old(state).colonists@, old(state).tick).len()
                && forall|k: int| 0 <= k < es.len() ==> crate::game_state::entry_is(#[trigger] es[k], old(state).tick,
                    LogCategory::Mission, recovered_names(old(state).colonists@, old(state).tick)[k] + " recovered"@,
                    "They can be assigned to missions again."@),
            final(state).tick == old(state).tick,
            final(state).time == old(state).time,
            final(state).grid == old(state).grid,
            final(state).social_history == old(state).social_history,
            final(state).resources == old(state).resources,
            final(state).missions == old(state).missions,
            final(state).priority == old(state).priority,
            final(state).technology == old(state).technology,
            final(state).scenario == old(state).scenario,
            final(state).building_system == old(state).building_system,
            old(state).wf() ==> final(state).wf(),
    {
        let ghost s0 = *state;
        let mut names: Vec<String> = Vec::new();
        let mut i: usize = 0;
        while i < state.colonists.len()
            invariant
                state.colonists@.len() == s0.colonists@.len(),
                i <= s0.colonists@.len(),
                crate::game_state::same_except_colonists(s0, *state),
                names@.len() == recovered_names(s0.colonists@.take(i as int), s0.tick).len(),
                forall|k: int| 0 <= k < names@.len() ==> #[trigger] names@[k]@ == recovered_names(s0.colonists@.take(i as int), s0.tick)[k],
                forall|j: int| 0 <= j < i ==> #[trigger] state.colonists@[j] == (
                    if recovers(s0.colonists@[j], s0.tick) {
                        Colonist { injured_until_tick: None, ..s0.colonists@[j] }
                    } else {
                        s0.colonists@[j]
                    }),
                forall|j: int| i <= j < s0.colonists@.len() ==> #[trigger] state.colonists@[j] == s0.colonists@[j],
            decreases s0.colonists@.len() - i,
        {
            assert(s0.colonists@.take(i + 1).drop_last() == s0.colonists@.take(i as int));
            assert(s0.colonists@.take(i + 1).last() == s0.colonists@[i as int]);
            let recovered = match state.colonists[i].injured_until_tick {
                Some(t) => t <= state.tick,
                None => false,
            };
            if recovered {
                state.colonists[i].injured_until_tick = None;
                names.push(state.colonists[i].name.clone());
            }
            i = i + 1;
        }
        assert(s0.colonists@.take(s0.colonists@.len() as int) == s0.colonists@);
        let ghost mut es: Seq<crate::event_log::ColonyLogEntry> = Seq::empty();
        let ghost rn = recovered_names(s0.colonists@, s0.tick);
        let ghost s_mid = *state;
        let mut k: usize = 0;
        while k < names.len()
            invariant
                crate::game_state::same_except_log(s_mid, *state),
                k <= names@.len(),
                names@.len() == rn.len(),
                forall|j: int| 0 <= j < names@.len() ==> #[trigger] names@[j]@ == rn[j],
                es.len() == k,
                state.event_log@ == crate::game_state::extend_log(s0.event_log@, es),
                state.tick == s0.tick,
                forall|j: int| 0 <= j < k ==> crate::game_state::entry_is(#[trigger] es[j], s0.tick,
                    LogCategory::Mission, rn[j] + " recovered"@, "They can be assigned to missions again."@),
            decreases names@.len() - k,
        {
            let mut t = names[k].clone();
            t.append(" recovered");
            state.push_log(LogCategory::Mission, t, text("They can be assigned to missions again."));
            proof {
                let old_es = es;
                lemma_extend_log_push(s0.event_log@, es, state.event_log@.last());
                es = es.push(state.event_log@.last());
                assert forall|j: int| 0 <= j < k + 1 implies crate::game_state::entry_is(#[trigger] es[j], s0.tick,
                    LogCategory::Mission, rn[j] + " recovered"@, "They can be assigned to missions again."@) by {
                    if j < k {
                        assert(es[j] == old_es[j]);
                    }
                }
            }
            k = k + 1;
        }
        proof {
            if s0.wf() {
                lemma_extend_log_len(s0.event_log@, es);
                assert forall|j: int| 0 <= j < state.colonists@.len() implies
                    crate::colonist::relationships_summable(#[trigger] state.colonists@[j]) by {
                    assert(crate::colonist::relationships_summable(s0.colonists@[j]));
                }
            }
        }
    }
}

/// A launch starts the crew's cooldown: right after a successful launch,
/// any further launch at the same time is refused with the whole cooldown
/// of the mission just sent, and changes nothing.
pub proof fn law_launch_starts_cooldown(
    s0: GameState,
    t1: MissionType,
    s1: GameState,
    r1: Result<u32, LaunchMissionError>,
    t2: MissionType,
    s2: GameState,
    r2: Result<u32, LaunchMissionError>,
)
    requires
        launch_post(s0, s1, t1, r1),
        r1 is Ok,
        launch_post(s1, s2, t2, r2),
    ensures
        r2 == Err::<u32, LaunchMissionError>(LaunchMissionError::MissionCooldown { remaining_ticks: spec_cooldown(t1) }),
        s2 == s1,
{
}

proof fn lemma_first_ready_is_ready(cs: Seq<Colonist>, tick: u64, explorers_only: bool)
    ensures
        first_ready(cs, tick, explorers_only) matches Some(j) ==> 0 <= j < cs.len() && spec_can_start_mission(cs[j], tick),
    decreases cs.len(),
{
    if cs.len() > 0 {
        lemma_first_ready_is_ready(cs.drop_last(), tick, explorers_only);
        if let Some(j) = first_ready(cs.drop_last(), tick, explorers_only) {
            assert(cs.drop_last()[j] == cs[j]);
        }
    }
}

/// A colonist hurt on a mission sits out: right after the return it cannot
/// start a mission, and a launch at that time sends someone else or fails.
pub proof fn law_hurt_colonist_sits_out(
    s0: GameState,
    m: ActiveMission,
    s1: GameState,
    hurt: Option<usize>,
    t: MissionType,
    s2: GameState,
    r: Result<u32, LaunchMissionError>,
)
    requires
        s0.tick <= u64::MAX - 150,
        completion_colonists(s0, s1, m, hurt),
        completion_rest(s0, s1),
        hurt is Some,
        launch_post(s1, s2, t, r),
    ensures
        !spec_can_start_mission(s1.colonists@[hurt->0 as int], s1.tick),
        r is Ok ==> s2.colonists@[hurt->0 as int] == s1.colonists@[hurt->0 as int],
{
    let i = hurt->0 as int;
    lemma_first_with_id_found(s0.colonists@, m.colonist_id);
    match first_with_id(s0.colonists@, m.colonist_id) {
        Some(j) => {
            assert(spec_mission_injures(m));
            assert(s0.colonists@.len() == s0.colonists.len());
            assert(j == i);
            assert(s1.colonists@[i] == returned_colonist(s0.colonists@[i], true, (s0.tick + spec_injury_ticks(s0)) as u64));
        },
        None => {},
    }
    lemma_first_ready_is_ready(s1.colonists@, s1.tick, true);
    lemma_first_ready_is_ready(s1.colonists@, s1.tick, false);
}

proof fn lemma_first_ready_none(cs: Seq<Colonist>, tick: u64, explorers_only: bool)
    ensures
        first_ready(cs, tick, explorers_only) is None <==> forall|k: int| 0 <= k < cs.len() ==>
            !(spec_can_start_mission(#[trigger] cs[k], tick) && (!explorers_only || cs[k].job_preference == JobPreference::Explorer)),
    decreases cs.len(),
{
    if cs.len() > 0 {
        let d = cs.drop_last();
        lemma_first_ready_none(d, tick, explorers_only);
        if first_ready(cs, tick, explorers_only) is None {
            assert forall|k: int| 0 <= k < cs.len() implies
                !(spec_can_start_mission(#[trigger] cs[k], tick) && (!explorers_only || cs[k].job_preference == JobPreference::Explorer)) by {
                if k < cs.len() - 1 {
                    assert(d[k] == cs[k]);
                }
            }
        } else if first_ready(d, tick, explorers_only) is None {
            assert(cs[cs.len() - 1] == cs.last());
        } else {
            let j = first_ready(d, tick, explorers_only)->0;
            lemma_first_ready_is_ready(d, tick, explorers_only);
            lemma_first_ready_none_witness(d, tick, explorers_only);
            assert(d[j] == cs[j]);
        }
    }
}

proof fn lemma_first_ready_none_witness(cs: Seq<Colonist>, tick: u64, explorers_only: bool)
    ensures
        first_ready(cs, tick, explorers_only) matches Some(j) ==> 0 <= j < cs.len()
            && (!explorers_only || cs[j].job_preference == JobPreference::Explorer),
    decreases cs.len(),
{
    if cs.len() > 0 {
        lemma_first_ready_none_witness(cs.drop_last(), tick, explorers_only);
        if let Some(j) = first_ready(cs.drop_last(), tick, explorers_only) {
            assert(cs.drop_last()[j] == cs[j]);
        }
    }
}

/// The crew pick: an explorer who can go is sent before anyone else, the
/// one sent can start a mission, and nobody is picked exactly when no
/// colonist can start one.
pub proof fn law_mission_pick(cs: Seq<Colonist>, tick: u64)
    ensures
        spec_pick(cs, tick) is None <==> forall|k: int| 0 <= k < cs.len() ==> !spec_can_start_mission(#[trigger] cs[k], tick),
        spec_pick(cs, tick) matches Some(i) ==> 0 <= i < cs.len() && spec_can_start_mission(cs[i], tick),
        (exists|k: int| 0 <= k < cs.len() && spec_can_start_mission(#[trigger] cs[k], tick)
            && cs[k].job_preference == JobPreference::Explorer)
            ==> (spec_pick(cs, tick) matches Some(i) && cs[i].job_preference == JobPreference::Explorer),
{
    lemma_first_ready_none(cs, tick, true);
    lemma_first_ready_none(cs, tick, false);
    lemma_first_ready_is_ready(cs, tick, true);
    lemma_first_ready_is_ready(cs, tick, false);
    lemma_first_ready_none_witness(cs, tick, true);
}

/// Why a launch is refused: no Exploration Gate, else a crew still
/// regrouping (with the minutes left), else nobody able to go; a refused
/// launch changes nothing.
pub proof fn law_launch_refusals(s0: GameState, t: MissionType, s1: GameState, r: Result<u32, LaunchMissionError>)
    requires
        launch_post(s0, s1, t, r),
    ensures
        ({
            let gate = count_type(s0.building_system.placed(), BuildingType::ExplorationGate) > 0;
            let c = if s0.missions.next_launch_tick > s0.tick { s0.missions.next_launch_tick - s0.tick } else { 0 };
            let avail = exists|k: int| 0 <= k < s0.colonists@.len() && spec_can_start_mission(#[trigger] s0.colonists@[k], s0.tick);
            &&& (r == Err::<u32, LaunchMissionError>(LaunchMissionError::NoExplorationGate) <==> !gate)
            &&& (r == Err::<u32, LaunchMissionError>(LaunchMissionError::MissionCooldown { remaining_ticks: c as u64 }) <==> gate && c > 0)
            &&& (r == Err::<u32, LaunchMissionError>(LaunchMissionError::NoAvailableColonist) <==> gate && c == 0 && !avail)
            &&& (r is Err ==> s1 == s0)
        }),
{
    law_mission_pick(s0.colonists@, s0.tick);
}


/// One return in a pass: `mid` is `g` after completing `m`, and `next`
/// keeps `mid`'s colonists and missions (the colony condition may be judged
/// again and the log written in between).
pub open spec fn return_step(g: GameState, mid: GameState, next: GameState, m: ActiveMission, hurt: Option<usize>) -> bool {
    &&& completion_colonists(g, mid, m, hurt)
    &&& completion_rest(g, mid)
    &&& next.colonists == mid.colonists
    &&& next.missions == mid.missions
}

/// Every colonist of the first `n` missions of `due` that is on the roster
/// is idle, with no active mission.
pub open spec fn crews_home(cs: Seq<Colonist>, due: Seq<ActiveMission>, n: int) -> bool {
    forall|k: int| 0 <= k < n ==> match first_with_id(cs, (#[trigger] due[k]).colonist_id) {
        Some(i) => cs[i].state == ColonistState::Idle && cs[i].active_mission_id is None,
        None => true,
    }
}

proof fn lemma_return_steps(s1: GameState, due: Seq<ActiveMission>, mids: Seq<GameState>, gs: Seq<GameState>,
    hurts: Seq<Option<usize>>, j: int)
    requires
        0 <= j <= due.len(),
        gs.len() == due.len() + 1,
        mids.len() == due.len(),
        hurts.len() == due.len(),
        gs[0] == s1,
        forall|k: int| 0 <= k < due.len() ==> #[trigger] return_step(gs[k], mids[k], gs[k + 1], due[k], hurts[k]),
    ensures
        gs[j].colonists@.len() == s1.colonists@.len(),
        forall|q: int| 0 <= q < s1.colonists@.len() ==> #[trigger] gs[j].colonists@[q].id == s1.colonists@[q].id,
        gs[j].missions == s1.missions,
        crews_home(gs[j].colonists@, due, j),
    decreases j,
{
    if j > 0 {
        let p = j - 1;
        lemma_return_steps(s1, due, mids, gs, hurts, p);
        assert(return_step(gs[p], mids[p], gs[p + 1], due[p], hurts[p]));
        let c0 = gs[p].colonists@;
        let c1 = gs[j].colonists@;
        lemma_first_with_id_found(c0, due[p].colonist_id);
        assert forall|q: int| 0 <= q < c0.len() implies #[trigger] c1[q].id == c0[q].id by {}
        assert forall|q: int| 0 <= q < s1.colonists@.len() implies #[trigger] c1[q].id == s1.colonists@[q].id by {
            assert(c1[q].id == c0[q].id);
        }
        assert forall|k: int| 0 <= k < j implies match first_with_id(c1, (#[trigger] due[k]).colonist_id) {
            Some(i) => c1[i].state == ColonistState::Idle && c1[i].active_mission_id is None,
            None => true,
        } by {
            lemma_first_with_id_same_ids(c0, c1, due[k].colonist_id);
            lemma_first_with_id_found(c0, due[k].colonist_id);
        }
    }
}

/// A whole return pass: once the missions due now are taken off the active
/// list and each is completed in turn, the active list holds exactly the
/// missions still away, in their order, the roster keeps its size, and
/// every colonist of a returned mission is idle with no active mission.
pub proof fn law_return_pass(s0: GameState, s1: GameState, due: Seq<ActiveMission>, mids: Seq<GameState>,
    gs: Seq<GameState>, hurts: Seq<Option<usize>>)
    requires
        due == due_missions(s0.missions.active_missions@, s0.tick),
        s1.missions.active_missions@ == pending_missions(s0.missions.active_missions@, s0.tick),
        s1.colonists == s0.colonists,
        gs.len() == due.len() + 1,
        mids.len() == due.len(),
        hurts.len() == due.len(),
        gs[0] == s1,
        forall|k: int| 0 <= k < due.len() ==> #[trigger] return_step(gs[k], mids[k], gs[k + 1], due[k], hurts[k]),
    ensures
        gs.last().missions.active_missions@ == pending_missions(s0.missions.active_missions@, s0.tick),
        gs.last().colonists@.len() == s0.colonists@.len(),
        crews_home(gs.last().colonists@, due, due.len() as int),
{
    lemma_return_steps(s1, due, mids, gs, hurts, due.len() as int);
}

} // verus!
