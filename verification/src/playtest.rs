//! The reference strategy a headless playthrough follows: the priority it
//! picks, where the crew spends each hour, the build order it keeps, and
//! when it sends missions.
use crate::building::{spec_building_size, spec_salvage_cost, Building, BuildingType};
use crate::building_system::{fits, PlacementResult};
use crate::colonist::{spec_on_mission, ActivityLocation, ActivityType, Colonist, ColonistState, JobPreference};
use crate::game_state::GameState;
use crate::mission::spec_cooldown;
use crate::mission_system::{launch_post, spec_recommended, MissionSystem};
use crate::priority::{ColonyPriority, PriorityState};
use crate::resource_system::{need_floor, sizes_ok, spec_daily_need, ResourceSystem};
use crate::schedule::{activity_for_hour, spec_activity_for_hour};
use crate::types::Position;
use vstd::prelude::*;

verus! {

/// Survey until the research objective is met, then stockpile while
/// supplies cover less than three days, then recover.
pub open spec fn spec_reference_priority(s: GameState) -> ColonyPriority {
    if s.technology.unlocked@.len() < s.scenario.required_tech_unlocks {
        ColonyPriority::Survey
    } else if s.resources.supplies < need_floor(spec_daily_need(s)) * 3 {
        ColonyPriority::Stockpile
    } else {
        ColonyPriority::Recovery
    }
}

/// The id of the first placed building of a kind.
pub open spec fn first_of_type(bs: Seq<Building>, t: BuildingType) -> Option<u32>
    decreases bs.len(),
{
    if bs.len() == 0 {
        None
    } else if bs[0].building_type == t {
        Some(bs[0].id)
    } else {
        first_of_type(bs.drop_first(), t)
    }
}

/// The building a role works in during the reference run, when one exists.
pub open spec fn reference_workplace(j: JobPreference, mess: Option<u32>, workshop: Option<u32>, storage: Option<u32>,
    gate: Option<u32>) -> Option<(u32, BuildingType)>
{
    let (site, t) = match j {
        JobPreference::Explorer => (gate, BuildingType::ExplorationGate),
        JobPreference::Builder => (workshop, BuildingType::Workshop),
        JobPreference::Cook => (mess, BuildingType::MessHall),
        JobPreference::Hauler => (storage, BuildingType::Storage),
        JobPreference::Unassigned => (workshop, BuildingType::Workshop),
    };
    match site {
        Some(id) => Some((id, t)),
        None => None,
    }
}

/// A colonist at home after the hour's activity is handed out: working in
/// its role's first building, eating in the first Mess Hall, sleeping in the
/// first Habitat (or where it stands), or idle.
pub open spec fn hour_colonist(c: Colonist, a: ActivityType, mess: Option<u32>, habitat: Option<u32>, workshop: Option<u32>,
    storage: Option<u32>, gate: Option<u32>) -> Colonist
{
    if spec_on_mission(c) {
        c
    } else {
        let c1 = Colonist { current_activity: a, ..c };
        match a {
            ActivityType::Work => match reference_workplace(c.job_preference, mess, workshop, storage, gate) {
                Some((id, t)) => Colonist {
                    state: ColonistState::Working,
                    activity_location: ActivityLocation::Building { building_id: id, building_type: t },
                    ..c1
                },
                None => Colonist { state: ColonistState::Idle, activity_location: ActivityLocation::Unset, ..c1 },
            },
            ActivityType::Eat => Colonist {
                state: ColonistState::Eating,
                activity_location: match mess {
                    Some(id) => ActivityLocation::Building { building_id: id, building_type: BuildingType::MessHall },
                    None => ActivityLocation::Unset,
                },
                ..c1
            },
            ActivityType::Sleep => Colonist {
                state: ColonistState::Sleeping,
                activity_location: match habitat {
                    Some(id) => ActivityLocation::Building { building_id: id, building_type: BuildingType::Habitat },
                    None => ActivityLocation::Ground(c.position),
                },
                ..c1
            },
            ActivityType::Relax => Colonist { state: ColonistState::Idle, activity_location: ActivityLocation::Unset, ..c1 },
        }
    }
}

pub open spec fn hour_colonists(s: GameState, hour: u32) -> Seq<Colonist> {
    let bs = s.building_system.placed();
    s.colonists@.map_values(|c: Colonist| hour_colonist(c, spec_activity_for_hour(hour),
        first_of_type(bs, BuildingType::MessHall), first_of_type(bs, BuildingType::Habitat),
        first_of_type(bs, BuildingType::Workshop), first_of_type(bs, BuildingType::Storage),
        first_of_type(bs, BuildingType::ExplorationGate)))
}

/// When the reference run may send its next mission.
#[derive(Clone, Copy, Debug, PartialEq, Eq, Structural)]
pub struct ReferenceStrategy {
    pub missions_completed: u32,
    pub next_mission_tick: u64,
}

/// The buildings placed by a build step: `n` new buildings of kind `t`
/// under consecutive ids from `first_id`, at `ps[start]`, `ps[start + 1]`, ...
pub open spec fn planned_buildings(first_id: u32, t: BuildingType, ps: Seq<Position>, start: int, n: int) -> Seq<Building> {
    Seq::new(n as nat, |k: int| Building { id: (first_id + k) as u32, building_type: t, position: ps[start + k] })
}

pub open spec fn planned_ids(first_id: u32, n: int) -> Seq<u32> {
    Seq::new(n as nat, |k: int| (first_id + k) as u32)
}

/// What keeping a build order for kind `t` does: with `current` buildings of
/// that kind standing, the listed positions from `current` on are built in
/// turn (each paid for in salvage) until the list ends, salvage runs short,
/// or a footprint does not fit or is not free.
pub open spec fn build_step_post(s0: GameState, t: BuildingType, ps: Seq<Position>, s1: GameState) -> bool {
    let current = crate::resource_system::count_type(s0.building_system.placed(), t) as int;
    let first_id = s0.building_system.upcoming_id();
    let cost = spec_salvage_cost(t) as int;
    let (w, h) = spec_building_size(t);
    exists|n: int| {
        &&& 0 <= n
        &&& (n == 0 || current + n <= ps.len())
        &&& s1.building_system.placed() == s0.building_system.placed() + planned_buildings(first_id, t, ps, current, n)
        &&& s1.building_system.undo_ids() == s0.building_system.undo_ids() + planned_ids(first_id, n)
        &&& s1.building_system.upcoming_id() == first_id + n
        &&& s1.resources.salvage == s0.resources.salvage - n * cost
        &&& s1.resources == (crate::resources::ResourceState { salvage: s1.resources.salvage, ..s0.resources })
        &&& (current + n >= ps.len() || s1.resources.salvage < cost
            || !(fits(s1.grid, t, ps[current + n]) && s1.grid.area_free(ps[current + n], w as int, h as int)))
    }
}

/// Everything but the buildings, the map, and the salvage stays as it was.
pub open spec fn build_step_rest(s0: GameState, s1: GameState) -> bool {
    &&& s1.tick == s0.tick
    &&& s1.time == s0.time
    &&& s1.colonists == s0.colonists
    &&& s1.event_log == s0.event_log
    &&& s1.social_history == s0.social_history
    &&& s1.missions == s0.missions
    &&& s1.priority == s0.priority
    &&& s1.technology == s0.technology
    &&& s1.scenario == s0.scenario
}

pub open spec fn habitat_sites() -> Seq<Position> {
    seq![Position { x: 0, y: 0 }, Position { x: 0, y: 4 }, Position { x: 3, y: 4 }]
}

pub open spec fn mess_hall_sites() -> Seq<Position> {
    seq![Position { x: 3, y: 0 }]
}

pub open spec fn workshop_sites() -> Seq<Position> {
    seq![Position { x: 7, y: 0 }]
}

pub open spec fn storage_sites() -> Seq<Position> {
    seq![Position { x: 10, y: 0 }]
}

pub open spec fn gate_sites() -> Seq<Position> {
    seq![Position { x: 13, y: 0 }]
}

pub struct PlaytestSystem;

impl PlaytestSystem {
    /// Sets the priority the reference strategy wants now.
    pub fn update_priority(state: &mut GameState)
        requires
            sizes_ok(*old(state)),
        ensures
            *final(state) == (GameState {
                priority: PriorityState { active: spec_reference_priority(*old(state)) },
                ..*old(state)
            }),
    {
        let need = ResourceSystem::daily_supply_need(state);
        let need_or_one: i32 = if need > 1 { need } else { 1 };
        let desired = if state.technology.unlocked_count() < state.scenario.required_tech_unlocks {
            ColonyPriority::Survey
        } else if state.resources.supplies < need_or_one * 3 {
            ColonyPriority::Stockpile
        } else {
            ColonyPriority::Recovery
        };
        state.priority.active = desired;
    }

    /// The id of the first placed building of a kind.
    pub fn first_building_id(state: &GameState, building_type: BuildingType) -> (r: Option<u32>)
        ensures
            r == first_of_type(state.building_system.placed(), building_type),
    {
        let bs = state.building_system.buildings();
        let mut i: usize = 0;
        assert(bs@.subrange(0, bs@.len() as int) == bs@);
        while i < bs.len()
            invariant
                bs@ == state.building_system.placed(),
                i <= bs@.len(),
                first_of_type(bs@, building_type) == first_of_type(bs@.subrange(i as int, bs@.len() as int), building_type),
            decreases bs@.len() - i,
        {
            let ghost rest = bs@.subrange(i as int, bs@.len() as int);
            assert(rest[0] == bs@[i as int]);
            assert(rest.drop_first() == bs@.subrange(i + 1, bs@.len() as int));
            if bs[i].building_type == building_type {
                return Some(bs[i].id);
            }
            i = i + 1;
        }
        None
    }

    /// Hands every colonist at home the hour's activity in the first
    /// building of the kind it needs.
    pub fn assign_colonists_for_hour(state: &mut GameState, hour: u32)
        ensures
            final(state).colonists@ == hour_colonists(*old(state), hour),
            crate::game_state::same_except_colonists(*old(state), *final(state)),
    {
        let activity = activity_for_hour(hour);
        let mess_hall = Self::first_building_id(state, BuildingType::MessHall);
        let habitat = Self::first_building_id(state, BuildingType::Habitat);
        let workshop = Self::first_building_id(state, BuildingType::Workshop);
        let storage = Self::first_building_id(state, BuildingType::Storage);
        let exploration_gate = Self::first_building_id(state, BuildingType::ExplorationGate);
        let ghost s0 = *state;
        let mut i: usize = 0;
        while i < state.colonists.len()
            invariant
                i <= s0.colonists@.len(),
                state.colonists@.len() == s0.colonists@.len(),
                crate::game_state::same_except_colonists(s0, *state),
                activity == spec_activity_for_hour(hour),
                mess_hall == first_of_type(s0.building_system.placed(), BuildingType::MessHall),
                habitat == first_of_type(s0.building_system.placed(), BuildingType::Habitat),
                workshop == first_of_type(s0.building_system.placed(), BuildingType::Workshop),
                storage == first_of_type(s0.building_system.placed(), BuildingType::Storage),
                exploration_gate == first_of_type(s0.building_system.placed(), BuildingType::ExplorationGate),
                forall|k: int| 0 <= k < i ==> #[trigger] state.colonists@[k] == hour_colonist(s0.colonists@[k], activity,
                    mess_hall, habitat, workshop, storage, exploration_gate),
                forall|k: int| i <= k < s0.colonists@.len() ==> #[trigger] state.colonists@[k] == s0.colonists@[k],
            decreases s0.colonists@.len() - i,
        {
            if !state.colonists[i].is_on_mission() {
                state.colonists[i].current_activity = activity;
                match activity {
                    ActivityType::Work => {
                        let target: Option<(u32, BuildingType)> = match state.colonists[i].job_preference {
                            JobPreference::Explorer => match exploration_gate {
                                Some(id) => Some((id, BuildingType::ExplorationGate)),
                                None => None,
                            },
                            JobPreference::Builder => match workshop {
                                Some(id) => Some((id, BuildingType::Workshop)),
                                None => None,
                            },
                            JobPreference::Cook => match mess_hall {
                                Some(id) => Some((id, BuildingType::MessHall)),
                                None => None,
                            },
                            JobPreference::Hauler => match storage {
                                Some(id) => Some((id, BuildingType::Storage)),
                                None => None,
                            },
                            JobPreference::Unassigned => match workshop {
                                Some(id) => Some((id, BuildingType::Workshop)),
                                None => None,
                            },
                        };
                        match target {
                            Some((building_id, building_type)) => {
                                state.colonists[i].state = ColonistState::Working;
                                state.colonists[i].activity_location = ActivityLocation::Building { building_id, building_type };
                            },
                            None => {
                                state.colonists[i].state = ColonistState::Idle;
                                state.colonists[i].activity_location = ActivityLocation::Unset;
                            },
                        }
                    },
                    ActivityType::Eat => {
                        state.colonists[i].state = ColonistState::Eating;
                        state.colonists[i].activity_location = match mess_hall {
                            Some(building_id) => ActivityLocation::Building { building_id, building_type: BuildingType::MessHall },
                            None => ActivityLocation::Unset,
                        };
                    },
                    ActivityType::Sleep => {
                        state.colonists[i].state = ColonistState::Sleeping;
                        let here = state.colonists[i].position;
                        state.colonists[i].activity_location = match habitat {
                            Some(building_id) => ActivityLocation::Building { building_id, building_type: BuildingType::Habitat },
                            None => ActivityLocation::Ground(here),
                        };
                    },
                    ActivityType::Relax => {
                        state.colonists[i].state = ColonistState::Idle;
                        state.colonists[i].activity_location = ActivityLocation::Unset;
                    },
                }
            }
            i = i + 1;
        }
        assert(state.colonists@ =~= hour_colonists(s0, hour));
    }
    /// Sends the recommended mission when the strategy's wait is over,
    /// research is unfinished, and nobody is away; after a launch it waits
    /// out the mission's cooldown, after a refusal an hour.
    pub fn maybe_launch_mission(state: &mut GameState, strategy: &mut ReferenceStrategy)
        requires
            sizes_ok(*old(state)),
            old(state).missions.next_id < u32::MAX,
            old(state).tick <= u64::MAX - 60,
        ensures
            ({
                let s0 = *old(state);
                if s0.tick < old(strategy).next_mission_tick
                    || s0.technology.unlocked@.len() >= s0.scenario.required_tech_unlocks
                    || s0.missions.active_missions@.len() > 0 {
                    *final(state) == s0 && *final(strategy) == *old(strategy)
                } else {
                    let t = spec_recommended(s0);
                    exists|r: Result<u32, crate::mission_system::LaunchMissionError>| {
                        &&& launch_post(s0, *final(state), t, r)
                        &&& *final(strategy) == (ReferenceStrategy {
                            next_mission_tick: (s0.tick + if r is Ok { spec_cooldown(t) as int } else { 60 }) as u64,
                            ..*old(strategy)
                        })
                    }
                }
            }),
    {
        if state.tick < strategy.next_mission_tick || state.technology.unlocked_count() >= state.scenario.required_tech_unlocks
            || state.missions.active_count() > 0 {
            return;
        }
        let mission_type = MissionSystem::recommended_mission_type(state);
        let result = MissionSystem::launch_mission(state, mission_type);
        if result.is_ok() {
            strategy.next_mission_tick = state.tick + mission_type.definition().cooldown_minutes;
        } else {
            strategy.next_mission_tick = state.tick + 60;
        }
    }

    /// Keeps the build order for one kind of building: builds the listed
    /// positions beyond those already standing, paying salvage for each,
    /// until the list ends, salvage runs short, or a placement is refused.
    pub fn ensure_building_count(state: &mut GameState, building_type: BuildingType, positions: &[Position])
        requires
            old(state).wf(),
            old(state).building_system.upcoming_id() + positions@.len() < u32::MAX,
        ensures
            final(state).wf(),
            build_step_post(*old(state), building_type, positions@, *final(state)),
            build_step_rest(*old(state), *final(state)),
    {
        let ghost s0 = *state;
        let current = ResourceSystem::building_count(&state.building_system, building_type);
        let cost = building_type.salvage_cost();
        let ghost first_id = s0.building_system.upcoming_id();
        let ghost size = crate::building::spec_building_size(building_type);
        let mut i: usize = current;
        let ghost mut n: int = 0;
        proof {
            assert(planned_buildings(first_id, building_type, positions@, current as int, 0) =~= Seq::<Building>::empty());
            assert(planned_ids(first_id, 0) =~= Seq::<u32>::empty());
            assert(s0.building_system.placed() + Seq::<Building>::empty() == s0.building_system.placed());
            assert(s0.building_system.undo_ids() + Seq::<u32>::empty() == s0.building_system.undo_ids());
        }
        while i < positions.len()
            invariant_except_break
                current as int + n == i,
            invariant
                state.wf(),
                current == crate::resource_system::count_type(s0.building_system.placed(), building_type),
                cost == spec_salvage_cost(building_type),
                first_id == s0.building_system.upcoming_id(),
                first_id + positions@.len() < u32::MAX,
                size == crate::building::spec_building_size(building_type),
                0 <= n,
                n == 0 || current + n <= positions@.len(),
                current + n <= i || n == 0,
                state.building_system.placed() == s0.building_system.placed()
                    + planned_buildings(first_id, building_type, positions@, current as int, n),
                state.building_system.undo_ids() == s0.building_system.undo_ids() + planned_ids(first_id, n),
                state.building_system.upcoming_id() == first_id + n,
                state.resources.salvage == s0.resources.salvage - n * cost,
                state.resources == (crate::resources::ResourceState { salvage: state.resources.salvage, ..s0.resources }),
                build_step_rest(s0, *state),
            ensures
                state.wf(),
                state.building_system.placed() == s0.building_system.placed()
                    + planned_buildings(first_id, building_type, positions@, current as int, n),
                state.building_system.undo_ids() == s0.building_system.undo_ids() + planned_ids(first_id, n),
                state.building_system.upcoming_id() == first_id + n,
                state.resources.salvage == s0.resources.salvage - n * cost,
                state.resources == (crate::resources::ResourceState { salvage: state.resources.salvage, ..s0.resources }),
                build_step_rest(s0, *state),
                0 <= n,
                n == 0 || current + n <= positions@.len(),
                current + n >= positions@.len() || state.resources.salvage < cost
                    || !(fits(state.grid, building_type, positions@[current + n]) && state.grid.area_free(positions@[current + n],
                        size.0 as int, size.1 as int)),
            decreases positions@.len() - i,
        {
            if !ResourceSystem::can_afford_building(state, building_type) {
                break;
            }
            let position = positions[i];
            let ghost before = *state;
            proof {
                state.building_system.lemma_consistent_grid(&state.grid);
            }
            let result = state.building_system.try_place_building(&mut state.grid, building_type, position);
            match result {
                PlacementResult::Success(_) => {
                    state.resources.spend_salvage(cost);
                    proof {
                        let n1 = n + 1;
                        assert(s0.resources.salvage - n1 * cost == s0.resources.salvage - n * cost - cost) by (nonlinear_arith)
                            requires
                                n1 == n + 1,
                        ;
                        assert(planned_buildings(first_id, building_type, positions@, current as int, n1)
                            =~= planned_buildings(first_id, building_type, positions@, current as int, n).push(
                                Building { id: before.building_system.upcoming_id(), building_type, position }));
                        assert(planned_ids(first_id, n1) =~= planned_ids(first_id, n).push(before.building_system.upcoming_id()));
                        n = n1;
                    }
                },
                _ => {
                    break;
                },
            }
            i = i + 1;
        }
        proof {
            assert(build_step_post(s0, building_type, positions@, *state));
        }
    }

    /// The reference build order: three habitats, then one Mess Hall,
    /// Workshop, Storage, and Exploration Gate along the top of the map.
    pub fn manage_build_plan(state: &mut GameState)
        requires
            old(state).wf(),
            old(state).building_system.upcoming_id() + 7 < u32::MAX,
        ensures
            final(state).wf(),
            exists|s1: GameState, s2: GameState, s3: GameState, s4: GameState| {
                &&& build_step_post(*old(state), BuildingType::Habitat, habitat_sites(), s1)
                &&& build_step_post(s1, BuildingType::MessHall, mess_hall_sites(), s2)
                &&& build_step_post(s2, BuildingType::Workshop, workshop_sites(), s3)
                &&& build_step_post(s3, BuildingType::Storage, storage_sites(), s4)
                &&& build_step_post(s4, BuildingType::ExplorationGate, gate_sites(), *final(state))
            },
            build_step_rest(*old(state), *final(state)),
    {
        let habitats = [Position::new(0, 0), Position::new(0, 4), Position::new(3, 4)];
        let mess_halls = [Position::new(3, 0)];
        let workshops = [Position::new(7, 0)];
        let storages = [Position::new(10, 0)];
        let gates = [Position::new(13, 0)];
        assert(habitats@ =~= habitat_sites());
        assert(mess_halls@ =~= mess_hall_sites());
        assert(workshops@ =~= workshop_sites());
        assert(storages@ =~= storage_sites());
        assert(gates@ =~= gate_sites());
        let ghost s0 = *state;
        Self::ensure_building_count(state, BuildingType::Habitat, &habitats);
        let ghost s1 = *state;
        Self::ensure_building_count(state, BuildingType::MessHall, &mess_halls);
        let ghost s2 = *state;
        Self::ensure_building_count(state, BuildingType::Workshop, &workshops);
        let ghost s3 = *state;
        Self::ensure_building_count(state, BuildingType::Storage, &storages);
        let ghost s4 = *state;
        Self::ensure_building_count(state, BuildingType::ExplorationGate, &gates);
        assert(build_step_post(s0, BuildingType::Habitat, habitat_sites(), s1)
            && build_step_post(s1, BuildingType::MessHall, mess_hall_sites(), s2)
            && build_step_post(s2, BuildingType::Workshop, workshop_sites(), s3)
            && build_step_post(s3, BuildingType::Storage, storage_sites(), s4)
            && build_step_post(s4, BuildingType::ExplorationGate, gate_sites(), *state));
    }

}


} // verus!
