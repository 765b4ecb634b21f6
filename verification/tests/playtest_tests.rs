use final_landing::building::BuildingType;
use final_landing::colonist::{ActivityLocation, ActivityType, Colonist, ColonistState, JobPreference, Trait};
use final_landing::colonist_spawner::spawn_initial_colonists;
use final_landing::game_state::GameState;
use final_landing::mission::MissionItem;
use final_landing::mission_system::MissionSystem;
use final_landing::playtest::{PlaytestSystem, ReferenceStrategy};
use final_landing::priority::ColonyPriority;
use final_landing::types::Position;

fn place(state: &mut GameState, building_type: BuildingType, position: Position) {
    state.building_system.try_place_building(&mut state.grid, building_type, position);
}

#[test]
fn reference_priority_surveys_until_research_is_done() {
    let mut state = GameState::new();
    PlaytestSystem::update_priority(&mut state);
    assert_eq!(state.priority.active, ColonyPriority::Survey);

    state.technology.add_item(MissionItem::MedicinalGel);
    state.technology.add_item(MissionItem::AlienCircuit);
    state.technology.add_item(MissionItem::NutrientPods);
    state.colonists.push(Colonist::new(1, "A".to_string(), Position::new(0, 0), Trait::HardWorker, JobPreference::Builder));
    state.resources.supplies = 2;
    PlaytestSystem::update_priority(&mut state);
    assert_eq!(state.priority.active, ColonyPriority::Stockpile);

    state.resources.supplies = 3;
    PlaytestSystem::update_priority(&mut state);
    assert_eq!(state.priority.active, ColonyPriority::Recovery);
}

#[test]
fn reference_build_order_spends_salvage_in_turn() {
    let mut state = GameState::new();
    assert_eq!(state.resources.salvage, 34);

    PlaytestSystem::manage_build_plan(&mut state);

    let kinds: Vec<BuildingType> = state.building_system.buildings().iter().map(|b| b.building_type).collect();
    assert_eq!(kinds, vec![BuildingType::Habitat, BuildingType::Habitat, BuildingType::Habitat, BuildingType::Workshop]);
    assert_eq!(state.resources.salvage, 0);
    assert_eq!(PlaytestSystem::first_building_id(&state, BuildingType::Workshop), Some(4));
    assert_eq!(PlaytestSystem::first_building_id(&state, BuildingType::MessHall), None);

    state.resources.salvage = 12;
    PlaytestSystem::manage_build_plan(&mut state);
    assert_eq!(state.building_system.building_count(), 5);
    assert_eq!(PlaytestSystem::first_building_id(&state, BuildingType::MessHall), Some(5));
}

#[test]
fn blocked_site_stops_the_build_step() {
    let mut state = GameState::new();
    place(&mut state, BuildingType::Storage, Position::new(0, 0));
    let salvage = state.resources.salvage;

    PlaytestSystem::ensure_building_count(&mut state, BuildingType::Habitat, &[Position::new(1, 1), Position::new(6, 6)]);

    assert_eq!(state.building_system.building_count(), 1);
    assert_eq!(state.resources.salvage, salvage);
}

#[test]
fn hour_assignment_sends_crews_to_their_buildings() {
    let mut state = GameState::new();
    spawn_initial_colonists(&mut state);
    place(&mut state, BuildingType::Workshop, Position::new(7, 0));
    let workshop = PlaytestSystem::first_building_id(&state, BuildingType::Workshop).unwrap();

    PlaytestSystem::assign_colonists_for_hour(&mut state, 9);

    let alice = state.colonists.iter().find(|c| c.id == 0).unwrap();
    assert_eq!(alice.state, ColonistState::Working);
    assert_eq!(alice.current_activity, ActivityType::Work);
    assert_eq!(alice.activity_location, ActivityLocation::Building { building_id: workshop, building_type: BuildingType::Workshop });
    let bob = state.colonists.iter().find(|c| c.id == 1).unwrap();
    assert_eq!(bob.state, ColonistState::Idle);
    assert_eq!(bob.activity_location, ActivityLocation::Unset);

    PlaytestSystem::assign_colonists_for_hour(&mut state, 23);
    let alice = state.colonists.iter().find(|c| c.id == 0).unwrap();
    assert_eq!(alice.state, ColonistState::Sleeping);
    assert_eq!(alice.activity_location, ActivityLocation::Ground(alice.position));
}

#[test]
fn reference_launches_wait_for_the_cooldown() {
    let mut state = GameState::new();
    state.colonists.push(Colonist::new(1, "Scout".to_string(), Position::new(3, 3), Trait::FastWalker, JobPreference::Explorer));
    let mut strategy = ReferenceStrategy { missions_completed: 0, next_mission_tick: 0 };

    PlaytestSystem::maybe_launch_mission(&mut state, &mut strategy);
    assert!(state.missions.active_missions.is_empty());
    assert_eq!(strategy.next_mission_tick, 60);

    place(&mut state, BuildingType::ExplorationGate, Position::new(0, 0));
    state.tick = 60;
    let expected = MissionSystem::recommended_mission_type(&state);
    PlaytestSystem::maybe_launch_mission(&mut state, &mut strategy);
    assert_eq!(state.missions.active_missions.len(), 1);
    let sent = state.missions.active_missions[0].mission_type;
    assert_eq!(sent, expected);
    assert_eq!(strategy.next_mission_tick, 60 + sent.definition().cooldown_minutes);

    PlaytestSystem::maybe_launch_mission(&mut state, &mut strategy);
    assert_eq!(state.missions.active_missions.len(), 1);
}
