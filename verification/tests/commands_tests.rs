use final_landing::building::BuildingType;
use final_landing::colonist::{Colonist, JobPreference, Trait};
use final_landing::commands::{
    apply_assign_batch_action, assign_selected_colonist_to_building, clear_building_assignments, launch_mission,
    place_building, set_priority, toggle_relationship_directive, undo_last_building, update_assign_roster_page,
    AssignBatchAction, AssignPanel,
};
use final_landing::priority::ColonyPriority;
use final_landing::directives::{DirectiveChange, PairDirective};
use final_landing::event_log::LogCategory;
use final_landing::game_state::{GameState, MAX_EVENT_LOG_ENTRIES};
use final_landing::mission::MissionType;
use final_landing::mission_system::LaunchMissionError;
use final_landing::roster::{AssignRosterFilter, AssignRosterSort};
use final_landing::types::Position;

fn panel(selected: Option<u32>) -> AssignPanel {
    AssignPanel {
        selected_colonist_id: selected,
        page: 0,
        filter: AssignRosterFilter::All,
        sort: AssignRosterSort::Roster,
        role_filter: None,
        building_filter: None,
    }
}

fn builder(id: u32, name: &str) -> Colonist {
    Colonist::new(id, name.to_string(), Position::new(id as i32, 0), Trait::HardWorker, JobPreference::Builder)
}

fn last_log_title(state: &GameState) -> String {
    state.event_log.last().map(|e| e.title.clone()).unwrap_or_default()
}

#[test]
fn placing_spends_salvage_and_logs() {
    let mut state = GameState::new();
    let salvage = state.resources.salvage;

    let id = place_building(&mut state, BuildingType::Storage, Position::new(2, 2));

    assert_eq!(id, Some(1));
    assert_eq!(state.resources.salvage, salvage - 6);
    assert_eq!(state.building_system.building_count(), 1);
    assert_eq!(last_log_title(&state), "Storage placed");
    let detail = &state.event_log.last().unwrap().detail;
    assert!(detail.contains("Building #1 cost 6 salvage"));
}

#[test]
fn blocked_placement_changes_nothing_but_the_log() {
    let mut state = GameState::new();
    state.resources.salvage = 3;

    let id = place_building(&mut state, BuildingType::Habitat, Position::new(2, 2));

    assert_eq!(id, None);
    assert_eq!(state.resources.salvage, 3);
    assert_eq!(state.building_system.building_count(), 0);
    assert_eq!(last_log_title(&state), "Cannot place Habitat");
    assert_eq!(state.event_log.last().unwrap().category, LogCategory::System);
}

#[test]
fn undo_refunds_and_clears_pins() {
    let mut state = GameState::new();
    state.colonists.push(builder(1, "Alice"));
    let salvage = state.resources.salvage;
    let id = place_building(&mut state, BuildingType::Habitat, Position::new(2, 2)).unwrap();
    state.colonists[0].assigned_habitat = Some(id);
    let mut assign_panel = panel(Some(1));
    assign_panel.building_filter = Some(id);

    let undone = undo_last_building(&mut state, &mut assign_panel);

    assert_eq!(undone, Some(id));
    assert_eq!(state.resources.salvage, salvage);
    assert_eq!(state.colonists[0].assigned_habitat, None);
    assert_eq!(assign_panel.building_filter, None);
    assert_eq!(state.building_system.building_count(), 0);
    let detail = &state.event_log.last().unwrap().detail;
    assert!(detail.contains("refunded 8 salvage"));
    assert!(detail.contains("Cleared room pins for Alice"));
}

#[test]
fn undo_with_nothing_placed_does_nothing() {
    let mut state = GameState::new();
    let mut assign_panel = panel(None);
    assert_eq!(undo_last_building(&mut state, &mut assign_panel), None);
    assert!(state.event_log.is_empty());
}

#[test]
fn clearing_assignments_names_the_unpinned() {
    let mut state = GameState::new();
    state.colonists.push(builder(1, "Alice"));
    state.colonists.push(builder(2, "Bob"));
    state.colonists[0].assigned_workplace = Some(4);
    state.colonists[1].assigned_habitat = Some(5);
    let mut assign_panel = panel(None);

    let cleared = clear_building_assignments(&mut state, &mut assign_panel, 4);

    assert_eq!(cleared, vec!["Alice".to_string()]);
    assert_eq!(state.colonists[0].assigned_workplace, None);
    assert_eq!(state.colonists[1].assigned_habitat, Some(5));
}

#[test]
fn failed_launch_is_logged() {
    let mut state = GameState::new();
    state.colonists.push(builder(1, "Alice"));

    let result = launch_mission(&mut state, MissionType::SupplyRun);

    assert_eq!(result, Err(LaunchMissionError::NoExplorationGate));
    assert_eq!(last_log_title(&state), "No Exploration Gate");
    assert!(state.event_log.last().unwrap().detail.contains("Supply Run"));
}

#[test]
fn directive_toggle_is_logged_both_ways() {
    let mut state = GameState::new();
    state.colonists.push(builder(1, "Alice"));
    state.colonists.push(builder(2, "Bob"));
    state.colonists[0].relationships.insert(2, 22);
    state.colonists[1].relationships.insert(1, 18);

    let first = toggle_relationship_directive(&mut state, 1, 2);
    assert_eq!(first, Ok(DirectiveChange::Applied(PairDirective::Pair)));
    let second = toggle_relationship_directive(&mut state, 1, 2);
    assert_eq!(second, Ok(DirectiveChange::Cleared(PairDirective::Pair)));

    assert_eq!(state.event_log.len(), 2);
    assert_eq!(last_log_title(&state), "Relationship directive cleared");
    assert!(state.event_log[1].detail.contains("Alice and Bob no longer have a forced pair directive."));
    assert_eq!(state.colonists[0].preferred_partner_id, None);
}

#[test]
fn room_pins_toggle_and_incompatible_rooms_are_refused() {
    let mut state = GameState::new();
    state.colonists.push(builder(1, "Alice"));
    let habitat = place_building(&mut state, BuildingType::Habitat, Position::new(0, 0)).unwrap();
    let hall = place_building(&mut state, BuildingType::MessHall, Position::new(4, 0)).unwrap();
    let habitat_building = *state.building_system.get_building(habitat).unwrap();
    let hall_building = *state.building_system.get_building(hall).unwrap();

    assign_selected_colonist_to_building(&mut state, 1, &habitat_building);
    assert_eq!(state.colonists[0].assigned_habitat, Some(habitat));
    assert_eq!(last_log_title(&state), "Recovery room pinned");

    assign_selected_colonist_to_building(&mut state, 1, &habitat_building);
    assert_eq!(state.colonists[0].assigned_habitat, None);
    assert_eq!(last_log_title(&state), "Recovery room pin cleared");

    assign_selected_colonist_to_building(&mut state, 1, &hall_building);
    assert_eq!(state.colonists[0].assigned_workplace, None);
    assert_eq!(last_log_title(&state), "Room assignment blocked");
}

#[test]
fn batch_action_copies_the_work_pin_to_everyone_compatible() {
    let mut state = GameState::new();
    state.colonists.push(builder(1, "Alice"));
    state.colonists.push(builder(2, "Bob"));
    state.colonists.push(Colonist::new(3, "Diana".to_string(), Position::new(3, 0), Trait::Gourmet, JobPreference::Cook));
    let workshop = place_building(&mut state, BuildingType::Workshop, Position::new(0, 2)).unwrap();
    state.colonists[0].assigned_workplace = Some(workshop);

    apply_assign_batch_action(&mut state, &panel(Some(1)), AssignBatchAction::AllWork, &[]);

    assert_eq!(state.colonists[1].assigned_workplace, Some(workshop));
    assert_eq!(state.colonists[2].assigned_workplace, None);
}

#[test]
fn batch_action_without_a_pin_is_logged() {
    let mut state = GameState::new();
    state.colonists.push(builder(1, "Alice"));
    state.colonists.push(builder(2, "Bob"));

    apply_assign_batch_action(&mut state, &panel(Some(1)), AssignBatchAction::PageHome, &[]);

    assert_eq!(state.colonists[1].assigned_habitat, None);
    assert_eq!(state.event_log.len(), 1);
}

#[test]
fn event_log_keeps_only_the_newest_entries() {
    let mut state = GameState::new();
    for i in 0..(MAX_EVENT_LOG_ENTRIES + 5) {
        state.push_log(LogCategory::System, format!("entry {}", i), String::new());
    }
    assert_eq!(state.event_log.len(), MAX_EVENT_LOG_ENTRIES);
    assert_eq!(state.event_log[0].title, "entry 5");
    assert_eq!(state.event_log.last().unwrap().title, format!("entry {}", MAX_EVENT_LOG_ENTRIES + 4));
}

#[test]
fn setting_a_new_priority_is_logged_once() {
    let mut state = GameState::new();
    set_priority(&mut state, ColonyPriority::Survey);
    assert_eq!(state.priority.active, ColonyPriority::Survey);
    assert_eq!(last_log_title(&state), "Priority set: Survey");
    assert_eq!(state.event_log.last().unwrap().detail, ColonyPriority::Survey.description());
    set_priority(&mut state, ColonyPriority::Survey);
    assert_eq!(state.event_log.len(), 1);
}

#[test]
fn roster_pages_stay_within_range() {
    let mut state = GameState::new();
    for id in 0..8 {
        state.colonists.push(builder(id, &format!("Colonist {}", id)));
    }
    let mut assign_panel = panel(Some(5));
    update_assign_roster_page(&state, &mut assign_panel, false);
    assert_eq!(assign_panel.page, 0);
    update_assign_roster_page(&state, &mut assign_panel, true);
    assert_eq!(assign_panel.page, 1);
    update_assign_roster_page(&state, &mut assign_panel, true);
    assert_eq!(assign_panel.page, 1);
    assign_panel.page = 9;
    update_assign_roster_page(&state, &mut assign_panel, false);
    assert_eq!(assign_panel.page, 1);
}
