use final_landing::advisor_system::{AdvisorSeverity, AdvisorSystem};
use final_landing::building::BuildingType;
use final_landing::colonist::{ActivityLocation, Colonist, ColonistState, JobPreference, Trait};
use final_landing::colonist_spawner::spawn_initial_colonists;
use final_landing::directives::{DirectiveChange, DirectiveError, PairDirective, RelationshipDirectiveSystem};
use final_landing::game_state::GameState;
use final_landing::grid::CellType;
use final_landing::mission::{ActiveMission, MissionItem, MissionType};
use final_landing::mission_system::{LaunchMissionError, MissionSystem};
use final_landing::planning_system::PlanningSystem;
use final_landing::priority::ColonyPriority;
use final_landing::resource_system::ResourceSystem;
use final_landing::resources::ColonyCondition;
use final_landing::scenario::ScenarioOutcome;
use final_landing::scenario_system::ScenarioSystem;
use final_landing::social_system::{RelationshipSource, SocialSystem};
use final_landing::summary_system::SummarySystem;
use final_landing::technology::TechId;
use final_landing::time::{TimeSpeed, TICKS_PER_DAY};
use final_landing::types::Position;

fn colonist(id: u32, name: &str) -> Colonist {
    Colonist::new(id, name.to_string(), Position::new(id as i32, 0), Trait::HardWorker, JobPreference::Builder)
}

fn numbered(id: u32) -> Colonist {
    colonist(id, &format!("Colonist {}", id))
}

fn scout() -> Colonist {
    Colonist::new(1, "Scout".to_string(), Position::new(3, 3), Trait::FastWalker, JobPreference::Explorer)
}

fn place(state: &mut GameState, building_type: BuildingType, position: Position) {
    state.building_system.try_place_building(&mut state.grid, building_type, position);
}

fn add_gate(state: &mut GameState) {
    place(state, BuildingType::ExplorationGate, Position::new(0, 0));
}

fn returning_mission(mission_type: MissionType, danger_percent: u32, priority: ColonyPriority) -> ActiveMission {
    ActiveMission {
        id: 1,
        colonist_id: 1,
        mission_type,
        started_tick: 0,
        completes_at_tick: 1,
        danger_percent,
        priority,
    }
}

/// Brings every due mission home, as the simulation does at each tick.
fn finish_due_missions(state: &mut GameState) -> Vec<Option<usize>> {
    let due = MissionSystem::take_due_missions(state);
    due.into_iter().map(|mission| MissionSystem::complete_mission(state, mission)).collect()
}

#[test]
fn return_pass_frees_every_returning_crew_and_keeps_the_rest_away() {
    let mut state = GameState::new();
    state.tick = 100;
    for id in 1..=3 {
        let mut c = numbered(id);
        c.state = ColonistState::OnMission { mission_id: id };
        c.active_mission_id = Some(id);
        state.colonists.push(c);
    }
    for (id, completes_at_tick) in [(1u32, 90u64), (2, 200), (3, 100)] {
        let mut m = returning_mission(MissionType::SupplyRun, 0, ColonyPriority::Stockpile);
        m.id = id;
        m.colonist_id = id;
        m.completes_at_tick = completes_at_tick;
        state.missions.active_missions.push(m);
    }

    finish_due_missions(&mut state);

    assert_eq!(state.missions.active_missions.len(), 1);
    assert_eq!(state.missions.active_missions[0].id, 2);
    for index in [0usize, 2] {
        assert_eq!(state.colonists[index].state, ColonistState::Idle);
        assert_eq!(state.colonists[index].active_mission_id, None);
    }
    assert_eq!(state.colonists[1].state, ColonistState::OnMission { mission_id: 2 });
    assert_eq!(state.colonists[1].active_mission_id, Some(2));
}

fn check_launch_creates_typed_mission() {
    let mut state = GameState::new();
    add_gate(&mut state);
    state.colonists.push(scout());

    let mission_id = MissionSystem::launch_mission(&mut state, MissionType::DeepSurvey).unwrap();

    assert_eq!(mission_id, 1);
    assert_eq!(state.missions.active_missions[0].mission_type, MissionType::DeepSurvey);
    assert_eq!(
        state.missions.active_missions[0].remaining_ticks(state.tick),
        MissionType::DeepSurvey.definition().duration_minutes
    );
    assert_eq!(state.missions.cooldown_remaining(state.tick), MissionType::DeepSurvey.definition().cooldown_minutes);
    assert!(state.colonists[0].is_on_mission());
}

fn hurt_scout_state() -> GameState {
    let mut state = GameState::new();
    add_gate(&mut state);
    let mut colonist = scout();
    colonist.injured_until_tick = Some(10);
    state.colonists.push(colonist);
    state
}

fn check_cooldown_blocks_relaunch() {
    let mut state = GameState::new();
    add_gate(&mut state);
    state.colonists.push(scout());
    state.colonists.push(Colonist::new(
        2,
        "Backup".to_string(),
        Position::new(4, 3),
        Trait::HardWorker,
        JobPreference::Builder,
    ));

    MissionSystem::launch_mission(&mut state, MissionType::SupplyRun).unwrap();

    assert_eq!(
        MissionSystem::launch_mission(&mut state, MissionType::PerimeterScan),
        Err(LaunchMissionError::MissionCooldown {
            remaining_ticks: MissionType::SupplyRun.definition().cooldown_minutes
        })
    );
}

#[test]
fn mission_system_test_launch_creates_typed_mission_and_starts_cooldown() {
    check_launch_creates_typed_mission();
}

#[test]
fn launch_test_launch_creates_typed_mission_and_starts_cooldown() {
    check_launch_creates_typed_mission();
}

#[test]
fn mission_system_test_hurt_colonist_cannot_launch() {
    let mut state = hurt_scout_state();
    assert_eq!(MissionSystem::launch_perimeter_scan(&mut state), Err(LaunchMissionError::NoAvailableColonist));
}

#[test]
fn launch_test_hurt_colonist_cannot_launch() {
    let mut state = hurt_scout_state();
    assert_eq!(
        MissionSystem::launch_mission(&mut state, MissionType::PerimeterScan),
        Err(LaunchMissionError::NoAvailableColonist)
    );
}

#[test]
fn mission_system_test_mission_cooldown_blocks_rapid_relaunch() {
    check_cooldown_blocks_relaunch();
}

#[test]
fn launch_test_mission_cooldown_blocks_rapid_relaunch() {
    check_cooldown_blocks_relaunch();
}

#[test]
fn launch_without_a_gate_is_refused() {
    let mut state = GameState::new();
    state.colonists.push(scout());
    assert_eq!(
        MissionSystem::launch_mission(&mut state, MissionType::SupplyRun),
        Err(LaunchMissionError::NoExplorationGate)
    );
    assert!(state.missions.active_missions.is_empty());
    assert!(!state.colonists[0].is_on_mission());
}

#[test]
fn test_mission_item_unlocks_technology() {
    let mut state = GameState::new();
    state.colonists.push(scout());
    state.missions.active_missions.push(returning_mission(MissionType::PerimeterScan, 0, ColonyPriority::Survey));
    state.tick = 1;

    finish_due_missions(&mut state);

    assert!(state.technology.has(TechId::FieldMedicine));
}

#[test]
fn test_mission_completion_log_names_mission_rewards_and_priority() {
    let mut state = GameState::new();
    state.colonists.push(scout());
    state.missions.active_missions.push(returning_mission(MissionType::SupplyRun, 0, ColonyPriority::Stockpile));
    state.tick = 1;

    finish_due_missions(&mut state);

    let log = state
        .event_log
        .iter()
        .find(|entry| entry.title == "Scout returned from Supply Run")
        .expect("mission completion should log the mission name");
    assert!(log.detail.contains("Stockpile priority"));
    assert!(log.detail.contains("Found Salvage Cache"));
    assert!(log.detail.contains("Stored"));
    assert!(log.detail.contains("Added"));
    assert!(log.detail.contains("resource-focused return"));
}

#[test]
fn test_dangerous_mission_can_hurt_colonist() {
    let mut state = GameState::new();
    state.colonists.push(scout());
    state.missions.active_missions.push(returning_mission(MissionType::PerimeterScan, 100, ColonyPriority::Stockpile));
    state.tick = 1;

    let hurt = finish_due_missions(&mut state);

    assert_eq!(hurt, vec![Some(0)]);
    assert!(state.colonists[0].is_hurt(state.tick));
    assert!(!state.colonists[0].can_start_mission(state.tick));
}

#[test]
fn safe_mission_returns_colonist_unhurt_and_clears_the_mission() {
    let mut state = GameState::new();
    state.colonists.push(scout());
    state.missions.active_missions.push(returning_mission(MissionType::PerimeterScan, 0, ColonyPriority::Stockpile));
    state.tick = 1;

    let hurt = finish_due_missions(&mut state);

    assert_eq!(hurt, vec![None]);
    assert!(state.missions.active_missions.is_empty());
    assert!(!state.colonists[0].is_hurt(state.tick));
}

#[test]
fn missions_not_yet_due_stay_away() {
    let mut state = GameState::new();
    state.colonists.push(scout());
    let mut mission = returning_mission(MissionType::SupplyRun, 0, ColonyPriority::Stockpile);
    mission.completes_at_tick = 50;
    state.missions.active_missions.push(mission);
    state.tick = 49;

    let due = MissionSystem::take_due_missions(&mut state);

    assert!(due.is_empty());
    assert_eq!(state.missions.active_missions.len(), 1);
}

#[test]
fn test_priority_adjusts_mission_danger() {
    let mut state = GameState::new();
    state.priority.active = ColonyPriority::Recovery;
    assert_eq!(MissionSystem::perimeter_scan_danger_percent(&state), 12);

    state.priority.active = ColonyPriority::Survey;
    assert_eq!(MissionSystem::perimeter_scan_danger_percent(&state), 27);
    assert!(MissionSystem::mission_danger_percent(&state, MissionType::DeepSurvey) > 27);
}

#[test]
fn test_priority_changes_visible_mission_recommendation() {
    let mut state = GameState::new();
    state.resources.supplies = 1;
    assert_eq!(MissionSystem::recommended_mission_type(&state), MissionType::SupplyRun);

    state.resources.supplies = 30;
    state.priority.active = ColonyPriority::Recovery;
    assert_eq!(MissionSystem::recommended_mission_type(&state), MissionType::PerimeterScan);

    state.priority.active = ColonyPriority::Survey;
    assert_eq!(MissionSystem::recommended_mission_type(&state), MissionType::DeepSurvey);

    let plans = MissionSystem::mission_plans(&state);
    assert!(plans.iter().any(|plan| plan.mission_type == MissionType::DeepSurvey && plan.recommended));
}

#[test]
fn test_survey_priority_favors_research_items() {
    let mission = ActiveMission {
        id: 4,
        colonist_id: 1,
        mission_type: MissionType::PerimeterScan,
        started_tick: 0,
        completes_at_tick: 1,
        danger_percent: 0,
        priority: ColonyPriority::Survey,
    };

    assert_ne!(MissionSystem::item_for_mission(&mission), MissionItem::SalvageCache);
}

#[test]
fn mission_plans_list_every_mission_once_with_one_recommendation() {
    let state = GameState::new();
    let plans = MissionSystem::mission_plans(&state);
    assert_eq!(plans.len(), MissionType::all().len());
    assert_eq!(plans.iter().filter(|plan| plan.recommended).count(), 1);
    let recommended = MissionSystem::recommended_mission_type(&state);
    assert!(plans.iter().any(|plan| plan.mission_type == recommended && plan.recommended));
}

#[test]
fn test_building_feedback_includes_planning_facts() {
    let state = GameState::new();

    let feedback = PlanningSystem::building_feedback(&state, BuildingType::MessHall, Position::new(1, 1));

    assert!(feedback.can_place());
    assert_eq!(feedback.footprint, (3, 2));
    assert_eq!(feedback.cost, 12);
    assert_eq!(feedback.helps, "Food");
    assert!(feedback.purpose.contains("Meal"));
    assert!(feedback.impact.contains("cooks"));
}

#[test]
fn test_invalid_reason_reports_insufficient_salvage() {
    let mut state = GameState::new();
    state.resources.salvage = 0;

    let feedback = PlanningSystem::building_feedback(&state, BuildingType::ExplorationGate, Position::new(1, 1));

    assert!(!feedback.can_place());
    assert_eq!(feedback.invalid_reason.as_deref(), Some("Need 14 salvage; 0 available."));
}

#[test]
fn test_invalid_reason_reports_map_and_overlap_blocks() {
    let mut state = GameState::new();

    assert_eq!(
        PlanningSystem::invalid_reason(
            &state,
            BuildingType::MessHall,
            Position::new(state.grid.width as i32 - 1, state.grid.height as i32 - 1)
        )
        .as_deref(),
        Some("Footprint leaves the map.")
    );

    place(&mut state, BuildingType::Habitat, Position::new(2, 2));

    assert_eq!(
        PlanningSystem::invalid_reason(&state, BuildingType::Storage, Position::new(2, 2)).as_deref(),
        Some("Footprint overlaps another building.")
    );

    state.grid.set_cell_type(8, 8, CellType::Wall);
    assert_eq!(
        PlanningSystem::invalid_reason(&state, BuildingType::Storage, Position::new(8, 8)).as_deref(),
        Some("Footprint overlaps blocked terrain.")
    );
}

#[test]
fn test_placement_log_detail_explains_mechanical_change() {
    let state = GameState::new();
    let feedback = PlanningSystem::building_feedback(&state, BuildingType::Storage, Position::new(1, 1));

    let detail = PlanningSystem::placement_log_detail(&feedback, 4, 28);

    assert!(detail.contains("Added Storage support"));
    assert!(detail.contains("Adds supply capacity"));
    assert!(detail.contains("Building #4 cost 6 salvage"));
    assert!(detail.contains("28 remain"));
}

#[test]
fn clear_feedback_means_the_building_can_be_placed() {
    let mut state = GameState::new();
    let feedback = PlanningSystem::building_feedback(&state, BuildingType::Workshop, Position::new(4, 4));
    assert!(feedback.can_place());
    assert!(state.building_system.can_place_building(&state.grid, BuildingType::Workshop, Position::new(4, 4)));
    place(&mut state, BuildingType::Workshop, Position::new(4, 4));
    assert_eq!(state.building_system.building_count(), 1);
}

fn pair_of(first: i32, second: i32) -> Vec<Colonist> {
    let mut colonists = vec![colonist(1, "Alice"), colonist(2, "Bob")];
    colonists[0].relationships.insert(2, first);
    colonists[1].relationships.insert(1, second);
    colonists
}

#[test]
fn test_toggle_pair_directive_pairs_supportive_colonists() {
    let mut colonists = pair_of(22, 18);

    let change = RelationshipDirectiveSystem::toggle_pair_directive(&mut colonists, 1, 2).unwrap();

    assert_eq!(change, DirectiveChange::Applied(PairDirective::Pair));
    assert_eq!(colonists[0].preferred_partner_id, Some(2));
    assert_eq!(colonists[1].preferred_partner_id, Some(1));
    assert_eq!(RelationshipDirectiveSystem::directive_for_pair(&colonists, 1, 2), Some(PairDirective::Pair));
}

#[test]
fn test_toggle_pair_directive_separates_tense_colonists() {
    let mut colonists = pair_of(-24, -18);

    let change = RelationshipDirectiveSystem::toggle_pair_directive(&mut colonists, 1, 2).unwrap();

    assert_eq!(change, DirectiveChange::Applied(PairDirective::Separate));
    assert_eq!(colonists[0].avoided_partner_id, Some(2));
    assert_eq!(colonists[1].avoided_partner_id, Some(1));
}

#[test]
fn test_toggle_pair_directive_clears_existing_directive() {
    let mut colonists = pair_of(12, 16);

    RelationshipDirectiveSystem::toggle_pair_directive(&mut colonists, 1, 2).unwrap();
    let change = RelationshipDirectiveSystem::toggle_pair_directive(&mut colonists, 1, 2).unwrap();

    assert_eq!(change, DirectiveChange::Cleared(PairDirective::Pair));
    assert_eq!(colonists[0].preferred_partner_id, None);
    assert_eq!(colonists[1].preferred_partner_id, None);
}

#[test]
fn toggling_a_colonist_with_itself_or_a_stranger_fails() {
    let mut colonists = pair_of(12, 16);
    assert_eq!(
        RelationshipDirectiveSystem::toggle_pair_directive(&mut colonists, 1, 1),
        Err(DirectiveError::SameColonist)
    );
    assert_eq!(
        RelationshipDirectiveSystem::toggle_pair_directive(&mut colonists, 1, 9),
        Err(DirectiveError::MissingColonist)
    );
    assert_eq!(colonists[0].preferred_partner_id, None);
    assert_eq!(RelationshipDirectiveSystem::average_relationship(&colonists, 1, 2), Some(14));
}

#[test]
fn test_daily_supply_need_matches_colonists() {
    let mut state = GameState::new();
    state.colonists.push(colonist(1, "Test"));

    assert_eq!(ResourceSystem::daily_supply_need(&state), 1);
}

#[test]
fn test_prepared_meals_reduce_daily_need() {
    let mut state = GameState::new();
    state.resources.prepared_meals = 1;
    state.colonists.push(colonist(1, "Test"));

    assert_eq!(ResourceSystem::daily_supply_need(&state), 0);
}

#[test]
fn test_hydroponic_technology_reduces_daily_need() {
    let mut state = GameState::new();
    state.technology.add_item(MissionItem::NutrientPods);
    state.colonists.push(colonist(1, "Test"));

    assert_eq!(ResourceSystem::daily_supply_need(&state), 0);
}

#[test]
fn test_nutrient_culture_reduces_daily_need_further() {
    let mut state = GameState::new();
    state.technology.add_item(MissionItem::NutrientPods);
    state.technology.add_item(MissionItem::NutrientPods);
    state.technology.add_item(MissionItem::MedicinalGel);
    for id in 0..4 {
        state.colonists.push(numbered(id));
    }

    assert_eq!(state.technology.daily_supply_reduction(), 2);
    assert_eq!(ResourceSystem::daily_supply_need(&state), 10);
}

#[test]
fn missing_mess_hall_triples_the_need_of_a_larger_colony() {
    let mut state = GameState::new();
    for id in 0..4 {
        state.colonists.push(numbered(id));
    }
    assert_eq!(ResourceSystem::daily_supply_need(&state), 12);
    place(&mut state, BuildingType::MessHall, Position::new(0, 0));
    assert_eq!(ResourceSystem::daily_supply_need(&state), 4);
}

#[test]
fn test_ration_shortage_reduces_mood() {
    let mut state = GameState::new();
    state.resources.supplies = 0;
    state.colonists.push(colonist(1, "Test"));

    let shortage = ResourceSystem::handle_new_day(&mut state);
    let mood_after_shortage = 50 - 12 - 2 * shortage;
    ResourceSystem::settle_new_day(&mut state, mood_after_shortage, mood_after_shortage);

    assert_eq!(shortage, 1);
    assert!(mood_after_shortage < 50);
    assert_eq!(state.resources.condition, ColonyCondition::Critical);
}

#[test]
fn test_missing_habitat_capacity_strains_condition() {
    let mut state = GameState::new();
    state.resources.supplies = 20;
    for id in 0..6 {
        state.colonists.push(numbered(id));
    }

    ResourceSystem::update_condition(&mut state, 50, 50);

    assert_eq!(ResourceSystem::habitat_capacity(&state), 0);
    assert_eq!(state.resources.condition, ColonyCondition::Critical);
}

#[test]
fn condition_change_logs_the_rounded_average_mood() {
    let mut state = GameState::new();
    state.resources.supplies = 0;
    state.colonists.push(numbered(1));
    place(&mut state, BuildingType::Habitat, Position::new(0, 0));
    let before = state.event_log.len();

    // An average of 49.7: the rules take 49, the log prints 50.
    ResourceSystem::update_condition(&mut state, 49, 50);

    assert_eq!(state.resources.condition, ColonyCondition::Critical);
    assert_eq!(state.event_log.len(), before + 1);
    let entry = state.event_log.last().unwrap();
    assert_eq!(entry.title, "Colony status: Critical");
    assert!(entry.detail.ends_with("average mood 50, shelter deficit 0."));
}

#[test]
fn well_supplied_sheltered_colony_counts_a_stable_day() {
    let mut state = GameState::new();
    state.resources.supplies = 20;
    state.colonists.push(numbered(1));
    place(&mut state, BuildingType::Habitat, Position::new(0, 0));

    ResourceSystem::update_condition(&mut state, 60, 60);

    assert_eq!(state.resources.condition, ColonyCondition::Stable);
    assert_eq!(state.resources.stable_days, 1);
}

#[test]
fn supplies_beyond_storage_are_wasted() {
    let mut state = GameState::new();
    state.resources.supplies = 25;
    let wasted = ResourceSystem::add_supplies_from_work(&mut state, 10);
    assert_eq!(ResourceSystem::storage_capacity(&state), 30);
    assert_eq!(state.resources.supplies, 30);
    assert_eq!(wasted, 5);
}

fn day_seven_state(condition: ColonyCondition) -> GameState {
    let mut state = GameState::new();
    state.tick = TICKS_PER_DAY * 6;
    state.resources.condition = condition;
    state.resources.supplies = 20;
    state.technology.add_item(MissionItem::MedicinalGel);
    state.technology.add_item(MissionItem::AlienCircuit);
    state.technology.add_item(MissionItem::NutrientPods);
    state
}

#[test]
fn test_victory_requires_day_7_resources_and_tech() {
    let mut state = day_seven_state(ColonyCondition::Stable);

    ScenarioSystem::evaluate(&mut state);

    assert_eq!(state.scenario.outcome, ScenarioOutcome::Victory);
    assert_eq!(state.time.speed, TimeSpeed::Paused);
}

#[test]
fn test_critical_colony_does_not_win_on_target_day() {
    let mut state = day_seven_state(ColonyCondition::Critical);

    ScenarioSystem::evaluate(&mut state);

    assert_eq!(state.scenario.outcome, ScenarioOutcome::InProgress);
}

#[test]
fn test_collapsed_colony_fails() {
    let mut state = GameState::new();
    state.resources.condition = ColonyCondition::Collapsed;

    ScenarioSystem::evaluate(&mut state);

    assert_eq!(state.scenario.outcome, ScenarioOutcome::Failure);
    assert_eq!(state.time.speed, TimeSpeed::Paused);
}

#[test]
fn victory_waits_for_the_target_day() {
    let mut state = day_seven_state(ColonyCondition::Stable);
    state.tick = TICKS_PER_DAY * 5;
    ScenarioSystem::evaluate(&mut state);
    assert_eq!(state.scenario.outcome, ScenarioOutcome::InProgress);
    assert_eq!(ScenarioSystem::days_remaining(&state), 1);
}

#[test]
fn finished_run_is_not_evaluated_again() {
    let mut state = GameState::new();
    state.resources.condition = ColonyCondition::Collapsed;
    ScenarioSystem::evaluate(&mut state);
    let log_len = state.event_log.len();
    ScenarioSystem::evaluate(&mut state);
    assert_eq!(state.event_log.len(), log_len);
    assert_eq!(state.scenario.outcome, ScenarioOutcome::Failure);
}

#[test]
fn test_recovery_priority_strengthens_shared_meals() {
    let mut state = GameState::new();
    state.priority.active = ColonyPriority::Recovery;

    for id in 1..=2 {
        let mut colonist =
            Colonist::new(id, format!("Colonist {}", id), Position::new(id as i32, 0), Trait::Gourmet, JobPreference::Cook);
        colonist.state = ColonistState::Eating;
        colonist.activity_location = ActivityLocation::Building { building_id: 7, building_type: BuildingType::MessHall };
        state.colonists.push(colonist);
    }

    let pairs = SocialSystem::meeting_pairs(&state, RelationshipSource::Meal);
    let low_mood = vec![false; pairs.len()];
    SocialSystem::apply_group_relationships(&mut state, &pairs, &low_mood, RelationshipSource::Meal);

    assert_eq!(pairs, vec![(1, 2)]);
    assert_eq!(state.colonists[0].relationships.get(&2), Some(&2));
    assert_eq!(state.colonists[1].relationships.get(&1), Some(&2));
}

#[test]
fn relationship_values_stay_within_fifty() {
    let mut state = GameState::new();
    state.colonists.push(colonist(1, "Alice"));
    state.colonists.push(colonist(2, "Bob"));
    state.colonists[0].relationships.insert(2, 48);
    SocialSystem::apply_one_way_update(&mut state, 1, 2, 10);
    assert_eq!(state.colonists[0].relationships.get(&2), Some(&50));
    state.colonists[1].relationships.insert(1, -49);
    SocialSystem::apply_one_way_update(&mut state, 2, 1, -10);
    assert_eq!(state.colonists[1].relationships.get(&1), Some(&-50));
}

#[test]
fn pair_update_logs_the_band_of_the_new_average() {
    let mut state = GameState::new();
    state.colonists.push(colonist(1, "Alice"));
    state.colonists.push(colonist(2, "Bob"));
    state.colonists[0].relationships.insert(2, 9);
    state.colonists[1].relationships.insert(1, 9);
    let before = state.event_log.len();

    SocialSystem::apply_pair_update(&mut state, 1, 2, 2, RelationshipSource::Meal);

    assert_eq!(state.colonists[0].relationships.get(&2), Some(&11));
    assert_eq!(state.colonists[1].relationships.get(&1), Some(&11));
    assert_eq!(state.event_log.len(), before + 1);
    let entry = state.event_log.last().unwrap();
    assert_eq!(entry.title, "Alice and Bob are now Friendly");
    assert_eq!(
        entry.detail,
        "Their relationship improved from Neutral to Friendly (+2). A shared meal gave them neutral ground to reconnect."
    );
}

#[test]
fn pair_update_judges_both_sides_of_the_pair() {
    let mut state = GameState::new();
    state.colonists.push(colonist(1, "Alice"));
    state.colonists.push(colonist(2, "Bob"));
    state.colonists[0].relationships.insert(2, 9);
    state.colonists[1].relationships.insert(1, -20);
    let before = state.event_log.len();

    // Alice's side reaches 11, Bob's -18: the pair averages -3, still Neutral.
    SocialSystem::apply_pair_update(&mut state, 1, 2, 2, RelationshipSource::Work);

    assert_eq!(state.colonists[0].relationships.get(&2), Some(&11));
    assert_eq!(state.colonists[1].relationships.get(&1), Some(&-18));
    assert_eq!(state.event_log.len(), before);
}

#[test]
fn group_update_logs_each_change_of_band() {
    let mut state = trio();
    state.colonists[0].relationships.insert(2, 9);
    state.colonists[1].relationships.insert(1, 9);
    let before = state.event_log.len();

    let pairs = vec![(1, 2), (1, 3)];
    let low_mood = vec![false, false];
    SocialSystem::apply_group_relationships(&mut state, &pairs, &low_mood, RelationshipSource::Work);

    // Stockpile priority adds one to a good shift: each side moves by 2.
    assert_eq!(state.colonists[0].relationships.get(&2), Some(&11));
    assert_eq!(state.colonists[0].relationships.get(&3), Some(&2));
    assert_eq!(state.colonists[2].relationships.get(&1), Some(&2));
    assert_eq!(state.event_log.len(), before + 1);
    assert_eq!(state.event_log.last().unwrap().title, "Alice and Bob are now Friendly");
}

fn trio() -> GameState {
    let mut state = GameState::new();
    state.colonists.push(colonist(1, "Alice"));
    state.colonists.push(colonist(2, "Bob"));
    state.colonists.push(colonist(3, "Charlie"));
    state
}

#[test]
fn test_colony_pressure_summary_finds_best_and_worst_relationships() {
    let mut state = trio();
    state.colonists[0].relationships.insert(2, 24);
    state.colonists[1].relationships.insert(1, 20);
    state.colonists[0].relationships.insert(3, -18);
    state.colonists[2].relationships.insert(1, -14);

    let summary = SummarySystem::relationship_summary(&state.colonists);

    assert_eq!(summary.close_pairs, 1);
    assert_eq!(summary.strained_pairs, 1);
    assert_eq!(summary.strongest_pair.as_ref().map(|pair| pair.value), Some(22));
    assert_eq!(summary.weakest_pair.as_ref().map(|pair| pair.value), Some(-16));
}

#[test]
fn test_colony_pressure_summary_keeps_neutral_pairs_clear() {
    let state = trio();

    let summary = SummarySystem::relationship_summary(&state.colonists);

    assert_eq!(summary.close_pairs, 0);
    assert_eq!(summary.strained_pairs, 0);
    assert_eq!(summary.relationship_total, 0);
    assert_eq!(summary.relationship_count, 3);
    assert!(summary.connected_pairs.is_empty());
    assert!(summary.tense_pairs.is_empty());
    assert_eq!(summary.strongest_pair.as_ref().map(|pair| pair.label), Some("Neutral"));
    assert_eq!(summary.weakest_pair.as_ref().map(|pair| pair.value), Some(0));
}

#[test]
fn test_colony_pressure_summary_counts_multiple_hostile_pairs() {
    let mut state = trio();
    state.colonists[0].relationships.insert(2, -34);
    state.colonists[1].relationships.insert(1, -30);
    state.colonists[0].relationships.insert(3, -16);
    state.colonists[2].relationships.insert(1, -14);

    let summary = SummarySystem::relationship_summary(&state.colonists);

    assert_eq!(summary.close_pairs, 0);
    assert_eq!(summary.strained_pairs, 2);
    assert_eq!(summary.tense_pairs.len(), 2);
    assert_eq!(summary.tense_pairs[0].value, -32);
    assert_eq!(summary.tense_pairs[1].value, -15);
    assert_eq!(summary.weakest_pair.as_ref().map(|pair| pair.value), Some(-32));
    assert_eq!(summary.weakest_pair.as_ref().map(|pair| pair.label), Some("Hostile"));
}

#[test]
fn test_colony_pressure_summary_finds_one_strong_positive_pair() {
    let mut state = trio();
    state.colonists[0].relationships.insert(2, 42);
    state.colonists[1].relationships.insert(1, 38);

    let summary = SummarySystem::relationship_summary(&state.colonists);

    assert_eq!(summary.close_pairs, 1);
    assert_eq!(summary.strained_pairs, 0);
    assert_eq!(summary.connected_pairs.len(), 1);
    assert_eq!(summary.connected_pairs[0].value, 40);
    assert_eq!(summary.strongest_pair.as_ref().map(|pair| pair.value), Some(40));
    assert_eq!(summary.strongest_pair.as_ref().map(|pair| pair.label), Some("Close"));
}

#[test]
fn summary_lists_the_three_closest_pairs_and_the_earliest_strongest() {
    let mut state = trio();
    state.colonists.push(colonist(4, "Dana"));
    let values = [(1u32, 2u32, 20i32), (1, 3, 30), (1, 4, 12), (2, 3, 30), (2, 4, 15)];
    for (a, b, v) in values {
        state.colonists[(a - 1) as usize].relationships.insert(b, v);
        state.colonists[(b - 1) as usize].relationships.insert(a, v);
    }

    let summary = SummarySystem::relationship_summary(&state.colonists);

    assert_eq!(summary.relationship_count, 6);
    assert_eq!(summary.close_pairs, 5);
    assert_eq!(summary.strained_pairs, 0);
    let listed: Vec<(String, String, i32)> = summary
        .connected_pairs
        .iter()
        .map(|p| (p.first_name.clone(), p.second_name.clone(), p.value))
        .collect();
    assert_eq!(
        listed,
        vec![
            ("Alice".to_string(), "Charlie".to_string(), 30),
            ("Bob".to_string(), "Charlie".to_string(), 30),
            ("Alice".to_string(), "Bob".to_string(), 20),
        ]
    );
    let strongest = summary.strongest_pair.unwrap();
    assert_eq!((strongest.first_name.as_str(), strongest.second_name.as_str(), strongest.value), ("Alice", "Charlie", 30));
    let weakest = summary.weakest_pair.unwrap();
    assert_eq!((weakest.first_name.as_str(), weakest.second_name.as_str(), weakest.value), ("Charlie", "Dana", 0));
}

#[test]
fn summary_of_a_lone_colonist_has_no_pairs() {
    let mut state = GameState::new();
    state.colonists.push(colonist(1, "Alice"));

    let summary = SummarySystem::relationship_summary(&state.colonists);

    assert_eq!(summary.relationship_count, 0);
    assert!(summary.strongest_pair.is_none());
    assert!(summary.weakest_pair.is_none());
}

fn has_line(plan: &final_landing::advisor_system::AdvisorPlan, title: &str) -> bool {
    plan.lines.iter().any(|line| line.title == title)
}

fn core_buildings(state: &mut GameState) {
    place(state, BuildingType::Habitat, Position::new(0, 0));
    place(state, BuildingType::MessHall, Position::new(3, 0));
    place(state, BuildingType::Workshop, Position::new(7, 0));
    place(state, BuildingType::Storage, Position::new(10, 0));
    place(state, BuildingType::ExplorationGate, Position::new(13, 0));
}

#[test]
fn test_advisor_starts_with_shelter_and_core_buildings() {
    let mut state = GameState::new();
    for id in 1..=3 {
        state.colonists.push(numbered(id));
    }

    let plan = AdvisorSystem::plan(&state, false, None);

    assert!(has_line(&plan, "Shelter every survivor"));
    assert!(has_line(&plan, "Open a meal point"));
    assert!(has_line(&plan, "Mark a survey route"));
}

#[test]
fn test_advisor_prompts_missions_when_core_is_built() {
    let mut state = GameState::new();
    state.colonists.push(numbered(1));
    state.colonists.push(numbered(2));
    core_buildings(&mut state);
    state.priority.active = ColonyPriority::Survey;

    let plan = AdvisorSystem::plan(&state, false, None);

    assert!(has_line(&plan, "Push toward field tech"));
}

#[test]
fn test_advisor_settles_after_victory_requirements_are_met() {
    let mut state = GameState::new();
    state.colonists.push(numbered(1));
    core_buildings(&mut state);
    state.resources.supplies = 20;
    state.technology.add_item(MissionItem::MedicinalGel);
    state.technology.add_item(MissionItem::AlienCircuit);
    state.technology.add_item(MissionItem::NutrientPods);

    let plan = AdvisorSystem::plan(&state, false, None);

    assert!(has_line(&plan, "Hold the landing site"));
}

#[test]
fn test_active_incident_creates_advisor_priority() {
    let state = GameState::new();
    let incident = Some((
        "Recover repair stock".to_string(),
        "A tool breakage slowed repairs; keep builders on salvage.".to_string(),
    ));

    let plan = AdvisorSystem::plan(&state, false, incident);

    assert_eq!(plan.lines[0].title, "Recover repair stock");
    assert_eq!(plan.lines[0].severity, AdvisorSeverity::Warning);
}

#[test]
fn low_mood_puts_recovery_advice_in_the_plan() {
    let mut state = GameState::new();
    state.colonists.push(numbered(1));
    core_buildings(&mut state);
    state.resources.supplies = 20;
    let plan = AdvisorSystem::plan(&state, true, None);
    assert!(has_line(&plan, "Give people recovery time"));
    assert!(!has_line(&plan, "Hold the landing site"));
}

#[test]
fn test_initial_colonists_start_with_social_context() {
    let mut state = GameState::new();

    spawn_initial_colonists(&mut state);

    let find = |id: u32| state.colonists.iter().find(|colonist| colonist.id == id).unwrap();
    assert_eq!(find(0).relationships.get(&5), Some(&-24));
    assert_eq!(find(5).relationships.get(&0), Some(&-24));
    assert_eq!(find(2).relationships.get(&4), Some(&28));
    assert_eq!(find(4).relationships.get(&2), Some(&28));
}

#[test]
fn directive_detail_describes_the_pair() {
    let colonists = pair_of(22, 18);
    assert_eq!(
        RelationshipDirectiveSystem::directive_detail(&colonists, 1, 2),
        "Alice and Bob are Friendly (+20). Pair for shared work and recovery choices."
    );
    assert_eq!(RelationshipDirectiveSystem::directive_detail(&colonists, 1, 7), "Missing survivor.");
    let tense = pair_of(-24, -18);
    assert_eq!(
        RelationshipDirectiveSystem::directive_detail(&tense, 2, 1),
        "Bob and Alice are Tense (-21). Keep apart when another room or workplace is available."
    );
}

#[test]
fn hurt_colonist_sits_out_the_next_launch() {
    let mut state = GameState::new();
    state.colonists.push(scout());
    state.missions.active_missions.push(returning_mission(MissionType::PerimeterScan, 100, ColonyPriority::Stockpile));
    state.tick = 1;
    finish_due_missions(&mut state);
    add_gate(&mut state);

    assert_eq!(
        MissionSystem::launch_mission(&mut state, MissionType::SupplyRun),
        Err(LaunchMissionError::NoAvailableColonist)
    );
    state.colonists.push(Colonist::new(2, "Backup".to_string(), Position::new(4, 3), Trait::HardWorker, JobPreference::Builder));
    assert!(MissionSystem::launch_mission(&mut state, MissionType::SupplyRun).is_ok());
    assert!(!state.colonists[0].is_on_mission());
    assert!(state.colonists[1].is_on_mission());
}
