use final_landing::building::BuildingType;
use final_landing::colonist::{ActivityLocation, ActivityType, Colonist, ColonistState, JobPreference, Trait};
use final_landing::colonist_ai::{
    find_building_entrance, find_or_assign_habitat, get_next_move_position, is_step_open, specific_target_for_activity,
    update_colonist_ai, AiInputs, BuildingSnapshot, PendingLog, SocialLocation,
};
use final_landing::event_log::LogCategory;
use final_landing::grid::{CellType, Grid};
use final_landing::types::Position;
use std::collections::HashMap;

fn alice(job: JobPreference) -> Colonist {
    Colonist::new(1, "Alice".to_string(), Position::new(0, 0), Trait::FastWalker, job)
}

fn two_workshops() -> Vec<BuildingSnapshot> {
    vec![
        (10, BuildingType::Workshop, Position::new(1, 1), (2, 2)),
        (20, BuildingType::Workshop, Position::new(12, 12), (2, 2)),
    ]
}

fn at(building_id: u32, building_type: BuildingType) -> ActivityLocation {
    ActivityLocation::Building { building_id, building_type }
}

fn no_inputs(path_next: Option<Position>) -> AiInputs {
    AiInputs { refuses_work: false, mood: 50, refusal_chance: 0, wander_target: None, path_next }
}

#[test]
fn test_strained_proximity_logs_visible_mood_drop() {
    let mut colonist = Colonist::new(1, "Alice".to_string(), Position::new(0, 0), Trait::FastWalker, JobPreference::Explorer);
    colonist.state = ColonistState::Moving { target: Position::new(1, 0) };
    colonist.relationships.insert(2, -30);
    let occupied = vec![(Position::new(1, 0), 2u32)];
    let names = vec![(1u32, "Alice".to_string()), (2u32, "Bob".to_string())];
    let grid = Grid::default();
    let mut occupancy = HashMap::new();
    let mut pending_logs: Vec<PendingLog> = Vec::new();

    let strained = update_colonist_ai(
        &mut colonist,
        ActivityType::Relax,
        &occupied,
        &names,
        &[],
        &grid,
        &[],
        &mut occupancy,
        2,
        420,
        &mut pending_logs,
        no_inputs(Some(Position::new(1, 0))),
    );

    assert_eq!(colonist.position, Position::new(0, 0));
    assert!(strained);
    let (category, title, detail) =
        pending_logs.iter().find(|log| log.0 == LogCategory::Social).expect("strained proximity should log");
    assert_eq!(*category, LogCategory::Social);
    assert_eq!(title, "Alice avoided Bob");
    assert!(detail.contains("strained relationship"));
    assert!(detail.contains("Mood dropped"));
}

#[test]
fn strain_is_logged_once_per_cooldown() {
    let mut colonist = alice(JobPreference::Explorer);
    colonist.relationships.insert(2, -30);
    let occupied = vec![(Position::new(1, 0), 2u32)];
    let names = vec![(2u32, "Bob".to_string())];
    let grid = Grid::default();
    let mut pending_logs: Vec<PendingLog> = Vec::new();

    let first = get_next_move_position(
        &mut colonist,
        Position::new(1, 0),
        &occupied,
        &grid,
        &names,
        420,
        &mut pending_logs,
        Some(Position::new(1, 0)),
    );
    let second = get_next_move_position(
        &mut colonist,
        Position::new(1, 0),
        &occupied,
        &grid,
        &names,
        430,
        &mut pending_logs,
        Some(Position::new(1, 0)),
    );

    assert_eq!(first, (Position::new(0, 0), true));
    assert_eq!(second, (Position::new(0, 0), true));
    assert_eq!(pending_logs.len(), 1);
    assert_eq!(colonist.last_social_strain_tick, 420);
}

#[test]
fn test_work_target_prefers_supportive_occupied_building() {
    let mut colonist = alice(JobPreference::Builder);
    colonist.relationships.insert(2, -35);
    colonist.relationships.insert(3, 30);
    let buildings = two_workshops();
    let social_locations: Vec<SocialLocation> =
        vec![(2, at(10, BuildingType::Workshop)), (3, at(20, BuildingType::Workshop))];
    let grid = Grid::default();

    let target = find_building_entrance(
        colonist.position,
        BuildingType::Workshop,
        &buildings,
        None,
        &colonist,
        &social_locations,
        &grid,
    )
    .expect("workshop target should be found");

    assert_eq!(target.building_id, 20);
}

#[test]
fn nearest_building_wins_without_social_pull() {
    let colonist = alice(JobPreference::Builder);
    let buildings = two_workshops();
    let grid = Grid::default();

    let target =
        find_building_entrance(colonist.position, BuildingType::Workshop, &buildings, None, &colonist, &[], &grid)
            .expect("workshop target should be found");

    assert_eq!(target.building_id, 10);
    assert_eq!(target.building_type, BuildingType::Workshop);
}

#[test]
fn test_movement_uses_grid_pathfinding_around_blocked_cells() {
    let mut grid = Grid::new(4, 3);
    grid.set_cell_type(1, 0, CellType::Wall);
    let mut colonist = alice(JobPreference::Builder);
    let occupied: Vec<(Position, u32)> = Vec::new();
    let names: Vec<(u32, String)> = Vec::new();
    let mut pending_logs: Vec<PendingLog> = Vec::new();

    let path_step_around_wall = Some(Position::new(0, 1));
    let (next, strained) = get_next_move_position(
        &mut colonist,
        Position::new(2, 0),
        &occupied,
        &grid,
        &names,
        0,
        &mut pending_logs,
        path_step_around_wall,
    );

    assert_ne!(next, Position::new(1, 0));
    assert_ne!(next, colonist.position);
    assert!(is_step_open(next, &occupied, &grid));
    assert!(!is_step_open(Position::new(1, 0), &occupied, &grid));
    assert!(!strained);
}

#[test]
fn no_path_means_no_step() {
    let grid = Grid::new(4, 3);
    let mut colonist = alice(JobPreference::Builder);
    let mut pending_logs: Vec<PendingLog> = Vec::new();
    let (next, strained) =
        get_next_move_position(&mut colonist, Position::new(2, 0), &[], &grid, &[], 0, &mut pending_logs, None);
    assert_eq!(next, Position::new(0, 0));
    assert!(!strained);
}

#[test]
fn test_work_target_honors_keep_apart_directive() {
    let mut colonist = alice(JobPreference::Builder);
    colonist.relationships.insert(2, 30);
    colonist.avoided_partner_id = Some(2);
    let buildings = two_workshops();
    let social_locations: Vec<SocialLocation> = vec![(2, at(10, BuildingType::Workshop))];
    let grid = Grid::default();

    let target = find_building_entrance(
        colonist.position,
        BuildingType::Workshop,
        &buildings,
        None,
        &colonist,
        &social_locations,
        &grid,
    )
    .expect("workshop target should be found");

    assert_eq!(target.building_id, 20);
}

#[test]
fn test_work_target_honors_manual_workplace_assignment() {
    let mut colonist = alice(JobPreference::Builder);
    colonist.assigned_workplace = Some(20);
    let buildings = two_workshops();
    let grid = Grid::default();

    let target = find_building_entrance(
        colonist.position,
        BuildingType::Workshop,
        &buildings,
        specific_target_for_activity(&colonist, ActivityType::Work, BuildingType::Workshop, &buildings),
        &colonist,
        &[],
        &grid,
    )
    .expect("assigned workshop target should be found");

    assert_eq!(target.building_id, 20);
}

#[test]
fn test_workplace_assignment_ignores_wrong_building_type() {
    let mut colonist = alice(JobPreference::Builder);
    colonist.assigned_workplace = Some(20);
    let buildings: Vec<BuildingSnapshot> = vec![(20, BuildingType::MessHall, Position::new(12, 12), (3, 2))];

    assert_eq!(
        specific_target_for_activity(&colonist, ActivityType::Work, BuildingType::Workshop, &buildings),
        None
    );
}

#[test]
fn test_habitat_assignment_prefers_supportive_roommate() {
    let mut colonist = alice(JobPreference::Builder);
    colonist.relationships.insert(2, -26);
    colonist.relationships.insert(3, 22);
    let buildings: Vec<BuildingSnapshot> = vec![
        (10, BuildingType::Habitat, Position::new(1, 1), (2, 2)),
        (20, BuildingType::Habitat, Position::new(10, 10), (2, 2)),
    ];
    let social_locations: Vec<SocialLocation> =
        vec![(2, at(10, BuildingType::Habitat)), (3, at(20, BuildingType::Habitat))];
    let mut building_occupancy = HashMap::new();
    let mut pending_logs: Vec<PendingLog> = Vec::new();

    let target = find_or_assign_habitat(
        &mut colonist,
        &buildings,
        &mut building_occupancy,
        2,
        &social_locations,
        &mut pending_logs,
        420,
    );

    assert_eq!(target, Some(BuildingType::Habitat));
    assert_eq!(colonist.assigned_habitat, Some(20));
    assert_eq!(building_occupancy.get(&20), Some(&1));
}

#[test]
fn full_habitats_leave_the_colonist_without_a_bed() {
    let mut colonist = alice(JobPreference::Builder);
    let buildings: Vec<BuildingSnapshot> = vec![(10, BuildingType::Habitat, Position::new(1, 1), (2, 2))];
    let mut building_occupancy = HashMap::new();
    building_occupancy.insert(10u32, 2u32);
    let mut pending_logs: Vec<PendingLog> = Vec::new();

    let target = find_or_assign_habitat(&mut colonist, &buildings, &mut building_occupancy, 2, &[], &mut pending_logs, 420);

    assert_eq!(target, None);
    assert_eq!(colonist.assigned_habitat, None);
    assert_eq!(pending_logs.len(), 1);
    assert_eq!(pending_logs[0].1, "Alice slept without a habitat");
}

#[test]
fn idle_worker_heads_for_its_workshop_entrance() {
    let mut colonist = alice(JobPreference::Builder);
    colonist.position = Position::new(6, 6);
    let buildings = two_workshops();
    let grid = Grid::default();
    let mut occupancy = HashMap::new();
    let mut pending_logs: Vec<PendingLog> = Vec::new();

    let strained = update_colonist_ai(
        &mut colonist,
        ActivityType::Work,
        &[],
        &[],
        &[],
        &grid,
        &buildings,
        &mut occupancy,
        2,
        480,
        &mut pending_logs,
        no_inputs(None),
    );

    assert!(!strained);
    assert_eq!(colonist.current_activity, ActivityType::Work);
    match colonist.state {
        ColonistState::Moving { target } => {
            assert!(target.x >= 0 && target.x <= 3 && target.y >= 0 && target.y <= 3);
        }
        other => panic!("expected the colonist to head out, got {:?}", other),
    }
}

#[test]
fn worker_at_the_door_starts_working() {
    let mut colonist = alice(JobPreference::Builder);
    let grid = Grid::default();
    let mut occupancy = HashMap::new();
    let mut pending_logs: Vec<PendingLog> = Vec::new();

    update_colonist_ai(
        &mut colonist,
        ActivityType::Work,
        &[],
        &[],
        &[],
        &grid,
        &two_workshops(),
        &mut occupancy,
        2,
        480,
        &mut pending_logs,
        no_inputs(None),
    );

    assert_eq!(colonist.state, ColonistState::Working);
    assert_eq!(colonist.activity_location, at(10, BuildingType::Workshop));
}

#[test]
fn refusing_work_is_logged() {
    let mut colonist = alice(JobPreference::Builder);
    colonist.last_refusal_tick = 0;
    let grid = Grid::default();
    let mut occupancy = HashMap::new();
    let mut pending_logs: Vec<PendingLog> = Vec::new();
    let inputs = AiInputs { refuses_work: true, mood: 20, refusal_chance: 35, wander_target: None, path_next: None };

    update_colonist_ai(
        &mut colonist,
        ActivityType::Work,
        &[],
        &[],
        &[],
        &grid,
        &two_workshops(),
        &mut occupancy,
        2,
        600,
        &mut pending_logs,
        inputs,
    );

    assert_eq!(colonist.state, ColonistState::Idle);
    assert_eq!(colonist.last_refusal_tick, 600);
    assert_eq!(pending_logs.len(), 1);
    assert_eq!(pending_logs[0].1, "Alice refused work");
}

#[test]
fn on_mission_colonists_are_left_alone() {
    let mut colonist = alice(JobPreference::Explorer);
    colonist.state = ColonistState::OnMission { mission_id: 3 };
    let grid = Grid::default();
    let mut occupancy = HashMap::new();
    let mut pending_logs: Vec<PendingLog> = Vec::new();
    update_colonist_ai(
        &mut colonist,
        ActivityType::Sleep,
        &[],
        &[],
        &[],
        &grid,
        &[],
        &mut occupancy,
        2,
        0,
        &mut pending_logs,
        no_inputs(None),
    );
    assert_eq!(colonist.position, Position::new(0, 0));
    assert_eq!(colonist.current_activity, ActivityType::Work);
    assert!(pending_logs.is_empty());
}
