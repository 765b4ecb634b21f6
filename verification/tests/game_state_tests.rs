use final_landing::building::BuildingType;
use final_landing::colonist::{ActivityLocation, Colonist, ColonistState, JobPreference, Trait};
use final_landing::event_log::SocialHistoryEntry;
use final_landing::grid::CellType;
use final_landing::presentation::{
    building_type_from_name, social_archive_markdown, sprite_pose_for_colonist, sprite_pose_for_colonist_frame,
    sprite_pose_for_state, toolbar_mode_from_name, SocialBodyLanguage, SpritePose, ToolbarMode,
};
use final_landing::roster::{
    adjacent_positions, apply_batch_home_pin, apply_batch_work_pin, assign_roster_page_count,
    assign_visible_colonist_indices, average_relationship_between, batch_assignment_log, next_assign_role_filter,
    shared_assignment_pin, shared_social_location, space_assignment_kind, strongest_relationship_value,
    AssignRosterFilter, AssignRosterSort, BatchAssignmentScope, SpaceAssignmentKind,
};
use final_landing::terrain::{crash_site_detail, terrain_detail, TerrainDetail};
use final_landing::types::Position;

fn builders(count: u32) -> Vec<Colonist> {
    (0..count)
        .map(|id| {
            Colonist::new(
                id,
                format!("Colonist {}", id),
                Position::new(id as i32, 0),
                Trait::HardWorker,
                JobPreference::Builder,
            )
        })
        .collect::<Vec<_>>()
}

fn alice_and_bob(first_pos: Position, second_pos: Position, second_job: JobPreference) -> (Colonist, Colonist) {
    let first = Colonist::new(1, "Alice".to_string(), first_pos, Trait::HardWorker, JobPreference::Builder);
    let second = Colonist::new(2, "Bob".to_string(), second_pos, Trait::FastWalker, second_job);
    (first, second)
}

fn check_terrain_detail_is_deterministic() {
    assert_eq!(terrain_detail(Some(CellType::Empty), 7, 11), terrain_detail(Some(CellType::Empty), 7, 11));
    assert_eq!(terrain_detail(None, 7, 11), TerrainDetail::Bare);
}

fn check_crash_site_detail() {
    assert_eq!(crash_site_detail(10, 10), Some(TerrainDetail::SupplyCrate));
    assert_eq!(crash_site_detail(15, 5), Some(TerrainDetail::SignalBeacon));
    assert_eq!(crash_site_detail(5, 11), Some(TerrainDetail::HullPanel));
    assert_eq!(crash_site_detail(13, 7), Some(TerrainDetail::FuelDrum));
    assert_eq!(crash_site_detail(8, 7), Some(TerrainDetail::Wreckage));
    assert_eq!(crash_site_detail(4, 4), Some(TerrainDetail::Track));
    assert_eq!(crash_site_detail(8, 6), Some(TerrainDetail::Cable));
    assert_eq!(crash_site_detail(0, 0), None);
}

fn check_average_relationship(with_strongest: bool) {
    let (mut first, mut second) = alice_and_bob(Position::new(0, 0), Position::new(1, 0), JobPreference::Explorer);
    first.relationships.insert(2, 26);
    second.relationships.insert(1, 30);

    assert_eq!(average_relationship_between(&first, &second), 28);
    if with_strongest {
        assert_eq!(strongest_relationship_value(&first), Some(26));
    }
}

fn check_space_assignment_kind() {
    assert_eq!(
        space_assignment_kind(JobPreference::Builder, BuildingType::Habitat),
        Some(SpaceAssignmentKind::Recovery)
    );
    assert_eq!(space_assignment_kind(JobPreference::Builder, BuildingType::Workshop), Some(SpaceAssignmentKind::Work));
    assert_eq!(space_assignment_kind(JobPreference::Builder, BuildingType::MessHall), None);
    assert_eq!(space_assignment_kind(JobPreference::Cook, BuildingType::MessHall), Some(SpaceAssignmentKind::Work));
}

fn check_shared_social_location() {
    let (mut first, mut second) = alice_and_bob(Position::new(0, 0), Position::new(1, 0), JobPreference::Explorer);
    first.activity_location = ActivityLocation::Building { building_id: 7, building_type: BuildingType::Workshop };
    second.activity_location = ActivityLocation::Building { building_id: 7, building_type: BuildingType::Workshop };

    assert!(shared_social_location(&first, &second));

    second.activity_location = ActivityLocation::Ground(Position::new(2, 2));
    assert!(!shared_social_location(&first, &second));
}

fn check_toolbar_mode_from_name() {
    assert_eq!(toolbar_mode_from_name("assign"), Some(ToolbarMode::Assign));
    assert_eq!(toolbar_mode_from_name(" Research "), Some(ToolbarMode::Research));
    assert_eq!(toolbar_mode_from_name("missing"), None);
}

fn check_building_type_from_name() {
    assert_eq!(building_type_from_name("mess hall"), Some(BuildingType::MessHall));
    assert_eq!(building_type_from_name("exploration-gate"), Some(BuildingType::ExplorationGate));
    assert_eq!(building_type_from_name("missing"), None);
}

fn visible(colonists: &[Colonist], selected: Option<u32>, page: usize, filter: AssignRosterFilter,
    sort: AssignRosterSort, role: Option<JobPreference>, building: Option<u32>) -> Vec<usize> {
    assign_visible_colonist_indices(colonists, selected, page, filter, sort, role, building, &[])
}

fn check_visible_pin_selected_first() {
    let colonists = builders(6);
    assert_eq!(
        visible(&colonists, Some(5), 0, AssignRosterFilter::All, AssignRosterSort::Roster, None, None),
        vec![5, 0, 1, 2, 3]
    );
    assert_eq!(
        visible(&colonists, None, 0, AssignRosterFilter::All, AssignRosterSort::Roster, None, None),
        vec![0, 1, 2, 3, 4]
    );
}

fn check_visible_page_through() {
    let colonists = builders(8);
    assert_eq!(assign_roster_page_count(&colonists, Some(5), AssignRosterFilter::All, None, None), 2);
    assert_eq!(
        visible(&colonists, Some(5), 1, AssignRosterFilter::All, AssignRosterSort::Roster, None, None),
        vec![5, 4, 6, 7]
    );
    assert_eq!(
        visible(&colonists, None, 1, AssignRosterFilter::All, AssignRosterSort::Roster, None, None),
        vec![5, 6, 7]
    );
}

fn check_visible_filter_and_sort_pressure() {
    let mut colonists = builders(6);
    colonists[1].relationships.insert(2, -12);
    colonists[3].relationships.insert(4, -34);
    colonists[4].relationships.insert(3, 22);
    assert_eq!(
        visible(&colonists, Some(5), 0, AssignRosterFilter::Risk, AssignRosterSort::Bond, None, None),
        vec![5, 3, 1]
    );
}

fn check_visible_filter_role() {
    let mut colonists = builders(6);
    colonists[1].job_preference = JobPreference::Cook;
    colonists[4].job_preference = JobPreference::Cook;
    assert_eq!(
        visible(
            &colonists,
            Some(5),
            0,
            AssignRosterFilter::All,
            AssignRosterSort::Roster,
            Some(JobPreference::Cook),
            None
        ),
        vec![5, 1, 4]
    );
}

fn check_visible_filter_building() {
    let mut colonists = builders(6);
    colonists[1].assigned_habitat = Some(7);
    colonists[3].assigned_workplace = Some(7);
    colonists[4].assigned_habitat = Some(8);
    assert_eq!(
        visible(&colonists, Some(5), 0, AssignRosterFilter::All, AssignRosterSort::Roster, None, Some(7)),
        vec![5, 1, 3]
    );
}

fn check_next_assign_role_filter() {
    assert_eq!(next_assign_role_filter(None), Some(JobPreference::Explorer));
    assert_eq!(next_assign_role_filter(Some(JobPreference::Explorer)), Some(JobPreference::Builder));
    assert_eq!(next_assign_role_filter(Some(JobPreference::Hauler)), None);
}

fn check_social_archive() {
    let history = vec![
        SocialHistoryEntry::new(
            1,
            "Early friction",
            "Alice and Fiona need space.",
            "Use Apart before the next work block.",
            46,
            -8,
            0,
            1,
        ),
        SocialHistoryEntry::new(
            2,
            "Shared meal",
            "Bob and Diana stabilized dinner.",
            "Keep the supportive pair together.",
            62,
            12,
            1,
            0,
        ),
    ];

    let export = social_archive_markdown(&history);

    assert!(export.contains("# The Final Landing Social Archive"));
    assert!(export.contains("Reports: 2"));
    assert!(export.find("Day 2").unwrap() < export.find("Day 1").unwrap());
    assert!(export.contains("Recommendation: Keep the supportive pair together."));
}

fn check_batch_home_pin() {
    let mut colonists = builders(5);
    colonists[0].assigned_habitat = Some(7);

    let assigned = apply_batch_home_pin(&mut colonists, 0, 7, &[0, 1, 2, 3], 2);

    assert_eq!(assigned, vec!["Colonist 1".to_string()]);
    assert_eq!(colonists[1].assigned_habitat, Some(7));
    assert_eq!(colonists[2].assigned_habitat, None);
}

fn check_batch_work_pin() {
    let mut colonists = vec![
        Colonist::new(0, "Alice".to_string(), Position::new(0, 0), Trait::HardWorker, JobPreference::Builder),
        Colonist::new(1, "Bob".to_string(), Position::new(1, 0), Trait::FastWalker, JobPreference::Builder),
        Colonist::new(2, "Diana".to_string(), Position::new(2, 0), Trait::Gourmet, JobPreference::Cook),
    ];
    colonists[0].assigned_workplace = Some(9);
    colonists[1].state = ColonistState::Working;
    colonists[1].activity_location = ActivityLocation::Building { building_id: 3, building_type: BuildingType::Workshop };

    let assigned = apply_batch_work_pin(&mut colonists, 0, 9, BuildingType::Workshop, &[0, 1, 2]);

    assert_eq!(assigned, vec!["Bob".to_string()]);
    assert_eq!(colonists[1].assigned_workplace, Some(9));
    assert_eq!(colonists[1].state, ColonistState::Idle);
    assert_eq!(colonists[1].activity_location, ActivityLocation::Unset);
    assert_eq!(colonists[2].assigned_workplace, None);
}

fn check_batch_assignment_log() {
    let (_title, detail) = batch_assignment_log(
        "Batch work pins",
        "Alice",
        "W",
        9,
        BatchAssignmentScope::All,
        vec!["Bob".to_string(), "Charlie".to_string()],
    );

    assert!(detail.contains("all compatible survivors"));
    assert!(detail.contains("Bob, Charlie"));
}

fn check_sprite_pose_tracks_state() {
    assert_eq!(sprite_pose_for_state(ColonistState::Idle), SpritePose::Idle);
    assert_eq!(sprite_pose_for_state(ColonistState::Moving { target: Position::new(1, 1) }), SpritePose::Moving);
    assert_eq!(sprite_pose_for_state(ColonistState::Working), SpritePose::Working);
    assert_eq!(sprite_pose_for_state(ColonistState::Eating), SpritePose::Eating);
    assert_eq!(sprite_pose_for_state(ColonistState::Sleeping), SpritePose::Sleeping);
}

fn lone_alice() -> Colonist {
    Colonist::new(1, "Alice".to_string(), Position::new(0, 0), Trait::HardWorker, JobPreference::Builder)
}

fn check_body_language_overrides_idle() {
    let colonist = lone_alice();
    assert_eq!(sprite_pose_for_colonist(&colonist, Some(SocialBodyLanguage::Tense(-24))), SpritePose::Tense);
    assert_eq!(sprite_pose_for_colonist(&colonist, Some(SocialBodyLanguage::Supported(28))), SpritePose::Supported);
}

fn check_body_language_cycles_frames() {
    let colonist = lone_alice();
    assert_eq!(
        sprite_pose_for_colonist_frame(&colonist, Some(SocialBodyLanguage::Supported(28)), 45),
        SpritePose::SupportedReach
    );
    assert_eq!(
        sprite_pose_for_colonist_frame(&colonist, Some(SocialBodyLanguage::Tense(-24)), 45),
        SpritePose::TenseGuarded
    );
    assert_eq!(sprite_pose_for_colonist_frame(&colonist, Some(SocialBodyLanguage::Tense(-24)), 90), SpritePose::Tense);
}

fn check_shared_assignment_and_adjacency() {
    let (mut first, mut second) = alice_and_bob(Position::new(4, 4), Position::new(5, 4), JobPreference::Builder);

    assert!(adjacent_positions(first.position, second.position));
    first.assigned_workplace = Some(9);
    second.assigned_workplace = Some(9);
    assert!(shared_assignment_pin(&first, &second));
    second.assigned_workplace = Some(10);
    assert!(!shared_assignment_pin(&first, &second));
}

#[test]
fn game_state_test_terrain_detail_is_deterministic_and_skips_missing_cells() {
    check_terrain_detail_is_deterministic();
}

#[test]
fn game_state_tests_test_terrain_detail_is_deterministic_and_skips_missing_cells() {
    check_terrain_detail_is_deterministic();
}

#[test]
fn game_state_test_crash_site_detail_adds_deterministic_map_dressing() {
    check_crash_site_detail();
}

#[test]
fn game_state_tests_test_crash_site_detail_adds_deterministic_map_dressing() {
    check_crash_site_detail();
}

#[test]
fn game_state_test_average_relationship_uses_bidirectional_values() {
    check_average_relationship(true);
}

#[test]
fn game_state_tests_test_average_relationship_uses_bidirectional_values() {
    check_average_relationship(true);
}

#[test]
fn game_state_relationship_contact_test_average_relationship_uses_bidirectional_values() {
    check_average_relationship(false);
}

#[test]
fn game_state_test_space_assignment_kind_matches_role_and_room() {
    check_space_assignment_kind();
}

#[test]
fn game_state_tests_test_space_assignment_kind_matches_role_and_room() {
    check_space_assignment_kind();
}

#[test]
fn game_state_assignment_space_rules_test_space_assignment_kind_matches_role_and_room() {
    check_space_assignment_kind();
}

#[test]
fn game_state_test_shared_social_location_requires_same_building_or_ground_cell() {
    check_shared_social_location();
}

#[test]
fn game_state_tests_test_shared_social_location_requires_same_building_or_ground_cell() {
    check_shared_social_location();
}

#[test]
fn game_state_relationship_contact_test_shared_social_location_requires_same_building_or_ground_cell() {
    check_shared_social_location();
}

#[test]
fn game_state_test_toolbar_mode_from_name_accepts_capture_modes() {
    check_toolbar_mode_from_name();
}

#[test]
fn game_state_tests_test_toolbar_mode_from_name_accepts_capture_modes() {
    check_toolbar_mode_from_name();
}

#[test]
fn game_state_test_building_type_from_name_accepts_capture_names() {
    check_building_type_from_name();
}

#[test]
fn game_state_tests_test_building_type_from_name_accepts_capture_names() {
    check_building_type_from_name();
}

#[test]
fn game_state_test_assign_visible_indices_pin_selected_colonist_first() {
    check_visible_pin_selected_first();
}

#[test]
fn game_state_tests_test_assign_visible_indices_pin_selected_colonist_first() {
    check_visible_pin_selected_first();
}

#[test]
fn game_state_test_assign_visible_indices_page_through_remaining_colonists() {
    check_visible_page_through();
}

#[test]
fn game_state_tests_test_assign_visible_indices_page_through_remaining_colonists() {
    check_visible_page_through();
}

#[test]
fn game_state_test_assign_visible_indices_filter_and_sort_pressure() {
    check_visible_filter_and_sort_pressure();
}

#[test]
fn game_state_tests_test_assign_visible_indices_filter_and_sort_pressure() {
    check_visible_filter_and_sort_pressure();
}

#[test]
fn game_state_test_assign_visible_indices_filter_role() {
    check_visible_filter_role();
}

#[test]
fn game_state_tests_test_assign_visible_indices_filter_role() {
    check_visible_filter_role();
}

#[test]
fn game_state_test_assign_visible_indices_filter_building_instance() {
    check_visible_filter_building();
}

#[test]
fn game_state_tests_test_assign_visible_indices_filter_building_instance() {
    check_visible_filter_building();
}

#[test]
fn game_state_test_next_assign_role_filter_cycles_assignable_roles() {
    check_next_assign_role_filter();
}

#[test]
fn game_state_tests_test_next_assign_role_filter_cycles_assignable_roles() {
    check_next_assign_role_filter();
}

#[test]
fn game_state_assignment_roster_test_next_assign_role_filter_cycles_assignable_roles() {
    check_next_assign_role_filter();
}

#[test]
fn game_state_test_social_archive_markdown_exports_latest_report_first() {
    check_social_archive();
}

#[test]
fn game_state_tests_test_social_archive_markdown_exports_latest_report_first() {
    check_social_archive();
}

#[test]
fn game_state_social_archive_test_social_archive_markdown_exports_latest_report_first() {
    check_social_archive();
}

#[test]
fn game_state_test_batch_home_pin_respects_visible_page_and_capacity() {
    check_batch_home_pin();
}

#[test]
fn game_state_tests_test_batch_home_pin_respects_visible_page_and_capacity() {
    check_batch_home_pin();
}

#[test]
fn game_state_assignment_batch_rules_test_batch_home_pin_respects_visible_page_and_capacity() {
    check_batch_home_pin();
}

#[test]
fn game_state_test_batch_work_pin_only_copies_to_compatible_visible_roles() {
    check_batch_work_pin();
}

#[test]
fn game_state_tests_test_batch_work_pin_only_copies_to_compatible_visible_roles() {
    check_batch_work_pin();
}

#[test]
fn game_state_assignment_batch_rules_test_batch_work_pin_only_copies_to_compatible_visible_roles() {
    check_batch_work_pin();
}

#[test]
fn game_state_test_batch_assignment_log_names_all_colony_scope() {
    check_batch_assignment_log();
}

#[test]
fn game_state_tests_test_batch_assignment_log_names_all_colony_scope() {
    check_batch_assignment_log();
}

#[test]
fn game_state_assignment_batch_rules_test_batch_assignment_log_names_all_colony_scope() {
    check_batch_assignment_log();
}

#[test]
fn game_state_test_sprite_pose_tracks_colonist_state() {
    check_sprite_pose_tracks_state();
}

#[test]
fn game_state_tests_test_sprite_pose_tracks_colonist_state() {
    check_sprite_pose_tracks_state();
}

#[test]
fn game_state_test_social_body_language_overrides_idle_pose() {
    check_body_language_overrides_idle();
}

#[test]
fn game_state_tests_test_social_body_language_overrides_idle_pose() {
    check_body_language_overrides_idle();
}

#[test]
fn game_state_test_social_body_language_cycles_alternate_pose_frames() {
    check_body_language_cycles_frames();
}

#[test]
fn game_state_tests_test_social_body_language_cycles_alternate_pose_frames() {
    check_body_language_cycles_frames();
}

#[test]
fn game_state_test_shared_assignment_and_adjacency_drive_social_contact() {
    check_shared_assignment_and_adjacency();
}

#[test]
fn game_state_tests_test_shared_assignment_and_adjacency_drive_social_contact() {
    check_shared_assignment_and_adjacency();
}

#[test]
fn game_state_relationship_contact_test_shared_assignment_and_adjacency_drive_social_contact() {
    check_shared_assignment_and_adjacency();
}

#[test]
fn batch_home_pin_never_fills_a_full_habitat() {
    let mut colonists = builders(4);
    colonists[0].assigned_habitat = Some(7);
    colonists[1].assigned_habitat = Some(7);

    let assigned = apply_batch_home_pin(&mut colonists, 0, 7, &[0, 1, 2, 3], 2);

    assert!(assigned.is_empty());
    assert_eq!(colonists[2].assigned_habitat, None);
    assert_eq!(colonists[3].assigned_habitat, None);
}

#[test]
fn roster_with_no_matches_keeps_only_the_selected_colonist() {
    let colonists = builders(3);
    assert_eq!(
        visible(&colonists, Some(2), 0, AssignRosterFilter::All, AssignRosterSort::Roster, Some(JobPreference::Cook), None),
        vec![2]
    );
    assert_eq!(assign_roster_page_count(&colonists, None, AssignRosterFilter::All, Some(JobPreference::Cook), None), 1);
}

#[test]
fn roster_mood_sort_orders_by_the_mood_keys() {
    let colonists = builders(4);
    let moods = [50u32, 20, 80, 20];
    assert_eq!(
        assign_visible_colonist_indices(
            &colonists,
            None,
            0,
            AssignRosterFilter::All,
            AssignRosterSort::Mood,
            None,
            None,
            &moods
        ),
        vec![1, 3, 0, 2]
    );
}

#[test]
fn role_filter_cycle_returns_to_all_roles() {
    let mut filter = None;
    let mut seen = Vec::new();
    for _ in 0..10 {
        filter = next_assign_role_filter(filter);
        seen.push(filter);
        if filter.is_none() {
            break;
        }
    }
    assert_eq!(seen.last(), Some(&None));
    assert!(seen.len() > 2);
}
