use final_landing::building::BuildingType;
use final_landing::building_system::PlacementResult;
use final_landing::schedule::activity_for_hour;
use final_landing::colonist::{
    relationship_label, ActivityLocation, ActivityType, Colonist, ColonistState, JobPreference, RelationshipBand, Trait,
};
use final_landing::directives::PairDirective;
use final_landing::presentation::{
    colonist_activity_summary, directive_log_detail, placement_result_reason, social_archive_markdown, social_body_language_for,
    social_pose_uses_alternate_frame, SocialBodyLanguage,
};
use final_landing::terrain::{crash_site_detail, terrain_detail, terrain_seed, TerrainDetail};
use final_landing::grid::CellType;
use final_landing::text::{join_names, truncate_text};
use final_landing::time::TimeSystem;
use final_landing::types::Position;

#[test]
fn terrain_seed_matches_its_formula() {
    assert_eq!(terrain_seed(0, 0), 0x9E37_79B9);
    assert_eq!(terrain_seed(1, 0), 73_856_093u32 ^ 0x9E37_79B9);
    assert_eq!(terrain_seed(0, 1), 19_349_663u32 ^ 0x9E37_79B9);
    assert_eq!(terrain_seed(-1, 0), 73_856_093u32.wrapping_mul(u32::MAX) ^ 0x9E37_79B9);
}

#[test]
fn crash_site_props_win_over_seeded_details() {
    assert_eq!(terrain_detail(Some(CellType::Floor), 10, 10), TerrainDetail::SupplyCrate);
    assert_eq!(crash_site_detail(11, 10), Some(TerrainDetail::SupplyCrate));
    assert_eq!(crash_site_detail(13, 10), None);
}

#[test]
fn text_is_truncated_with_an_ellipsis() {
    assert_eq!(truncate_text("Alice, Bob", 46), "Alice, Bob");
    assert_eq!(truncate_text("abcdefghij", 6), "abc...");
    assert_eq!(truncate_text("abcdefghij", 2), "...");
    assert_eq!(join_names(&vec!["A".to_string(), "B".to_string(), "C".to_string()]), "A, B, C");
    assert_eq!(join_names(&Vec::new()), "");
}

#[test]
fn status_words_follow_the_state() {
    let mut colonist = Colonist::new(1, "Alice".to_string(), Position::new(0, 0), Trait::HardWorker, JobPreference::Builder);
    assert_eq!(colonist_activity_summary(&colonist), "Idle");
    colonist.state = ColonistState::Sleeping;
    assert_eq!(colonist_activity_summary(&colonist), "Resting");
    colonist.state = ColonistState::OnMission { mission_id: 2 };
    assert_eq!(colonist_activity_summary(&colonist), "On mission");
}

#[test]
fn placement_reasons_and_directive_texts() {
    assert_eq!(placement_result_reason(&PlacementResult::OutOfBounds), "Footprint leaves the map.");
    assert_eq!(placement_result_reason(&PlacementResult::Success(3)), "Placement succeeded.");
    assert_eq!(
        directive_log_detail(PairDirective::Separate, "Alice", "Bob"),
        "Alice and Bob will avoid sharing work and recovery spaces when another option exists."
    );
}

#[test]
fn body_language_sizes_and_marks() {
    assert_eq!(SocialBodyLanguage::Tense(-24).intensity(), 24);
    assert_eq!(SocialBodyLanguage::Supported(28).intensity(), 28);
    assert_eq!(SocialBodyLanguage::Tense(-24).symbol(), "!");
    assert!(!social_pose_uses_alternate_frame(44));
    assert!(social_pose_uses_alternate_frame(45));
    assert!(!social_pose_uses_alternate_frame(90));
}

#[test]
fn empty_archive_still_has_a_header() {
    let export = social_archive_markdown(&[]);
    assert!(export.starts_with("# The Final Landing Social Archive"));
    assert!(export.contains("Reports: 0"));
}

#[test]
fn relationship_bands_and_labels() {
    assert_eq!(RelationshipBand::from_value(40), RelationshipBand::from_value(35));
    assert_eq!(relationship_label(0), "Neutral");
    assert_eq!(relationship_label(-32), "Hostile");
}

#[test]
fn time_of_day_counts_days_from_one() {
    assert_eq!(TimeSystem::get_time_of_day(0), (1, 0, 0));
    assert_eq!(TimeSystem::get_time_of_day(1440 + 125), (2, 2, 5));
}

#[test]
fn daily_routine_by_hour() {
    assert_eq!(activity_for_hour(6), ActivityType::Eat);
    assert_eq!(activity_for_hour(7), ActivityType::Work);
    assert_eq!(activity_for_hour(17), ActivityType::Work);
    assert_eq!(activity_for_hour(18), ActivityType::Relax);
    assert_eq!(activity_for_hour(21), ActivityType::Eat);
    assert_eq!(activity_for_hour(23), ActivityType::Sleep);
    assert_eq!(activity_for_hour(3), ActivityType::Sleep);
}

#[test]
fn body_language_follows_the_strongest_feeling_in_contact() {
    let mut colonists: Vec<Colonist> = (1..=3)
        .map(|id| Colonist::new(id, format!("C{}", id), Position::new(id as i32 * 5, 0), Trait::HardWorker, JobPreference::Builder))
        .collect();
    colonists[0].relationships.insert(2, -24);
    colonists[0].relationships.insert(3, 30);
    colonists[1].relationships.insert(1, -24);
    colonists[2].relationships.insert(1, 30);
    assert_eq!(social_body_language_for(&colonists, &colonists[0]), None);

    let workshop = ActivityLocation::Building { building_id: 4, building_type: BuildingType::Workshop };
    colonists[0].activity_location = workshop;
    colonists[1].activity_location = workshop;
    assert_eq!(social_body_language_for(&colonists, &colonists[0]), Some(SocialBodyLanguage::Tense(-24)));

    colonists[2].activity_location = workshop;
    assert_eq!(social_body_language_for(&colonists, &colonists[0]), Some(SocialBodyLanguage::Supported(30)));

    colonists[0].state = ColonistState::Sleeping;
    assert_eq!(social_body_language_for(&colonists, &colonists[0]), None);
}
