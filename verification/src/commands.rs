//! Player commands on the colony: placing and undoing buildings, launching
//! missions, pairing or separating survivors, pinning survivors to rooms,
//! and copying pins across the roster. Each command logs its outcome.
use crate::building::{
    spec_building_name, spec_placement_impact, spec_planning_role, spec_purpose, spec_salvage_cost, Building, BuildingType,
};
use crate::building_system::{placement_post, undo_post, PlacementResult};
use crate::colonist::{all_summable, spec_work_building, ActivityLocation, Colonist, ColonistState, JobPreference};
use crate::directives::{
    colonist_by_id, find_colonist, toggle_post, DirectiveChange, DirectiveError, PairDirective, RelationshipDirectiveSystem,
};
use crate::event_log::LogCategory;
use crate::game_state::GameState;
use crate::mission::{spec_mission_name, MissionType};
use crate::mission_system::{launch_post, LaunchMissionError, MissionSystem};
use crate::planning_system::{spec_invalid_reason, PlanningSystem};
use crate::priority::{spec_priority_description, spec_priority_label, ColonyPriority};
use crate::presentation::{directive_log_detail, spec_directive_log_detail};
use crate::resource_system::{logged, sizes_ok};
use crate::roster::{
    apply_batch_home_pin, apply_batch_work_pin, assign_roster_page_count, assign_visible_colonist_indices, batch_assignment_log,
    space_assignment_kind, spec_page_count,
    spec_space_kind, AssignRosterFilter, AssignRosterSort, BatchAssignmentScope, SpaceAssignmentKind,
};
use crate::text::{decimal, join_names, joined, push_decimal, push_signed, signed_decimal, text, truncate_text, truncated};
use crate::types::Position;
use vstd::prelude::*;
use vstd::string::StringExecFns;

verus! {

/// The assignment panel's selection, page, filters, and order.
#[derive(Clone, Copy, Debug, PartialEq, Eq, Structural)]
pub struct AssignPanel {
    pub selected_colonist_id: Option<u32>,
    pub page: usize,
    pub filter: AssignRosterFilter,
    pub sort: AssignRosterSort,
    pub role_filter: Option<JobPreference>,
    pub building_filter: Option<u32>,
}

/// Which pin a batch copy spreads, and to whom.
#[derive(Clone, Copy, Debug, PartialEq, Eq, Structural)]
pub enum AssignBatchAction {
    PageHome,
    AllHome,
    PageWork,
    AllWork,
}

impl AssignBatchAction {
    /// Whether the copy reaches every survivor rather than the visible page.
    pub fn targets_all(self) -> (r: bool)
        ensures
            r == (self == AssignBatchAction::AllHome || self == AssignBatchAction::AllWork),
    {
        match self {
            AssignBatchAction::AllHome | AssignBatchAction::AllWork => true,
            _ => false,
        }
    }
}

pub open spec fn placed_detail(t: BuildingType, id: u32, remaining: int) -> Seq<char> {
    "Added "@ + spec_planning_role(t) + " support: "@ + spec_placement_impact(t) + " Building #"@ + decimal(id as nat)
        + " cost "@ + signed_decimal(spec_salvage_cost(t) as int) + " salvage; "@ + signed_decimal(remaining) + " remain."@
}

pub open spec fn blocked_detail(reason: Seq<char>, t: BuildingType) -> Seq<char> {
    reason + " "@ + spec_building_name(t) + " helps "@ + spec_planning_role(t) + ": "@ + spec_purpose(t)
}

/// What placing a building does to the colony (see `place_building`).
pub open spec fn place_building_post(s0: GameState, t: BuildingType, pos: Position, s1: GameState, r: Option<u32>) -> bool {
    &&& match spec_invalid_reason(s0, t, pos) {
        Some(reason) => {
            &&& r is None
            &&& logged(s0, s1, LogCategory::System, "Cannot place "@ + spec_building_name(t),
                blocked_detail(reason, t))
            &&& s1.building_system == s0.building_system
            &&& s1.grid == s0.grid
            &&& s1.resources == s0.resources
        },
        None => {
            let id = s0.building_system.upcoming_id();
            let left = s0.resources.salvage - spec_salvage_cost(t);
            &&& r == Some(id)
            &&& placement_post(s0.building_system, s0.grid, t, pos,
                s1.building_system, s1.grid, PlacementResult::Success(id))
            &&& s1.resources.salvage == left
            &&& logged(s0, s1, LogCategory::System, spec_building_name(t) + " placed"@,
                placed_detail(t, id, left))
        },
    }
    &&& s1.colonists == s0.colonists
    &&& s1.tick == s0.tick
    &&& s1.missions == s0.missions
    &&& s1.technology == s0.technology
}

/// Places a building where the player clicked, when the placement panel
/// finds nothing wrong: the salvage is spent and the placement logged.
/// Otherwise the reason is logged. Returns the new building's id.
pub fn place_building(state: &mut GameState, building_type: BuildingType, position: Position) -> (r: Option<u32>)
    requires
        old(state).wf(),
        sizes_ok(*old(state)),
        old(state).building_system.upcoming_id() < u32::MAX,
    ensures
        final(state).wf(),
        place_building_post(*old(state), building_type, position, *final(state), r),
        old(state).resources.salvage >= 0 ==> final(state).resources.salvage >= 0,
{
    proof {
        state.building_system.lemma_consistent_grid(&state.grid);
    }
    let feedback = PlanningSystem::building_feedback(state, building_type, position);
    match feedback.invalid_reason {
        Some(reason) => {
            let mut title = text("Cannot place ");
            title.append(building_type.name());
            let mut detail = reason;
            detail.append(" ");
            detail.append(building_type.name());
            detail.append(" helps ");
            detail.append(feedback.helps);
            detail.append(": ");
            detail.append(feedback.purpose);
            state.push_log(LogCategory::System, title, detail);
            None
        },
        None => {
            proof {
                crate::planning_system::law_clear_feedback_means_placement(*state, building_type, position);
            }
            let result = state.building_system.try_place_building(&mut state.grid, building_type, position);
            match result {
                PlacementResult::Success(building_id) => {
                    state.resources.spend_salvage(building_type.salvage_cost());
                    let mut title = text(building_type.name());
                    title.append(" placed");
                    let detail = PlanningSystem::placement_log_detail(&feedback, building_id, state.resources.salvage);
                    state.push_log(LogCategory::System, title, detail);
                    Some(building_id)
                },
                _ => {
                    let mut title = text("Cannot place ");
                    title.append(building_type.name());
                    state.push_log(LogCategory::System, title,
                        text(crate::presentation::placement_result_reason(&result)));
                    None
                },
            }
        },
    }
}

/// A survivor with any pin to the building removed.
pub open spec fn unpinned(c: Colonist, id: u32) -> Colonist {
    Colonist {
        assigned_habitat: if c.assigned_habitat == Some(id) { None } else { c.assigned_habitat },
        assigned_workplace: if c.assigned_workplace == Some(id) { None } else { c.assigned_workplace },
        ..c
    }
}

/// The names of the survivors of `cs` pinned (home or work) to the building.
pub open spec fn pinned_names(cs: Seq<Colonist>, id: u32) -> Seq<Seq<char>>
    decreases cs.len(),
{
    if cs.len() == 0 {
        Seq::empty()
    } else if cs.last().assigned_habitat == Some(id) || cs.last().assigned_workplace == Some(id) {
        pinned_names(cs.drop_last(), id).push(cs.last().name@)
    } else {
        pinned_names(cs.drop_last(), id)
    }
}

/// Removes every pin to a building (and the roster filter on it); returns
/// the names of the survivors who lost a pin.
pub fn clear_building_assignments(state: &mut GameState, panel: &mut AssignPanel, building_id: u32) -> (cleared: Vec<String>)
    ensures
        cleared@.map_values(|n: String| n@) == pinned_names(old(state).colonists@, building_id),
        final(state).colonists@ == old(state).colonists@.map_values(|c: Colonist| unpinned(c, building_id)),
        crate::game_state::same_except_colonists(*old(state), *final(state)),
        final(panel).building_filter == (if old(panel).building_filter == Some(building_id) { None } else { old(panel).building_filter }),
        *final(panel) == (AssignPanel { building_filter: final(panel).building_filter, ..*old(panel) }),
        old(state).wf() ==> final(state).wf(),
{
    if panel.building_filter == Some(building_id) {
        panel.building_filter = None;
    }
    let ghost s0 = *state;
    let mut cleared: Vec<String> = Vec::new();
    let mut i: usize = 0;
    while i < state.colonists.len()
        invariant
            i <= s0.colonists@.len(),
            state.colonists@.len() == s0.colonists@.len(),
            crate::game_state::same_except_colonists(s0, *state),
            cleared@.map_values(|n: String| n@) == pinned_names(s0.colonists@.take(i as int), building_id),
            forall|k: int| 0 <= k < i ==> #[trigger] state.colonists@[k] == unpinned(s0.colonists@[k], building_id),
            forall|k: int| i <= k < s0.colonists@.len() ==> #[trigger] state.colonists@[k] == s0.colonists@[k],
        decreases s0.colonists@.len() - i,
    {
        assert(s0.colonists@.take(i + 1).drop_last() == s0.colonists@.take(i as int));
        assert(s0.colonists@.take(i + 1).last() == s0.colonists@[i as int]);
        let mut changed = false;
        if state.colonists[i].assigned_habitat == Some(building_id) {
            state.colonists[i].assigned_habitat = None;
            changed = true;
        }
        if state.colonists[i].assigned_workplace == Some(building_id) {
            state.colonists[i].assigned_workplace = None;
            changed = true;
        }
        if changed {
            let name = state.colonists[i].name.clone();
            cleared.push(name);
        }
        i = i + 1;
    }
    assert(s0.colonists@.take(s0.colonists@.len() as int) == s0.colonists@);
    assert(state.colonists@ == s0.colonists@.map_values(|c: Colonist| unpinned(c, building_id)));
    proof {
        if s0.wf() {
            assert forall|k: int| 0 <= k < state.colonists@.len() implies
                crate::colonist::relationships_summable(#[trigger] state.colonists@[k]) by {
                assert(crate::colonist::relationships_summable(s0.colonists@[k]));
            }
        }
    }
    cleared
}

pub open spec fn pins_note(names: Seq<Seq<char>>) -> Seq<char> {
    if names.len() == 0 { Seq::empty() } else { " Cleared room pins for "@ + truncated(joined(names), 46) + "."@ }
}

/// What undoing the last placement does to the colony (see `undo_last_building`).
pub open spec fn undo_building_post(s0: GameState, s1: GameState, r: Option<u32>) -> bool {
    &&& undo_post(s0.building_system, s0.grid, s1.building_system, s1.grid, r)
    &&& match r {
        None => s1.colonists == s0.colonists && s1.resources == s0.resources
            && s1.event_log == s0.event_log,
        Some(id) => {
            let last = s0.building_system.placed().last();
            let note = pins_note(pinned_names(s0.colonists@, id));
            &&& s1.colonists@ == s0.colonists@.map_values(|c: Colonist| unpinned(c, id))
            &&& s1.resources.salvage == s0.resources.salvage + spec_salvage_cost(last.building_type)
            &&& logged(s0, s1, LogCategory::System, "Building plan undone"@,
                "Removed "@ + spec_building_name(last.building_type) + " #"@ + decimal(id as nat) + " and refunded "@
                    + signed_decimal(spec_salvage_cost(last.building_type) as int) + " salvage."@ + note)
        },
    }
}

/// Undoes the most recent placement: the building is removed, pins to it
/// are cleared, its salvage is refunded, and the undo is logged.
pub fn undo_last_building(state: &mut GameState, panel: &mut AssignPanel) -> (r: Option<u32>)
    requires
        old(state).wf(),
        sizes_ok(*old(state)),
    ensures
        final(state).wf(),
        undo_building_post(*old(state), *final(state), r),
{
    let ghost s0 = *state;
    proof {
        state.building_system.lemma_consistent_grid(&state.grid);
        if state.building_system.undo_ids().len() > 0 {
            crate::building_system::lemma_last_placed_is_last(state.building_system, state.grid);
        }
    }
    let refund: Option<(u32, BuildingType, i32)> = match state.building_system.last_placed_building() {
        Some(b) => Some((b.id, b.building_type, b.building_type.salvage_cost())),
        None => None,
    };
    let undone = state.building_system.undo_last_placement(&mut state.grid);
    let building_id = match undone {
        Some(id) => id,
        None => return None,
    };
    let cleared = clear_building_assignments(state, panel, building_id);
    let mut note = String::new();
    if cleared.len() > 0 {
        let joined_names = join_names(&cleared);
        let shown = truncate_text(joined_names.as_str(), 46);
        note.append(" Cleared room pins for ");
        note.append(shown.as_str());
        note.append(".");
    }
    match refund {
        Some((refund_id, building_type, salvage_cost)) => {
            if refund_id == building_id {
                state.resources.refund_salvage(salvage_cost);
                let mut detail = text("Removed ");
                detail.append(building_type.name());
                detail.append(" #");
                push_decimal(&mut detail, building_id as u64);
                detail.append(" and refunded ");
                push_signed(&mut detail, salvage_cost as i64);
                detail.append(" salvage.");
                detail.append(note.as_str());
                state.push_log(LogCategory::System, text("Building plan undone"), detail);
                return Some(building_id);
            }
        },
        None => {},
    }
    let mut detail = text("Removed building #");
    push_decimal(&mut detail, building_id as u64);
    detail.append(" from the settlement plan.");
    detail.append(note.as_str());
    state.push_log(LogCategory::System, text("Building plan undone"), detail);
    Some(building_id)
}

pub open spec fn launch_refusal_log(t: MissionType, e: LaunchMissionError) -> (Seq<char>, Seq<char>) {
    match e {
        LaunchMissionError::NoExplorationGate => ("No Exploration Gate"@,
            "Build an Exploration Gate before sending "@ + spec_mission_name(t) + "."@),
        LaunchMissionError::NoAvailableColonist => ("No available mission crew"@,
            spec_mission_name(t) + " needs a colonist who is not away or hurt."@),
        LaunchMissionError::MissionCooldown { remaining_ticks } => ("Mission crew regrouping"@,
            "Wait "@ + decimal(remaining_ticks as nat) + " more minutes before launching another mission."@),
    }
}

/// Launches a mission of the chosen kind, or logs why it cannot go.
pub fn launch_mission(state: &mut GameState, mission_type: MissionType) -> (r: Result<u32, LaunchMissionError>)
    requires
        old(state).missions.next_id < u32::MAX,
        old(state).tick <= u64::MAX - 60,
    ensures
        match r {
            Ok(_) => launch_post(*old(state), *final(state), mission_type, r),
            Err(e) => {
                &&& launch_post(*old(state), *old(state), mission_type, r)
                &&& logged(*old(state), *final(state), LogCategory::Mission, launch_refusal_log(mission_type, e).0,
                    launch_refusal_log(mission_type, e).1)
                &&& crate::game_state::same_except_log(*old(state), *final(state))
            },
        },
{
    let ghost s0 = *state;
    let result = MissionSystem::launch_mission(state, mission_type);
    match result {
        Ok(id) => Ok(id),
        Err(error) => {
            assert(launch_post(s0, *state, mission_type, result) && *state == s0);
            let definition = mission_type.definition();
            let (title, detail) = match error {
                LaunchMissionError::NoExplorationGate => {
                    let mut d = text("Build an Exploration Gate before sending ");
                    d.append(definition.name);
                    d.append(".");
                    (text("No Exploration Gate"), d)
                },
                LaunchMissionError::NoAvailableColonist => {
                    let mut d = text(definition.name);
                    d.append(" needs a colonist who is not away or hurt.");
                    (text("No available mission crew"), d)
                },
                LaunchMissionError::MissionCooldown { remaining_ticks } => {
                    let mut d = text("Wait ");
                    push_decimal(&mut d, remaining_ticks);
                    d.append(" more minutes before launching another mission.");
                    (text("Mission crew regrouping"), d)
                },
            };
            state.push_log(LogCategory::Mission, title, detail);
            Err(error)
        },
    }
}

/// The name the log uses for a survivor id.
pub open spec fn display_name(cs: Seq<Colonist>, id: u32) -> Seq<char> {
    match find_colonist(cs, id) {
        Some(c) => c.name@,
        None => "Colonist "@ + decimal(id as nat),
    }
}

fn name_for(colonists: &[Colonist], id: u32) -> (r: String)
    ensures
        r@ == display_name(colonists@, id),
{
    match colonist_by_id(colonists, id) {
        Some(c) => c.name.clone(),
        None => {
            let mut n = text("Colonist ");
            push_decimal(&mut n, id as u64);
            n
        },
    }
}

pub open spec fn directive_word(d: PairDirective) -> Seq<char> {
    match d {
        PairDirective::Pair => "pair"@,
        PairDirective::Separate => "apart"@,
    }
}

/// The log entry a directive toggle writes.
pub open spec fn directive_log(d: Result<DirectiveChange, DirectiveError>, a: Seq<char>, b: Seq<char>) -> (Seq<char>, Seq<char>) {
    match d {
        Ok(DirectiveChange::Applied(PairDirective::Pair)) => ("Pair directive"@, spec_directive_log_detail(PairDirective::Pair, a, b)),
        Ok(DirectiveChange::Applied(PairDirective::Separate)) => ("Space directive"@,
            spec_directive_log_detail(PairDirective::Separate, a, b)),
        Ok(DirectiveChange::Cleared(x)) => ("Relationship directive cleared"@,
            a + " and "@ + b + " no longer have a forced "@ + directive_word(x) + " directive."@),
        Err(_) => ("Directive failed"@, "Could not update a directive between "@ + a + " and "@ + b + "."@),
    }
}

/// Pairs or separates two survivors as their relationship suggests (or
/// clears that directive when it is already set), and logs the change.
pub fn toggle_relationship_directive(state: &mut GameState, first_id: u32, second_id: u32)
    -> (r: Result<DirectiveChange, DirectiveError>)
    requires
        all_summable(old(state).colonists@),
    ensures
        toggle_post(old(state).colonists@, first_id, second_id, final(state).colonists@, r),
        logged(*old(state), *final(state), LogCategory::Social,
            directive_log(r, display_name(old(state).colonists@, first_id), display_name(old(state).colonists@, second_id)).0,
            directive_log(r, display_name(old(state).colonists@, first_id), display_name(old(state).colonists@, second_id)).1),
        final(state).resources == old(state).resources,
        final(state).building_system == old(state).building_system,
        final(state).grid == old(state).grid,
        final(state).missions == old(state).missions,
        final(state).tick == old(state).tick,
{
    let first_name = name_for(&state.colonists, first_id);
    let second_name = name_for(&state.colonists, second_id);
    let change = RelationshipDirectiveSystem::toggle_pair_directive(&mut state.colonists, first_id, second_id);
    let (title, detail) = match change {
        Ok(DirectiveChange::Applied(directive)) => {
            (text(directive.log_title()), directive_log_detail(directive, first_name.as_str(), second_name.as_str()))
        },
        Ok(DirectiveChange::Cleared(directive)) => {
            let mut d = first_name.clone();
            d.append(" and ");
            d.append(second_name.as_str());
            d.append(" no longer have a forced ");
            match directive {
                PairDirective::Pair => d.append("pair"),
                PairDirective::Separate => d.append("apart"),
            }
            d.append(" directive.");
            (text("Relationship directive cleared"), d)
        },
        Err(_) => {
            let mut d = text("Could not update a directive between ");
            d.append(first_name.as_str());
            d.append(" and ");
            d.append(second_name.as_str());
            d.append(".");
            (text("Directive failed"), d)
        },
    };
    state.push_log(LogCategory::Social, title, detail);
    change
}


pub open spec fn job_label(j: JobPreference) -> Seq<char> {
    match j {
        JobPreference::Explorer => "Explorer"@,
        JobPreference::Builder => "Builder"@,
        JobPreference::Cook => "Cook"@,
        JobPreference::Hauler => "Hauler"@,
        JobPreference::Unassigned => "Unassigned"@,
    }
}

/// Pinning a survivor to a room toggles the pin: the survivor after it and
/// the log title and detail.
pub open spec fn room_pin(c: Colonist, b: Building, kind: SpaceAssignmentKind) -> (Colonist, Seq<char>, Seq<char>) {
    let name = c.name@;
    let id = decimal(b.id as nat);
    match kind {
        SpaceAssignmentKind::Recovery => if c.assigned_habitat == Some(b.id) {
            (Colonist { assigned_habitat: None, ..c }, "Recovery room pin cleared"@,
                name + " can choose any available Habitat again."@)
        } else {
            (Colonist { assigned_habitat: Some(b.id), ..c }, "Recovery room pinned"@,
                name + " will prefer Habitat #"@ + id + " for sleep and recovery."@)
        },
        SpaceAssignmentKind::Work => if c.assigned_workplace == Some(b.id) {
            (Colonist { assigned_workplace: None, ..c }, "Work space pin cleared"@,
                name + " can choose any compatible "@ + job_label(c.job_preference) + " space again."@)
        } else {
            (crate::roster::with_work(c, b.id), "Work space pinned"@,
                name + " will prefer "@ + spec_building_name(b.building_type) + " #"@ + id + " while assigned "@
                    + job_label(c.job_preference) + "."@)
        },
    }
}

/// Pins (or unpins) the selected survivor to a building it can use: a
/// habitat for recovery, or its role's workplace. An incompatible building
/// is refused with a log entry.
pub fn assign_selected_colonist_to_building(state: &mut GameState, colonist_id: u32, building: &Building)
    ensures
        match crate::mission_system::first_with_id(old(state).colonists@, colonist_id) {
            None => *final(state) == *old(state),
            Some(i) => {
                let c = old(state).colonists@[i];
                match spec_space_kind(c.job_preference, building.building_type) {
                    None => {
                        &&& final(state).colonists == old(state).colonists
                        &&& logged(*old(state), *final(state), LogCategory::Social, "Room assignment blocked"@,
                            c.name@ + " cannot pin "@ + spec_building_name(building.building_type) + " #"@
                                + decimal(building.id as nat) + " while assigned "@ + job_label(c.job_preference)
                                + ". Retask first or choose a compatible space."@)
                    },
                    Some(kind) => {
                        let (c1, title, detail) = room_pin(c, *building, kind);
                        &&& final(state).colonists@ == old(state).colonists@.update(i, c1)
                        &&& logged(*old(state), *final(state), LogCategory::Social, title, detail)
                    },
                }
            },
        },
        final(state).resources == old(state).resources,
        final(state).building_system == old(state).building_system,
        final(state).grid == old(state).grid,
        final(state).tick == old(state).tick,
        old(state).wf() ==> final(state).wf(),
{
    let ghost s0 = *state;
    let colonist_index = match crate::mission_system::colonist_index_by_id(&state.colonists, colonist_id) {
        Some(i) => i,
        None => return,
    };
    let name = state.colonists[colonist_index].name.clone();
    let job = state.colonists[colonist_index].job_preference;
    let kind = match space_assignment_kind(job, building.building_type) {
        Some(k) => k,
        None => {
            let mut d = name.clone();
            d.append(" cannot pin ");
            d.append(building.building_type.name());
            d.append(" #");
            push_decimal(&mut d, building.id as u64);
            d.append(" while assigned ");
            d.append(job.label());
            d.append(". Retask first or choose a compatible space.");
            state.push_log(LogCategory::Social, text("Room assignment blocked"), d);
            return;
        },
    };
    let (title, detail) = match kind {
        SpaceAssignmentKind::Recovery => {
            if state.colonists[colonist_index].assigned_habitat == Some(building.id) {
                state.colonists[colonist_index].assigned_habitat = None;
                let mut d = name.clone();
                d.append(" can choose any available Habitat again.");
                (text("Recovery room pin cleared"), d)
            } else {
                state.colonists[colonist_index].assigned_habitat = Some(building.id);
                let mut d = name.clone();
                d.append(" will prefer Habitat #");
                push_decimal(&mut d, building.id as u64);
                d.append(" for sleep and recovery.");
                (text("Recovery room pinned"), d)
            }
        },
        SpaceAssignmentKind::Work => {
            if state.colonists[colonist_index].assigned_workplace == Some(building.id) {
                state.colonists[colonist_index].assigned_workplace = None;
                let mut d = name.clone();
                d.append(" can choose any compatible ");
                d.append(job.label());
                d.append(" space again.");
                (text("Work space pin cleared"), d)
            } else {
                state.colonists[colonist_index].assigned_workplace = Some(building.id);
                match state.colonists[colonist_index].state {
                    ColonistState::Working | ColonistState::Moving { .. } => {
                        state.colonists[colonist_index].state = ColonistState::Idle;
                        state.colonists[colonist_index].activity_location = ActivityLocation::Unset;
                    },
                    _ => {},
                }
                let mut d = name.clone();
                d.append(" will prefer ");
                d.append(building.building_type.name());
                d.append(" #");
                push_decimal(&mut d, building.id as u64);
                d.append(" while assigned ");
                d.append(job.label());
                d.append(".");
                (text("Work space pinned"), d)
            }
        },
    };
    proof {
        let c = s0.colonists@[colonist_index as int];
        assert(state.colonists@ == s0.colonists@.update(colonist_index as int, room_pin(c, *building, kind).0));
        assert(title@ == room_pin(c, *building, kind).1);
        assert(detail@ == room_pin(c, *building, kind).2);
    }
    state.push_log(LogCategory::Social, title, detail);
    proof {
        if s0.wf() {
            assert forall|k: int| 0 <= k < state.colonists@.len() implies
                crate::colonist::relationships_summable(#[trigger] state.colonists@[k]) by {
                assert(crate::colonist::relationships_summable(s0.colonists@[k]));
            }
        }
    }
}


/// The survivors a batch copy reaches: everyone, or the visible page.
pub open spec fn batch_targets(cs: Seq<Colonist>, panel: AssignPanel, all: bool, moods: Seq<u32>, targets: Seq<usize>) -> bool {
    if all {
        targets == Seq::new(cs.len(), |i: int| i as usize)
    } else {
        exists|roster: Seq<usize>|
            #[trigger] crate::roster::is_sorted_roster(cs, crate::roster::selected_index_of(cs, panel.selected_colonist_id),
                panel.filter, panel.sort, panel.role_filter, panel.building_filter, moods, roster)
            && crate::roster::visible_from(cs, panel.selected_colonist_id, panel.page as int, panel.filter,
                panel.role_filter, panel.building_filter, roster, targets)
    }
}

pub open spec fn unavailable_detail(name: Seq<char>, kind: Seq<char>) -> Seq<char> {
    name + " needs a pinned "@ + kind + " space before that pin can be copied."@
}

fn log_batch_assignment_unavailable(state: &mut GameState, pin_kind: &str, selected_name: &str)
    ensures
        logged(*old(state), *final(state), LogCategory::Social, "Batch assignment unavailable"@,
            unavailable_detail(selected_name@, pin_kind@)),
        crate::game_state::same_except_log(*old(state), *final(state)),
{
    let mut d = text(selected_name);
    d.append(" needs a pinned ");
    d.append(pin_kind);
    d.append(" space before that pin can be copied.");
    state.push_log(LogCategory::Social, text("Batch assignment unavailable"), d);
}

/// All indices of the colonists, in order.
fn all_indices(n: usize) -> (r: Vec<usize>)
    ensures
        r@ == Seq::new(n as nat, |i: int| i as usize),
{
    let mut r: Vec<usize> = Vec::new();
    let mut i: usize = 0;
    while i < n
        invariant
            i <= n,
            r@ == Seq::new(i as nat, |k: int| k as usize),
        decreases n - i,
    {
        r.push(i);
        i = i + 1;
        assert(r@ =~= Seq::new(i as nat, |k: int| k as usize));
    }
    r
}

/// A copied home pin: the survivors after the copy and the log entry.
pub open spec fn home_batch_ok(s0: GameState, s1: GameState, panel: AssignPanel, all: bool, moods: Seq<u32>,
    sel: u32, name: Seq<char>, h: u32) -> bool
{
    exists|targets: Seq<usize>| #[trigger] batch_targets(s0.colonists@, panel, all, moods, targets) && {
        let cap = (2 + (if s0.technology.unlocked@.contains(crate::technology::TechId::ModularHabitats) { 1int } else { 0int })) as u32;
        let (cs1, _, names) = crate::roster::home_pin_fold(s0.colonists@, sel, h, targets, cap,
            crate::roster::count_home(s0.colonists@, h) as int);
        &&& s1.colonists@ == cs1
        &&& logged(s0, s1, LogCategory::Social, "Batch recovery pins"@,
            crate::roster::spec_batch_log_detail(name, "H"@, h,
                if all { BatchAssignmentScope::All } else { BatchAssignmentScope::Page }, names))
    }
}

/// A copied work pin: the survivors after the copy and the log entry.
pub open spec fn work_batch_ok(s0: GameState, s1: GameState, panel: AssignPanel, all: bool, moods: Seq<u32>,
    sel: u32, name: Seq<char>, w: u32, t: BuildingType) -> bool
{
    exists|targets: Seq<usize>| #[trigger] batch_targets(s0.colonists@, panel, all, moods, targets) && {
        let (cs1, names) = crate::roster::work_pin_fold(s0.colonists@, sel, w, t, targets);
        &&& s1.colonists@ == cs1
        &&& logged(s0, s1, LogCategory::Social, "Batch work pins"@,
            crate::roster::spec_batch_log_detail(name, "W"@, w,
                if all { BatchAssignmentScope::All } else { BatchAssignmentScope::Page }, names))
    }
}

/// The batch copy refused for want of a pin to copy.
pub open spec fn batch_unavailable(s0: GameState, s1: GameState, name: Seq<char>, kind: Seq<char>) -> bool {
    logged(s0, s1, LogCategory::Social, "Batch assignment unavailable"@, unavailable_detail(name, kind))
        && s1.colonists == s0.colonists
}

/// What a batch copy does.
pub open spec fn batch_post(s0: GameState, s1: GameState, panel: AssignPanel, action: AssignBatchAction, moods: Seq<u32>) -> bool {
    &&& s1.resources == s0.resources
    &&& s1.building_system == s0.building_system
    &&& s1.grid == s0.grid
    &&& s1.tick == s0.tick
    &&& match panel.selected_colonist_id {
        None => s1 == s0,
        Some(sel) => match find_colonist(s0.colonists@, sel) {
            None => s1 == s0,
            Some(selected) => {
                let all = action == AssignBatchAction::AllHome || action == AssignBatchAction::AllWork;
                let home = action == AssignBatchAction::PageHome || action == AssignBatchAction::AllHome;
                if home {
                    match selected.assigned_habitat {
                        None => batch_unavailable(s0, s1, selected.name@, "home"@),
                        Some(h) => home_batch_ok(s0, s1, panel, all, moods, sel, selected.name@, h),
                    }
                } else {
                    match selected.assigned_workplace {
                        None => batch_unavailable(s0, s1, selected.name@, "work"@),
                        Some(w) => {
                            if forall|k: int| 0 <= k < s0.building_system.placed().len()
                                ==> #[trigger] s0.building_system.placed()[k].id != w {
                                batch_unavailable(s0, s1, selected.name@, "work"@)
                            } else {
                                exists|b: Building| #[trigger] crate::building_system::first_with_id(s0.building_system.placed(), w, b)
                                    && work_batch_ok(s0, s1, panel, all, moods, sel, selected.name@, w, b.building_type)
                            }
                        },
                    }
                }
            },
        },
    }
}

/// Copies the selected survivor's home or work pin to the visible page or
/// to every survivor, then logs who was pinned. Without a selection nothing
/// happens; without the pin to copy, that is logged instead.
pub fn apply_assign_batch_action(state: &mut GameState, panel: &AssignPanel, action: AssignBatchAction, mood_keys: &[u32])
    requires
        crate::roster::sort_inputs_ok(old(state).colonists@, panel.sort, mood_keys@),
        old(state).colonists@.len() <= u32::MAX,
    ensures
        batch_post(*old(state), *final(state), *panel, action, mood_keys@),
        final(state).resources == old(state).resources,
        final(state).building_system == old(state).building_system,
        final(state).grid == old(state).grid,
        final(state).tick == old(state).tick,
{
    let selected_id = match panel.selected_colonist_id {
        Some(id) => id,
        None => return,
    };
    let all = action.targets_all();
    let target_indices = if all {
        all_indices(state.colonists.len())
    } else {
        assign_visible_colonist_indices(&state.colonists, panel.selected_colonist_id, panel.page, panel.filter, panel.sort,
            panel.role_filter, panel.building_filter, mood_keys)
    };
    let scope = if all { BatchAssignmentScope::All } else { BatchAssignmentScope::Page };
    let (selected_name, selected_habitat, selected_workplace) = match colonist_by_id(&state.colonists, selected_id) {
        Some(c) => (c.name.clone(), c.assigned_habitat, c.assigned_workplace),
        None => return,
    };
    let ghost s0 = *state;
    assert(batch_targets(s0.colonists@, *panel, all, mood_keys@, target_indices@));
    let (title, detail) = match action {
        AssignBatchAction::PageHome | AssignBatchAction::AllHome => {
            let habitat_id = match selected_habitat {
                Some(h) => h,
                None => {
                    log_batch_assignment_unavailable(state, "home", selected_name.as_str());
                    return;
                },
            };
            let capacity = 2 + state.technology.habitat_capacity_bonus();
            let assigned = apply_batch_home_pin(&mut state.colonists, selected_id, habitat_id, &target_indices, capacity);
            let ghost cap_spec = (2 + (if s0.technology.unlocked@.contains(crate::technology::TechId::ModularHabitats) { 1int } else { 0int })) as u32;
            assert(capacity == cap_spec);
            assert(state.colonists@ == crate::roster::home_pin_fold(s0.colonists@, selected_id, habitat_id, target_indices@,
                cap_spec, crate::roster::count_home(s0.colonists@, habitat_id) as int).0);
            batch_assignment_log("Batch recovery pins", selected_name.as_str(), "H", habitat_id, scope, assigned)
        },
        AssignBatchAction::PageWork | AssignBatchAction::AllWork => {
            let workplace_id = match selected_workplace {
                Some(w) => w,
                None => {
                    log_batch_assignment_unavailable(state, "work", selected_name.as_str());
                    return;
                },
            };
            let building: Building = match state.building_system.get_building(workplace_id) {
                Some(b) => *b,
                None => {
                    log_batch_assignment_unavailable(state, "work", selected_name.as_str());
                    return;
                },
            };
            let building_type = building.building_type;
            let assigned = apply_batch_work_pin(&mut state.colonists, selected_id, workplace_id, building_type,
                &target_indices);
            batch_assignment_log("Batch work pins", selected_name.as_str(), "W", workplace_id, scope, assigned)
        },
    };
    state.push_log(LogCategory::Social, title, detail);
    proof {
        let home = action == AssignBatchAction::PageHome || action == AssignBatchAction::AllHome;
        if home {
            let h = selected_habitat->0;
            assert(home_batch_ok(s0, *state, *panel, all, mood_keys@, selected_id, selected_name@, h));
        }
    }
}

/// Sets the colony priority; a change is logged with what the new priority
/// does, and choosing the active priority again changes nothing.
pub fn set_priority(state: &mut GameState, priority: ColonyPriority)
    ensures
        old(state).priority.active == priority ==> *final(state) == *old(state),
        old(state).priority.active != priority ==> {
            &&& final(state).priority.active == priority
            &&& logged(*old(state), *final(state), LogCategory::System, "Priority set: "@ + spec_priority_label(priority),
                spec_priority_description(priority))
            &&& final(state).colonists == old(state).colonists
            &&& final(state).resources == old(state).resources
            &&& final(state).missions == old(state).missions
            &&& final(state).technology == old(state).technology
            &&& final(state).building_system == old(state).building_system
            &&& final(state).grid == old(state).grid
            &&& final(state).tick == old(state).tick
        },
{
    if state.priority.active == priority {
        return;
    }
    state.priority.active = priority;
    let mut title = text("Priority set: ");
    title.append(priority.label());
    state.push_log(LogCategory::System, title, text(priority.description()));
}

/// The roster page after paging forward or back, kept within the pages
/// that exist.
pub open spec fn paged(page: int, count: int, forward: bool) -> int {
    let moved = if forward {
        if page + 1 < count { page + 1 } else { page }
    } else {
        if page > 0 { page - 1 } else { 0 }
    };
    if moved < count - 1 { moved } else { count - 1 }
}

/// Turns the assignment roster one page forward or back.
pub fn update_assign_roster_page(state: &GameState, panel: &mut AssignPanel, forward: bool)
    ensures
        final(panel).page == paged(old(panel).page as int, spec_page_count(state.colonists@, old(panel).selected_colonist_id,
            old(panel).filter, old(panel).role_filter, old(panel).building_filter) as int, forward),
        *final(panel) == (AssignPanel { page: final(panel).page, ..*old(panel) }),
{
    let page_count = assign_roster_page_count(&state.colonists, panel.selected_colonist_id, panel.filter, panel.role_filter,
        panel.building_filter);
    if forward {
        if panel.page < page_count - 1 {
            panel.page = panel.page + 1;
        }
    } else if panel.page > 0 {
        panel.page = panel.page - 1;
    }
    if panel.page > page_count - 1 {
        panel.page = page_count - 1;
    }
}

/// Undo gives a placement back: placing a building through the placement
/// panel and then undoing the last building removes that building, leaves
/// the same buildings and map cells as before, and refunds exactly the
/// salvage the placement spent.
pub proof fn law_place_then_undo_restores_colony(
    s0: GameState,
    t: BuildingType,
    pos: Position,
    s1: GameState,
    r1: Option<u32>,
    s2: GameState,
    r2: Option<u32>,
)
    requires
        s0.wf(),
        place_building_post(s0, t, pos, s1, r1),
        r1 is Some,
        undo_building_post(s1, s2, r2),
    ensures
        r2 == r1,
        s2.building_system.placed() == s0.building_system.placed(),
        s2.building_system.undo_ids() == s0.building_system.undo_ids(),
        s2.grid.same_cells(&s0.grid),
        s2.resources.salvage == s0.resources.salvage,
{
    assert(spec_invalid_reason(s0, t, pos) is None);
    let id = s0.building_system.upcoming_id();
    crate::building_system::BuildingSystem::law_undo_reverts_placement(s0.building_system, s0.grid, t, pos,
        s1.building_system, s1.grid, PlacementResult::Success(id), s2.building_system, s2.grid, r2);
    assert(s1.building_system.placed().last().building_type == t);
}

} // verus!
