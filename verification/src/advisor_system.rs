//! The advisor panel: what needs attention, most urgent first.
use crate::building::BuildingType;
use crate::game_state::GameState;
use crate::priority::{spec_priority_label, ColonyPriority};
use crate::resource_system::{count_type, need_floor, sizes_ok, spec_daily_need, spec_habitat_capacity, ResourceSystem};
use crate::resources::ColonyCondition;
use crate::text::{decimal, push_decimal, push_signed, signed_decimal, text};
use crate::time::{spec_day, TimeSystem};
use vstd::prelude::*;
use vstd::string::StringExecFns;

verus! {

/// How urgent an advisor line is.
#[derive(Clone, Copy, Debug, PartialEq, Eq, Structural)]
pub enum AdvisorSeverity {
    Stable,
    Action,
    Warning,
}

/// One piece of advice.
#[derive(Debug)]
pub struct AdvisorLine {
    pub title: String,
    pub detail: String,
    pub severity: AdvisorSeverity,
}

/// The advisor's headline and lines.
#[derive(Debug)]
pub struct AdvisorPlan {
    pub headline: String,
    pub lines: Vec<AdvisorLine>,
}

/// A line as the contracts see it.
pub type LineView = (Seq<char>, Seq<char>, AdvisorSeverity);

pub open spec fn line_view(l: AdvisorLine) -> LineView {
    (l.title@, l.detail@, l.severity)
}

pub open spec fn one(title: Seq<char>, detail: Seq<char>, severity: AdvisorSeverity) -> Seq<LineView> {
    seq![(title, detail, severity)]
}

pub open spec fn when(c: bool, l: Seq<LineView>) -> Seq<LineView> {
    if c { l } else { Seq::empty() }
}

/// Warnings about the colony's condition, its supply buffer, low mood, and
/// social strain.
pub open spec fn pressure_lines(s: GameState, mood_low: bool, strained_pairs: nat) -> Seq<LineView> {
    let need = need_floor(spec_daily_need(s));
    let condition = if s.resources.condition == ColonyCondition::Critical || s.resources.condition == ColonyCondition::Collapsed {
        one("Stabilize the colony"@, "Prioritize food, recovery space, and safer mission timing."@, AdvisorSeverity::Warning)
    } else if s.resources.supplies < need * 2 {
        one("Raise the supply buffer"@, signed_decimal(s.resources.supplies as int) + " supplies against "@
            + signed_decimal(need) + " daily need is a thin reserve."@, AdvisorSeverity::Warning)
    } else {
        Seq::empty()
    };
    let social = if mood_low {
        one("Give people recovery time"@, "Low mood increases refusals and can push the colony critical."@,
            AdvisorSeverity::Warning)
    } else if strained_pairs > 1 {
        one("Ease social strain"@, decimal(strained_pairs) + " tense pairs are adding pressure to daily work."@,
            AdvisorSeverity::Action)
    } else {
        Seq::empty()
    };
    condition + social
}

pub open spec fn missing(s: GameState, t: BuildingType) -> bool {
    count_type(s.building_system.placed(), t) == 0
}

/// Shelter for everyone, then each core building still missing.
pub open spec fn building_lines(s: GameState) -> Seq<LineView> {
    when(spec_habitat_capacity(s) < s.colonists@.len(), one("Shelter every survivor"@,
        decimal(spec_habitat_capacity(s) as nat) + " sleeper slots for "@ + decimal(s.colonists@.len()) + " colonists."@,
        AdvisorSeverity::Action))
    + when(missing(s, BuildingType::MessHall), one("Open a meal point"@,
        "Cook labor creates meals that reduce the daily supply draw."@, AdvisorSeverity::Action))
    + when(missing(s, BuildingType::Workshop), one("Recover repair stock"@,
        "Builder labor turns wreckage into usable salvage."@, AdvisorSeverity::Action))
    + when(missing(s, BuildingType::Storage), one("Secure storage"@,
        "Storage raises the supply cap before survey finds overflow."@, AdvisorSeverity::Action))
    + when(missing(s, BuildingType::ExplorationGate), one("Mark a survey route"@,
        "Survey missions bring tech items and emergency resources."@, AdvisorSeverity::Action))
}

/// Research progress toward the objective.
pub open spec fn progress_lines(s: GameState) -> Seq<LineView> {
    let behind = s.technology.unlocked@.len() < s.scenario.required_tech_unlocks;
    let progress = decimal(s.technology.unlocked@.len()) + "/"@ + decimal(s.scenario.required_tech_unlocks as nat);
    let detail = if s.missions.active_missions@.len() > 0 {
        "Survey team away; tech progress "@ + progress + "."@
    } else if !missing(s, BuildingType::ExplorationGate) {
        "Launch scans until tech reaches "@ + progress + "."@
    } else {
        "Build an Exploration Gate before Day 7 tech falls behind."@
    };
    when(behind, one("Push toward field tech"@, detail, AdvisorSeverity::Action))
    + when(behind && s.priority.active != ColonyPriority::Survey, one("Use Survey priority"@,
        "Survey boosts exploration output and research-item returns."@, AdvisorSeverity::Action))
}

/// Every line the advisor shows: an active incident first, then pressure,
/// buildings, and progress; with nothing to say, a steady-state line.
pub open spec fn advisor_lines(s: GameState, mood_low: bool, strained_pairs: nat, incident: Option<(Seq<char>, Seq<char>)>) -> Seq<LineView> {
    let lines = (match incident {
        Some((t, d)) => one(t, d, AdvisorSeverity::Warning),
        None => Seq::empty(),
    }) + pressure_lines(s, mood_low, strained_pairs) + building_lines(s) + progress_lines(s);
    if lines.len() == 0 {
        one("Hold the landing site"@, "Day "@ + decimal(spec_day(s.tick) as nat) + " of "@
            + decimal(s.scenario.target_day as nat) + "; keep supplies above daily need and relationships stable."@,
            AdvisorSeverity::Stable)
    } else {
        lines
    }
}

/// An incident's title and detail as text.
pub open spec fn incident_text(incident: Option<(String, String)>) -> Option<(Seq<char>, Seq<char>)> {
    match incident {
        Some((t, d)) => Some((t@, d@)),
        None => None,
    }
}

/// `lines` holds the line `l`.
pub open spec fn lists(lines: Seq<LineView>, l: LineView) -> bool {
    exists|k: int| 0 <= k < lines.len() && lines[k] == l
}

/// A critical or collapsed colony is told to stabilize; any other colony
/// with supplies under two days' need (the need counted as at least one) is
/// warned to raise its supply buffer, with the supplies and the need.
pub open spec fn condition_warnings_listed(s: GameState, lines: Seq<LineView>) -> bool {
    let need = spec_daily_need(s);
    let floor = if need > 1 { need } else { 1 };
    let critical = s.resources.condition == ColonyCondition::Critical || s.resources.condition == ColonyCondition::Collapsed;
    &&& critical ==> lists(lines, ("Stabilize the colony"@,
        "Prioritize food, recovery space, and safer mission timing."@, AdvisorSeverity::Warning))
    &&& !critical && s.resources.supplies < 2 * floor ==> lists(lines, ("Raise the supply buffer"@,
        signed_decimal(s.resources.supplies as int) + " supplies against "@ + signed_decimal(floor)
            + " daily need is a thin reserve."@, AdvisorSeverity::Warning))
}

pub open spec fn recovery_line() -> LineView {
    ("Give people recovery time"@, "Low mood increases refusals and can push the colony critical."@, AdvisorSeverity::Warning)
}

pub open spec fn strain_line(strained_pairs: nat) -> LineView {
    ("Ease social strain"@, decimal(strained_pairs) + " tense pairs are adding pressure to daily work."@, AdvisorSeverity::Action)
}

pub open spec fn shelter_line(s: GameState) -> LineView {
    ("Shelter every survivor"@, decimal(spec_habitat_capacity(s) as nat) + " sleeper slots for "@ + decimal(s.colonists@.len())
        + " colonists."@, AdvisorSeverity::Action)
}

pub open spec fn meal_line() -> LineView {
    ("Open a meal point"@, "Cook labor creates meals that reduce the daily supply draw."@, AdvisorSeverity::Action)
}

pub open spec fn workshop_line() -> LineView {
    ("Recover repair stock"@, "Builder labor turns wreckage into usable salvage."@, AdvisorSeverity::Action)
}

pub open spec fn storage_line() -> LineView {
    ("Secure storage"@, "Storage raises the supply cap before survey finds overflow."@, AdvisorSeverity::Action)
}

pub open spec fn gate_line() -> LineView {
    ("Mark a survey route"@, "Survey missions bring tech items and emergency resources."@, AdvisorSeverity::Action)
}

pub open spec fn survey_line() -> LineView {
    ("Use Survey priority"@, "Survey boosts exploration output and research-item returns."@, AdvisorSeverity::Action)
}

/// The rest of the guidance the advisor always gives: an incident comes
/// first; low mood calls for recovery time, or else more than one strained
/// pair calls for easing strain; too few sleeper slots, each missing core
/// building, and research behind the objective (with a push toward Survey
/// priority when it is not set) each get a line; a colony with none of these
/// and no condition warning hears only to hold the landing site.
pub open spec fn guidance_listed(s: GameState, mood_low: bool, strained_pairs: nat,
    incident: Option<(Seq<char>, Seq<char>)>, lines: Seq<LineView>) -> bool
{
    let need = spec_daily_need(s);
    let floor = if need > 1 { need } else { 1 };
    let critical = s.resources.condition == ColonyCondition::Critical || s.resources.condition == ColonyCondition::Collapsed;
    let behind = s.technology.unlocked@.len() < s.scenario.required_tech_unlocks;
    let quiet = incident is None && !critical && s.resources.supplies >= 2 * floor && !mood_low && strained_pairs <= 1
        && spec_habitat_capacity(s) >= s.colonists@.len() && !missing(s, BuildingType::MessHall)
        && !missing(s, BuildingType::Workshop) && !missing(s, BuildingType::Storage)
        && !missing(s, BuildingType::ExplorationGate) && !behind;
    &&& (incident matches Some((t, d)) ==> lines.len() > 0 && lines[0] == (t, d, AdvisorSeverity::Warning))
    &&& (mood_low ==> lists(lines, recovery_line()))
    &&& (!mood_low && strained_pairs > 1 ==> lists(lines, strain_line(strained_pairs)))
    &&& (spec_habitat_capacity(s) < s.colonists@.len() ==> lists(lines, shelter_line(s)))
    &&& (missing(s, BuildingType::MessHall) ==> lists(lines, meal_line()))
    &&& (missing(s, BuildingType::Workshop) ==> lists(lines, workshop_line()))
    &&& (missing(s, BuildingType::Storage) ==> lists(lines, storage_line()))
    &&& (missing(s, BuildingType::ExplorationGate) ==> lists(lines, gate_line()))
    &&& (behind ==> exists|d: Seq<char>| lists(lines, ("Push toward field tech"@, d, AdvisorSeverity::Action)))
    &&& (behind && s.priority.active != ColonyPriority::Survey ==> lists(lines, survey_line()))
    &&& (quiet ==> lines.len() == 1 && lines[0].0 == "Hold the landing site"@ && lines[0].2 == AdvisorSeverity::Stable)
}

proof fn lemma_lists_concat(a: Seq<LineView>, b: Seq<LineView>)
    ensures
        forall|l: LineView| lists(a, l) ==> #[trigger] lists(a + b, l),
        forall|l: LineView| lists(b, l) ==> #[trigger] lists(a + b, l),
{
    assert forall|l: LineView| lists(a, l) implies #[trigger] lists(a + b, l) by {
        let k = choose|k: int| 0 <= k < a.len() && a[k] == l;
        assert((a + b)[k] == l);
    }
    assert forall|l: LineView| lists(b, l) implies #[trigger] lists(a + b, l) by {
        let k = choose|k: int| 0 <= k < b.len() && b[k] == l;
        assert((a + b)[a.len() + k] == l);
    }
}

proof fn lemma_lists_one(l: LineView)
    ensures
        lists(seq![l], l),
{
    assert(seq![l][0] == l);
}

proof fn lemma_pressure_listed(s: GameState, mood_low: bool, strained_pairs: nat)
    ensures
        ({
            let lines = pressure_lines(s, mood_low, strained_pairs);
            let need = spec_daily_need(s);
            let floor = if need > 1 { need } else { 1 };
            let critical = s.resources.condition == ColonyCondition::Critical
                || s.resources.condition == ColonyCondition::Collapsed;
            &&& condition_warnings_listed(s, lines)
            &&& (mood_low ==> lists(lines, recovery_line()))
            &&& (!mood_low && strained_pairs > 1 ==> lists(lines, strain_line(strained_pairs)))
            &&& (lines.len() == 0 <==> !critical && s.resources.supplies >= 2 * floor && !mood_low && strained_pairs <= 1)
        }),
{
    let need = need_floor(spec_daily_need(s));
    let critical = s.resources.condition == ColonyCondition::Critical || s.resources.condition == ColonyCondition::Collapsed;
    let condition = if critical {
        one("Stabilize the colony"@, "Prioritize food, recovery space, and safer mission timing."@, AdvisorSeverity::Warning)
    } else if s.resources.supplies < need * 2 {
        one("Raise the supply buffer"@, signed_decimal(s.resources.supplies as int) + " supplies against "@
            + signed_decimal(need) + " daily need is a thin reserve."@, AdvisorSeverity::Warning)
    } else {
        Seq::empty()
    };
    let social = if mood_low {
        seq![recovery_line()]
    } else if strained_pairs > 1 {
        seq![strain_line(strained_pairs)]
    } else {
        Seq::empty()
    };
    assert(pressure_lines(s, mood_low, strained_pairs) == condition + social);
    lemma_lists_concat(condition, social);
    if critical || s.resources.supplies < need * 2 {
        lemma_lists_one(condition[0]);
    }
    if mood_low || strained_pairs > 1 {
        lemma_lists_one(social[0]);
    }
}

proof fn lemma_building_listed(s: GameState)
    ensures
        ({
            let lines = building_lines(s);
            &&& (spec_habitat_capacity(s) < s.colonists@.len() ==> lists(lines, shelter_line(s)))
            &&& (missing(s, BuildingType::MessHall) ==> lists(lines, meal_line()))
            &&& (missing(s, BuildingType::Workshop) ==> lists(lines, workshop_line()))
            &&& (missing(s, BuildingType::Storage) ==> lists(lines, storage_line()))
            &&& (missing(s, BuildingType::ExplorationGate) ==> lists(lines, gate_line()))
            &&& (lines.len() == 0 <==> spec_habitat_capacity(s) >= s.colonists@.len() && !missing(s, BuildingType::MessHall)
                && !missing(s, BuildingType::Workshop) && !missing(s, BuildingType::Storage)
                && !missing(s, BuildingType::ExplorationGate))
        }),
{
    let b1 = when(spec_habitat_capacity(s) < s.colonists@.len(), seq![shelter_line(s)]);
    let b2 = when(missing(s, BuildingType::MessHall), seq![meal_line()]);
    let b3 = when(missing(s, BuildingType::Workshop), seq![workshop_line()]);
    let b4 = when(missing(s, BuildingType::Storage), seq![storage_line()]);
    let b5 = when(missing(s, BuildingType::ExplorationGate), seq![gate_line()]);
    assert(building_lines(s) == b1 + b2 + b3 + b4 + b5);
    lemma_lists_concat(b1, b2);
    lemma_lists_concat(b1 + b2, b3);
    lemma_lists_concat(b1 + b2 + b3, b4);
    lemma_lists_concat(b1 + b2 + b3 + b4, b5);
    lemma_lists_one(shelter_line(s));
    lemma_lists_one(meal_line());
    lemma_lists_one(workshop_line());
    lemma_lists_one(storage_line());
    lemma_lists_one(gate_line());
}

proof fn lemma_progress_listed(s: GameState)
    ensures
        ({
            let lines = progress_lines(s);
            let behind = s.technology.unlocked@.len() < s.scenario.required_tech_unlocks;
            &&& (behind ==> exists|d: Seq<char>| lists(lines, ("Push toward field tech"@, d, AdvisorSeverity::Action)))
            &&& (behind && s.priority.active != ColonyPriority::Survey ==> lists(lines, survey_line()))
            &&& (lines.len() == 0 <==> !behind)
        }),
{
    let lines = progress_lines(s);
    let behind = s.technology.unlocked@.len() < s.scenario.required_tech_unlocks;
    if behind {
        let d = lines[0].1;
        assert(lines[0] == ("Push toward field tech"@, d, AdvisorSeverity::Action));
        assert(lists(lines, ("Push toward field tech"@, d, AdvisorSeverity::Action)));
        if s.priority.active != ColonyPriority::Survey {
            assert(lines[1] == survey_line());
        }
    }
}

/// Whatever else the advisor says, a critical or collapsed colony is told
/// to stabilize, any other colony short of two days' supplies is warned to
/// raise its supply buffer, and every other kind of guidance is listed
/// whenever its situation arises (see `guidance_listed`).
pub proof fn law_condition_warnings(s: GameState, mood_low: bool, strained_pairs: nat,
    incident: Option<(Seq<char>, Seq<char>)>)
    ensures
        condition_warnings_listed(s, advisor_lines(s, mood_low, strained_pairs, incident)),
        guidance_listed(s, mood_low, strained_pairs, incident, advisor_lines(s, mood_low, strained_pairs, incident)),
{
    let head: Seq<LineView> = match incident {
        Some((t, d)) => one(t, d, AdvisorSeverity::Warning),
        None => Seq::empty(),
    };
    let pressure = pressure_lines(s, mood_low, strained_pairs);
    let buildings = building_lines(s);
    let progress = progress_lines(s);
    lemma_pressure_listed(s, mood_low, strained_pairs);
    lemma_building_listed(s);
    lemma_progress_listed(s);
    let lines = head + pressure + buildings + progress;
    lemma_lists_concat(head, pressure);
    lemma_lists_concat(head + pressure, buildings);
    lemma_lists_concat(head + pressure + buildings, progress);
    if s.technology.unlocked@.len() < s.scenario.required_tech_unlocks {
        let d = choose|d: Seq<char>| lists(progress, ("Push toward field tech"@, d, AdvisorSeverity::Action));
        assert(lists(lines, ("Push toward field tech"@, d, AdvisorSeverity::Action)));
    }
    if lines.len() > 0 {
        assert(advisor_lines(s, mood_low, strained_pairs, incident) == lines);
        if let Some((t, d)) = incident {
            assert(lines[0] == head[0]);
        }
    } else {
        assert(advisor_lines(s, mood_low, strained_pairs, incident)[0].0 == "Hold the landing site"@);
    }
}

pub open spec fn advisor_headline(s: GameState) -> Seq<char> {
    "Advisor | Day "@ + decimal(spec_day(s.tick) as nat) + "/"@ + decimal(s.scenario.target_day as nat) + " | "@
        + spec_priority_label(s.priority.active)
}

fn push_line(lines: &mut Vec<AdvisorLine>, title: String, detail: String, severity: AdvisorSeverity)
    ensures
        final(lines)@.map_values(|l: AdvisorLine| line_view(l)) == old(lines)@.map_values(|l: AdvisorLine| line_view(l))
            + one(title@, detail@, severity),
{
    let ghost before = lines@.map_values(|l: AdvisorLine| line_view(l));
    lines.push(AdvisorLine { title, detail, severity });
    assert(lines@.map_values(|l: AdvisorLine| line_view(l)) =~= before + one(title@, detail@, severity));
}

pub struct AdvisorSystem;

impl AdvisorSystem {
    /// The advisor panel. `mood_low` tells whether the colonists' average
    /// mood is below 35; `incident` is the active incident's advice, if any.
    pub fn plan(state: &GameState, mood_low: bool, incident: Option<(String, String)>) -> (p: AdvisorPlan)
        requires
            sizes_ok(*state),
            crate::colonist::all_summable(state.colonists@),
            state.colonists@.len() <= 0x8000,
        ensures
            p.headline@ == advisor_headline(*state),
            condition_warnings_listed(*state, p.lines@.map_values(|l: AdvisorLine| line_view(l))),
            guidance_listed(*state, mood_low, crate::summary_system::pairs_beyond(crate::summary_system::colony_pairs(
                state.colonists@, state.colonists@.len() as int), -10, false).len(), incident_text(incident),
                p.lines@.map_values(|l: AdvisorLine| line_view(l))),
            p.lines@.map_values(|l: AdvisorLine| line_view(l)) == advisor_lines(*state, mood_low,
                crate::summary_system::pairs_beyond(crate::summary_system::colony_pairs(state.colonists@,
                    state.colonists@.len() as int), -10, false).len(),
                match incident {
                    Some((t, d)) => Some((t@, d@)),
                    None => None,
                }),
    {
        let mut lines: Vec<AdvisorLine> = Vec::new();
        let (day, _, _) = TimeSystem::get_time_of_day(state.tick);
        assert(lines@.map_values(|l: AdvisorLine| line_view(l)) =~= Seq::<LineView>::empty());
        match incident {
            Some((t, d)) => push_line(&mut lines, t, d, AdvisorSeverity::Warning),
            None => {},
        }
        let summary = crate::summary_system::SummarySystem::relationship_summary(&state.colonists);
        Self::add_pressure_warnings(state, mood_low, summary.strained_pairs, &mut lines);
        Self::add_building_guidance(state, &mut lines);
        Self::add_progress_guidance(state, &mut lines);
        if lines.len() == 0 {
            let mut d = text("Day ");
            push_decimal(&mut d, day as u64);
            d.append(" of ");
            push_decimal(&mut d, state.scenario.target_day as u64);
            d.append("; keep supplies above daily need and relationships stable.");
            push_line(&mut lines, text("Hold the landing site"), d, AdvisorSeverity::Stable);
        }
        let mut headline = text("Advisor | Day ");
        push_decimal(&mut headline, day as u64);
        headline.append("/");
        push_decimal(&mut headline, state.scenario.target_day as u64);
        headline.append(" | ");
        headline.append(state.priority.active.label());
        proof {
            law_condition_warnings(*state, mood_low, crate::summary_system::pairs_beyond(
                crate::summary_system::colony_pairs(state.colonists@, state.colonists@.len() as int), -10, false).len(),
                incident_text(incident));
        }
        AdvisorPlan { headline, lines }
    }

    fn add_pressure_warnings(state: &GameState, mood_low: bool, strained_pairs: u32, lines: &mut Vec<AdvisorLine>)
        requires
            sizes_ok(*state),
        ensures
            final(lines)@.map_values(|l: AdvisorLine| line_view(l)) == old(lines)@.map_values(|l: AdvisorLine| line_view(l))
                + pressure_lines(*state, mood_low, strained_pairs as nat),
    {
        let ghost before = lines@.map_values(|l: AdvisorLine| line_view(l));
        let need = ResourceSystem::daily_supply_need(state);
        let daily_need: i32 = if need > 1 { need } else { 1 };
        if state.resources.condition == ColonyCondition::Critical || state.resources.condition == ColonyCondition::Collapsed {
            push_line(lines, text("Stabilize the colony"), text("Prioritize food, recovery space, and safer mission timing."),
                AdvisorSeverity::Warning);
        } else if (state.resources.supplies as i64) < daily_need as i64 * 2 {
            let mut d = String::new();
            push_signed(&mut d, state.resources.supplies as i64);
            d.append(" supplies against ");
            push_signed(&mut d, daily_need as i64);
            d.append(" daily need is a thin reserve.");
            push_line(lines, text("Raise the supply buffer"), d, AdvisorSeverity::Warning);
        }
        let ghost mid = lines@.map_values(|l: AdvisorLine| line_view(l));
        if mood_low {
            push_line(lines, text("Give people recovery time"),
                text("Low mood increases refusals and can push the colony critical."), AdvisorSeverity::Warning);
        } else if strained_pairs > 1 {
            let mut d = String::new();
            push_decimal(&mut d, strained_pairs as u64);
            d.append(" tense pairs are adding pressure to daily work.");
            push_line(lines, text("Ease social strain"), d, AdvisorSeverity::Action);
        }
        assert(lines@.map_values(|l: AdvisorLine| line_view(l)) =~= before + pressure_lines(*state, mood_low, strained_pairs as nat));
    }

    fn add_building_guidance(state: &GameState, lines: &mut Vec<AdvisorLine>)
        requires
            sizes_ok(*state),
        ensures
            final(lines)@.map_values(|l: AdvisorLine| line_view(l)) == old(lines)@.map_values(|l: AdvisorLine| line_view(l))
                + building_lines(*state),
    {
        let ghost before = lines@.map_values(|l: AdvisorLine| line_view(l));
        proof {
            crate::resource_system::lemma_capacities_fit(*state);
        }
        let habitat_capacity = ResourceSystem::habitat_capacity(state);
        if (habitat_capacity as u64) < state.colonists.len() as u64 {
            let mut d = String::new();
            push_decimal(&mut d, habitat_capacity as u64);
            d.append(" sleeper slots for ");
            push_decimal(&mut d, state.colonists.len() as u64);
            d.append(" colonists.");
            push_line(lines, text("Shelter every survivor"), d, AdvisorSeverity::Action);
        }
        let ghost a = lines@.map_values(|l: AdvisorLine| line_view(l));
        if ResourceSystem::building_count(&state.building_system, BuildingType::MessHall) == 0 {
            push_line(lines, text("Open a meal point"), text("Cook labor creates meals that reduce the daily supply draw."),
                AdvisorSeverity::Action);
        }
        let ghost b = lines@.map_values(|l: AdvisorLine| line_view(l));
        if ResourceSystem::building_count(&state.building_system, BuildingType::Workshop) == 0 {
            push_line(lines, text("Recover repair stock"), text("Builder labor turns wreckage into usable salvage."),
                AdvisorSeverity::Action);
        }
        let ghost c = lines@.map_values(|l: AdvisorLine| line_view(l));
        if ResourceSystem::building_count(&state.building_system, BuildingType::Storage) == 0 {
            push_line(lines, text("Secure storage"), text("Storage raises the supply cap before survey finds overflow."),
                AdvisorSeverity::Action);
        }
        let ghost d = lines@.map_values(|l: AdvisorLine| line_view(l));
        if ResourceSystem::building_count(&state.building_system, BuildingType::ExplorationGate) == 0 {
            push_line(lines, text("Mark a survey route"), text("Survey missions bring tech items and emergency resources."),
                AdvisorSeverity::Action);
        }
        assert(lines@.map_values(|l: AdvisorLine| line_view(l)) =~= before + building_lines(*state));
    }

    fn add_progress_guidance(state: &GameState, lines: &mut Vec<AdvisorLine>)
        requires
            sizes_ok(*state),
        ensures
            final(lines)@.map_values(|l: AdvisorLine| line_view(l)) == old(lines)@.map_values(|l: AdvisorLine| line_view(l))
                + progress_lines(*state),
    {
        let ghost before = lines@.map_values(|l: AdvisorLine| line_view(l));
        let unlocked = state.technology.unlocked_count();
        let required = state.scenario.required_tech_unlocks;
        if unlocked < required {
            let mut d = String::new();
            if state.missions.active_count() > 0 {
                d.append("Survey team away; tech progress ");
                push_decimal(&mut d, unlocked as u64);
                d.append("/");
                push_decimal(&mut d, required as u64);
                d.append(".");
            } else if ResourceSystem::building_count(&state.building_system, BuildingType::ExplorationGate) > 0 {
                d.append("Launch scans until tech reaches ");
                push_decimal(&mut d, unlocked as u64);
                d.append("/");
                push_decimal(&mut d, required as u64);
                d.append(".");
            } else {
                d.append("Build an Exploration Gate before Day 7 tech falls behind.");
            }
            proof {
                let progress = decimal(state.technology.unlocked@.len()) + "/"@ + decimal(state.scenario.required_tech_unlocks as nat);
                let expected = if state.missions.active_missions@.len() > 0 {
                    "Survey team away; tech progress "@ + progress + "."@
                } else if !missing(*state, BuildingType::ExplorationGate) {
                    "Launch scans until tech reaches "@ + progress + "."@
                } else {
                    "Build an Exploration Gate before Day 7 tech falls behind."@
                };
                assert(d@ =~= expected);
            }
            push_line(lines, text("Push toward field tech"), d, AdvisorSeverity::Action);
        }
        if state.priority.active != ColonyPriority::Survey && unlocked < required {
            push_line(lines, text("Use Survey priority"), text("Survey boosts exploration output and research-item returns."),
                AdvisorSeverity::Action);
        }
        assert(lines@.map_values(|l: AdvisorLine| line_view(l)) =~= before + progress_lines(*state));
    }
}

} // verus!
