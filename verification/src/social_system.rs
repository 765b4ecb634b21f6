//! Relationships grow or sour when colonists share a workplace, a meal, or
//! a habitat; the colony priority tilts the change, and a change of band
//! is logged.
use crate::building::BuildingType;
use crate::colonist::{
    rel, relationship_label, relationships_bounded, spec_band, spec_band_label, ActivityLocation, Colonist, ColonistState,
    RelationshipBand,
};
use crate::commands::display_name;
use crate::directives::{colonist_by_id, find_colonist};
use crate::event_log::LogCategory;
use crate::game_state::GameState;
use crate::priority::ColonyPriority;
use crate::text::{plus_signed_decimal, push_plus_signed, text};
use vstd::prelude::*;
use vstd::string::StringExecFns;

verus! {

broadcast use vstd::std_specs::hash::group_hash_axioms;

/// Where colonists spent time together.
#[derive(Clone, Copy, Debug, PartialEq, Eq, Structural)]
pub enum RelationshipSource {
    Work,
    Meal,
    SharedHabitat,
}

pub open spec fn spec_positive_detail(s: RelationshipSource) -> Seq<char> {
    match s {
        RelationshipSource::Work => "Working the same station built trust; compatible crews do better together."@,
        RelationshipSource::Meal => "A shared meal gave them neutral ground to reconnect."@,
        RelationshipSource::SharedHabitat => "Recovering in the same habitat made the space feel safer."@,
    }
}

pub open spec fn spec_negative_detail(s: RelationshipSource) -> Seq<char> {
    match s {
        RelationshipSource::Work => "Low mood or a disliked coworker made the shift feel forced."@,
        RelationshipSource::Meal => "Stress followed them into the Mess Hall; the meal did not clear the tension."@,
        RelationshipSource::SharedHabitat => "Cramped recovery space kept them close to someone they already mistrust."@,
    }
}

impl RelationshipSource {
    pub fn positive_detail(self) -> (r: &'static str)
        ensures
            r@ == spec_positive_detail(self),
    {
        match self {
            RelationshipSource::Work => "Working the same station built trust; compatible crews do better together.",
            RelationshipSource::Meal => "A shared meal gave them neutral ground to reconnect.",
            RelationshipSource::SharedHabitat => "Recovering in the same habitat made the space feel safer.",
        }
    }

    pub fn negative_detail(self) -> (r: &'static str)
        ensures
            r@ == spec_negative_detail(self),
    {
        match self {
            RelationshipSource::Work => "Low mood or a disliked coworker made the shift feel forced.",
            RelationshipSource::Meal => "Stress followed them into the Mess Hall; the meal did not clear the tension.",
            RelationshipSource::SharedHabitat => "Cramped recovery space kept them close to someone they already mistrust.",
        }
    }

    /// The pair's average mood below this counts as low for this setting.
    pub fn mood_threshold(self) -> (r: i32)
        ensures
            r == (match self {
                RelationshipSource::Work => 35i32,
                RelationshipSource::Meal => 25i32,
                RelationshipSource::SharedHabitat => 30i32,
            }),
    {
        match self {
            RelationshipSource::Work => 35,
            RelationshipSource::Meal => 25,
            RelationshipSource::SharedHabitat => 30,
        }
    }
}

/// The change before the priority: shared work and shared rooms sour with
/// low mood or an already strained pair, a meal only with both.
pub open spec fn spec_base_delta(source: RelationshipSource, low_mood: bool, relationship: int) -> int {
    match source {
        RelationshipSource::Work => if low_mood || relationship < -20 { -1 } else { 1 },
        RelationshipSource::Meal => if low_mood && relationship < -10 { -1 } else { 1 },
        RelationshipSource::SharedHabitat => if low_mood || relationship < -20 { -1 } else { 2 },
    }
}

/// Recovery strengthens good meals and shared rooms and spares bad shifts;
/// stockpiling strengthens good shifts; surveying deepens bad shifts.
pub open spec fn spec_priority_delta(p: ColonyPriority, source: RelationshipSource, base: int) -> int {
    if p == ColonyPriority::Recovery && source == RelationshipSource::Meal && base > 0 {
        base + 1
    } else if p == ColonyPriority::Recovery && source == RelationshipSource::SharedHabitat && base > 0 {
        base + 1
    } else if p == ColonyPriority::Recovery && source == RelationshipSource::Work && base < 0 {
        0
    } else if p == ColonyPriority::Stockpile && source == RelationshipSource::Work && base > 0 {
        base + 1
    } else if p == ColonyPriority::Survey && source == RelationshipSource::Work && base < 0 {
        base - 1
    } else {
        base
    }
}

/// How `from` feels about `to` (0 when `from` is missing or has no value).
pub open spec fn spec_relationship_value(cs: Seq<Colonist>, from: u32, to: u32) -> int {
    match find_colonist(cs, from) {
        Some(c) => rel(c, to),
        None => 0,
    }
}

/// A one-way value after a change, held within -50..=50.
pub open spec fn clamped(v: int) -> int {
    if v < -50 { -50 } else if v > 50 { 50 } else { v }
}

/// `r` is `v` held within -50..=50: `v` itself when in range, else the
/// nearer end.
pub open spec fn held_within_fifty(v: int, r: int) -> bool {
    &&& (v < -50 ==> r == -50)
    &&& (v > 50 ==> r == 50)
    &&& (-50 <= v <= 50 ==> r == v)
}

/// Holding a value within -50..=50 keeps an in-range value, stops at the
/// ends, and never reverses a change: from an in-range value, a rise never
/// lowers it and a fall never raises it.
pub proof fn law_held_within_fifty(old_value: int, change: int)
    requires
        -50 <= old_value <= 50,
    ensures
        held_within_fifty(old_value + change, clamped(old_value + change)),
        -50 <= clamped(old_value + change) <= 50,
        change >= 0 ==> old_value <= clamped(old_value + change),
        change <= 0 ==> clamped(old_value + change) <= old_value,
{
}

/// Relationship values everywhere stay within -50..=50.
pub open spec fn all_bounded(cs: Seq<Colonist>) -> bool {
    forall|k: int| 0 <= k < cs.len() ==> relationships_bounded(#[trigger] cs[k])
}

/// `c1` is `c0` after moving `from`'s feeling about `to` by `change`
/// (held within -50..=50); nothing changes when `from` is missing.
pub open spec fn one_way_updated(c0: Seq<Colonist>, c1: Seq<Colonist>, from: u32, to: u32, change: int) -> bool {
    &&& c1.len() == c0.len()
    &&& match crate::mission_system::first_with_id(c0, from) {
        Some(i) => {
            &&& c1[i].relationships@ == c0[i].relationships@.insert(to, clamped(rel(c0[i], to) + change) as i32)
            &&& c1[i] == (Colonist { relationships: c1[i].relationships, ..c0[i] })
            &&& forall|k: int| 0 <= k < c0.len() && k != i ==> #[trigger] c1[k] == c0[k]
        },
        None => c1 == c0,
    }
}

/// `c1` is `c0` after moving both one-way feelings of a pair by `change`.
pub open spec fn pair_updated(c0: Seq<Colonist>, c1: Seq<Colonist>, a: u32, b: u32, change: int) -> bool {
    exists|mid: Seq<Colonist>| #[trigger] one_way_updated(c0, mid, a, b, change) && one_way_updated(mid, c1, b, a, change)
}

/// The change a pair's time together makes, case by case: a shift with low
/// mood or a badly strained pair (below -20) sours it by one (by two under
/// Survey, not at all under Recovery), any other shift improves it by one
/// (two under Stockpile); shared quarters sour such a pair by one and
/// otherwise improve it by two (three under Recovery); a meal sours it by
/// one only with low mood and a strained pair (below -10), and otherwise
/// improves it by one (two under Recovery).
pub open spec fn delta_by_case(p: ColonyPriority, source: RelationshipSource, low_mood: bool, v: int, r: int) -> bool {
    match source {
        RelationshipSource::Work => if low_mood || v < -20 {
            r == (if p == ColonyPriority::Recovery { 0int } else if p == ColonyPriority::Survey { -2int } else { -1int })
        } else {
            r == (if p == ColonyPriority::Stockpile { 2int } else { 1int })
        },
        RelationshipSource::SharedHabitat => if low_mood || v < -20 {
            r == -1
        } else {
            r == (if p == ColonyPriority::Recovery { 3int } else { 2int })
        },
        RelationshipSource::Meal => if low_mood && v < -10 {
            r == -1
        } else {
            r == (if p == ColonyPriority::Recovery { 2int } else { 1int })
        },
    }
}

/// Which way time together moves a pair, for every priority: a shift or
/// shared quarters with low mood never improve the pair, and shared quarters
/// then sour it; a shift with a pair strained below -20 never improves it;
/// a meal without low mood always improves it, and so do a shift and shared
/// quarters when mood is fine and the pair is not badly strained.
pub proof fn law_relationship_change_direction(s: GameState, a: u32, b: u32)
    ensures
        ({
            let p = s.priority.active;
            let v = spec_relationship_value(s.colonists@, a, b);
            let change = |source: RelationshipSource, low: bool| spec_priority_delta(p, source, spec_base_delta(source, low, v));
            &&& change(RelationshipSource::Work, true) <= 0
            &&& change(RelationshipSource::SharedHabitat, true) < 0
            &&& (v < -20 ==> change(RelationshipSource::Work, false) <= 0)
            &&& change(RelationshipSource::Meal, false) > 0
            &&& (v >= -20 ==> change(RelationshipSource::Work, false) > 0)
            &&& (v >= -20 ==> change(RelationshipSource::SharedHabitat, false) > 0)
            &&& (v >= -10 ==> change(RelationshipSource::Meal, true) > 0)
        }),
{
}

pub struct SocialSystem;

impl SocialSystem {
    pub fn priority_relationship_delta(priority: ColonyPriority, source: RelationshipSource, base_delta: i32) -> (r: i32)
        requires
            -10 <= base_delta <= 10,
        ensures
            r == spec_priority_delta(priority, source, base_delta as int),
    {
        match (priority, source) {
            (ColonyPriority::Recovery, RelationshipSource::Meal) if base_delta > 0 => base_delta + 1,
            (ColonyPriority::Recovery, RelationshipSource::SharedHabitat) if base_delta > 0 => base_delta + 1,
            (ColonyPriority::Recovery, RelationshipSource::Work) if base_delta < 0 => 0,
            (ColonyPriority::Stockpile, RelationshipSource::Work) if base_delta > 0 => base_delta + 1,
            (ColonyPriority::Survey, RelationshipSource::Work) if base_delta < 0 => base_delta - 1,
            _ => base_delta,
        }
    }

    /// How `from` feels about `to`, or 0.
    pub fn relationship_value(state: &GameState, from_id: u32, to_id: u32) -> (r: i32)
        ensures
            r == spec_relationship_value(state.colonists@, from_id, to_id),
    {
        match colonist_by_id(&state.colonists, from_id) {
            Some(c) => c.relationship_with(to_id),
            None => 0,
        }
    }

    /// The change a pair's time together makes, given whether their average
    /// mood is below this setting's threshold (see `mood_threshold`).
    pub fn relationship_delta(state: &GameState, id_a: u32, id_b: u32, source: RelationshipSource, low_mood: bool) -> (r: i32)
        ensures
            r == spec_priority_delta(state.priority.active, source,
                spec_base_delta(source, low_mood, spec_relationship_value(state.colonists@, id_a, id_b))),
            delta_by_case(state.priority.active, source, low_mood, spec_relationship_value(state.colonists@, id_a, id_b),
                r as int),
    {
        let relationship = Self::relationship_value(state, id_a, id_b);
        let base_delta: i32 = match source {
            RelationshipSource::Work => if low_mood || relationship < -20 { -1 } else { 1 },
            RelationshipSource::Meal => if low_mood && relationship < -10 { -1 } else { 1 },
            RelationshipSource::SharedHabitat => if low_mood || relationship < -20 { -1 } else { 2 },
        };
        Self::priority_relationship_delta(state.priority.active, source, base_delta)
    }

    /// Moves `from`'s feeling about `to` by `change`, held within -50..=50,
    /// and returns the new value (0 when `from` is missing).
    pub fn apply_one_way_update(state: &mut GameState, from_id: u32, to_id: u32, change: i32) -> (r: i32)
        requires
            all_bounded(old(state).colonists@),
            -10 <= change <= 10,
        ensures
            -50 <= r <= 50,
            all_bounded(final(state).colonists@),
            one_way_updated(old(state).colonists@, final(state).colonists@, from_id, to_id, change as int),
            final(state).colonists@.len() == old(state).colonists@.len(),
            match crate::mission_system::first_with_id(old(state).colonists@, from_id) {
                Some(i) => {
                    let c = old(state).colonists@[i];
                    let v = clamped(rel(c, to_id) + change);
                    &&& r == v
                    &&& held_within_fifty(rel(c, to_id) + change, r as int)
                    &&& final(state).colonists@[i].relationships@ == c.relationships@.insert(to_id, v as i32)
                    &&& forall|k: int| 0 <= k < old(state).colonists@.len() && k != i
                        ==> #[trigger] final(state).colonists@[k] == old(state).colonists@[k]
                    &&& final(state).colonists@[i] == (Colonist { relationships: final(state).colonists@[i].relationships, ..c })
                },
                None => r == 0 && final(state).colonists == old(state).colonists,
            },
            crate::game_state::same_except_colonists(*old(state), *final(state)),
    {
        let index = match crate::mission_system::colonist_index_by_id(&state.colonists, from_id) {
            Some(i) => i,
            None => return 0,
        };
        let ghost s0 = *state;
        proof {
            crate::mission_system::lemma_first_with_id_found(s0.colonists@, from_id);
            assert(relationships_bounded(s0.colonists@[index as int]));
        }
        let current = state.colonists[index].relationship_with(to_id);
        proof {
            if s0.colonists@[index as int].relationships@.contains_key(to_id) {
                assert(-50 <= s0.colonists@[index as int].relationships@[to_id] <= 50);
            }
        }
        let raw = current + change;
        let value: i32 = if raw < -50 { -50 } else if raw > 50 { 50 } else { raw };
        state.colonists[index].relationships.insert(to_id, value);
        proof {
            assert forall|k: int| 0 <= k < state.colonists@.len() implies relationships_bounded(#[trigger] state.colonists@[k]) by {
                if k != index {
                    assert(state.colonists@[k] == s0.colonists@[k]);
                } else {
                    assert forall|key: u32| state.colonists@[k].relationships@.contains_key(key) implies
                        -50 <= #[trigger] state.colonists@[k].relationships@[key] <= 50 by {
                        if key != to_id {
                            assert(s0.colonists@[k].relationships@.contains_key(key));
                        }
                    }
                }
            }
        }
        value
    }
}


pub open spec fn pair_log_title(a: Seq<char>, b: Seq<char>, new_value: int) -> Seq<char> {
    a + " and "@ + b + " are now "@ + spec_band_label(spec_band(new_value))
}

pub open spec fn pair_log_detail(old_value: int, new_value: int, change: int, source: RelationshipSource) -> Seq<char> {
    "Their relationship "@ + (if change > 0 { "improved"@ } else { "worsened"@ }) + " from "@
        + spec_band_label(spec_band(old_value)) + " to "@ + spec_band_label(spec_band(new_value)) + " ("@
        + plus_signed_decimal(change) + "). "@
        + (if change > 0 { spec_positive_detail(source) } else { spec_negative_detail(source) })
}

/// The value `from` holds of `to` after moving it by `change`, held within
/// -50..=50 (0 when `from` is missing).
pub open spec fn one_way_value(cs: Seq<Colonist>, from: u32, to: u32, change: int) -> int {
    match crate::mission_system::first_with_id(cs, from) {
        Some(i) => clamped(rel(cs[i], to) + change),
        None => 0,
    }
}

/// The average of a pair's two new values, truncated toward zero: `a`'s
/// value of `b` moves first, then `b`'s value of `a` (which is the value
/// just written when `a` and `b` are the same id).
pub open spec fn pair_new_average(cs: Seq<Colonist>, a: u32, b: u32, change: int) -> int {
    let new_a = one_way_value(cs, a, b, change);
    let new_b = match crate::mission_system::first_with_id(cs, b) {
        Some(j) => clamped((if a == b { new_a } else { rel(cs[j], a) }) + change),
        None => 0,
    };
    crate::colonist::trunc_half(new_a + new_b)
}

/// One pair's update: both one-way values move by `change`, a change of the
/// pair's band is logged, and nothing else in the colony changes.
pub open spec fn pair_step(s0: GameState, s1: GameState, a: u32, b: u32, change: int, source: RelationshipSource) -> bool {
    &&& pair_updated(s0.colonists@, s1.colonists@, a, b, change)
    &&& pair_logged(s0, s1, a, b, spec_relationship_value(s0.colonists@, a, b), pair_new_average(s0.colonists@, a, b, change),
        change, source)
    &&& s1.tick == s0.tick
    &&& s1.time == s0.time
    &&& s1.grid == s0.grid
    &&& s1.social_history == s0.social_history
    &&& s1.resources == s0.resources
    &&& s1.missions == s0.missions
    &&& s1.priority == s0.priority
    &&& s1.technology == s0.technology
    &&& s1.scenario == s0.scenario
    &&& s1.building_system == s0.building_system
}

/// `gs` walks from `s0` to `s1`, one pair step per pair, in order.
pub open spec fn step_trace(s0: GameState, s1: GameState, pairs: Seq<(u32, u32)>, changes: Seq<int>,
    source: RelationshipSource, gs: Seq<GameState>) -> bool
{
    &&& gs.len() == pairs.len() + 1
    &&& gs[0] == s0
    &&& gs[pairs.len() as int] == s1
    &&& forall|k: int| 0 <= k < pairs.len() ==> #[trigger] pair_step(gs[k], gs[k + 1], pairs[k].0, pairs[k].1, changes[k], source)
}

/// `s1` is `s0` after one pair step for each pair, in order.
pub open spec fn pairs_stepped(s0: GameState, s1: GameState, pairs: Seq<(u32, u32)>, changes: Seq<int>,
    source: RelationshipSource) -> bool
{
    exists|gs: Seq<GameState>| #[trigger] step_trace(s0, s1, pairs, changes, source, gs)
}

impl SocialSystem {
    /// Moves both one-way values of a pair by `change` and logs a change of
    /// the pair's band (judged on `a`'s value before and on the average of
    /// the two new values after).
    pub fn apply_pair_update(state: &mut GameState, id_a: u32, id_b: u32, change: i32, source: RelationshipSource)
        requires
            all_bounded(old(state).colonists@),
            -10 <= change <= 10,
        ensures
            all_bounded(final(state).colonists@),
            final(state).colonists@.len() == old(state).colonists@.len(),
            pair_step(*old(state), *final(state), id_a, id_b, change as int, source),
    {
        let first_name = name_of(state, id_a);
        let second_name = name_of(state, id_b);
        let old_value = Self::relationship_value(state, id_a, id_b);
        let ghost s0 = *state;
        let new_a = Self::apply_one_way_update(state, id_a, id_b, change);
        let ghost mid = state.colonists@;
        let new_b = Self::apply_one_way_update(state, id_b, id_a, change);
        proof {
            assert(one_way_updated(s0.colonists@, mid, id_a, id_b, change as int));
            crate::mission_system::lemma_first_with_id_found(s0.colonists@, id_a);
            crate::mission_system::lemma_first_with_id_found(s0.colonists@, id_b);
            assert forall|k: int| 0 <= k < s0.colonists@.len() implies #[trigger] mid[k].id == s0.colonists@[k].id by {
                if let Some(i) = crate::mission_system::first_with_id(s0.colonists@, id_a) {
                    if k != i {
                        assert(mid[k] == s0.colonists@[k]);
                    }
                }
            }
            crate::mission_system::lemma_first_with_id_same_ids(s0.colonists@, mid, id_b);
            assert(new_a as int == one_way_value(s0.colonists@, id_a, id_b, change as int));
            if let Some(j) = crate::mission_system::first_with_id(s0.colonists@, id_b) {
                if id_a == id_b {
                    assert(rel(mid[j], id_a) == new_a as int);
                } else {
                    assert(crate::mission_system::first_with_id(s0.colonists@, id_a) != Some(j));
                    assert(mid[j] == s0.colonists@[j]);
                }
            }
            assert(new_a + new_b == one_way_value(s0.colonists@, id_a, id_b, change as int) + match crate::mission_system::first_with_id(s0.colonists@, id_b) {
                Some(j) => clamped((if id_a == id_b { new_a as int } else { rel(s0.colonists@[j], id_a) }) + change),
                None => 0,
            });
        }
        let new_value = (new_a + new_b) / 2;
        if RelationshipBand::from_value(old_value) != RelationshipBand::from_value(new_value) {
            let mut title = first_name.clone();
            title.append(" and ");
            title.append(second_name.as_str());
            title.append(" are now ");
            title.append(relationship_label(new_value));
            let mut detail = text("Their relationship ");
            detail.append(if change > 0 { "improved" } else { "worsened" });
            detail.append(" from ");
            detail.append(relationship_label(old_value));
            detail.append(" to ");
            detail.append(relationship_label(new_value));
            detail.append(" (");
            push_plus_signed(&mut detail, change as i64);
            detail.append("). ");
            detail.append(if change > 0 { source.positive_detail() } else { source.negative_detail() });
            proof {
                assert(detail@ =~= pair_log_detail(old_value as int, new_value as int, change as int, source));
            }
            state.push_log(LogCategory::Social, title, detail);
        }
        assert(new_value as int == pair_new_average(s0.colonists@, id_a, id_b, change as int));
        assert(pair_logged(s0, *state, id_a, id_b, old_value as int, new_value as int, change as int, source));
    }
}

/// The name the log uses for a colonist id.
fn name_of(state: &GameState, id: u32) -> (r: String)
    ensures
        r@ == display_name(state.colonists@, id),
{
    match colonist_by_id(&state.colonists, id) {
        Some(c) => c.name.clone(),
        None => {
            let mut n = text("Colonist ");
            crate::text::push_decimal(&mut n, id as u64);
            n
        },
    }
}

/// A band change between the values before and after is logged; otherwise
/// the log is unchanged.
pub open spec fn pair_logged(s0: GameState, s1: GameState, a: u32, b: u32, old_value: int, new_value: int, change: int,
    source: RelationshipSource) -> bool
{
    if spec_band(old_value) != spec_band(new_value) {
        crate::resource_system::logged(s0, s1, LogCategory::Social,
            pair_log_title(display_name(s0.colonists@, a), display_name(s0.colonists@, b), new_value),
            pair_log_detail(old_value, new_value, change, source))
    } else {
        s1.event_log == s0.event_log
    }
}


/// The building where a colonist is spending time in this setting: a
/// building it is working in, or a Mess Hall it is eating in.
pub open spec fn meeting_place(c: Colonist, source: RelationshipSource) -> Option<u32> {
    match c.activity_location {
        ActivityLocation::Building { building_id, building_type } => match source {
            RelationshipSource::Work => if c.state == ColonistState::Working { Some(building_id) } else { None },
            RelationshipSource::Meal => if c.state == ColonistState::Eating && building_type == BuildingType::MessHall {
                Some(building_id)
            } else {
                None
            },
            RelationshipSource::SharedHabitat => None,
        },
        _ => None,
    }
}

/// (building, colonist) for each colonist spending time somewhere, in
/// roster order.
pub open spec fn participants(cs: Seq<Colonist>, source: RelationshipSource) -> Seq<(u32, u32)>
    decreases cs.len(),
{
    if cs.len() == 0 {
        Seq::empty()
    } else {
        let rest = participants(cs.drop_last(), source);
        match meeting_place(cs.last(), source) {
            Some(b) => rest.push((b, cs.last().id)),
            None => rest,
        }
    }
}

/// The buildings of `ps`, each once, in order of first appearance.
pub open spec fn places(ps: Seq<(u32, u32)>) -> Seq<u32>
    decreases ps.len(),
{
    if ps.len() == 0 {
        Seq::empty()
    } else {
        let d = places(ps.drop_last());
        if d.contains(ps.last().0) { d } else { d.push(ps.last().0) }
    }
}

/// The colonists at building `b`, in order.
pub open spec fn members(ps: Seq<(u32, u32)>, b: u32) -> Seq<u32>
    decreases ps.len(),
{
    if ps.len() == 0 {
        Seq::empty()
    } else {
        let m = members(ps.drop_last(), b);
        if ps.last().0 == b { m.push(ps.last().1) } else { m }
    }
}

/// The pairs (ms[i], ms[j]) for i < j < `j_end`, at fixed i.
pub open spec fn pair_row(ms: Seq<u32>, i: int, j_end: int) -> Seq<(u32, u32)>
    decreases j_end - i,
{
    if j_end <= i + 1 {
        Seq::empty()
    } else {
        pair_row(ms, i, j_end - 1).push((ms[i], ms[j_end - 1]))
    }
}

/// The pairs (ms[i], ms[j]) for i < j, with i below `i_end`, row by row.
pub open spec fn pair_rows(ms: Seq<u32>, i_end: int) -> Seq<(u32, u32)>
    decreases i_end,
{
    if i_end <= 0 {
        Seq::empty()
    } else {
        pair_rows(ms, i_end - 1) + pair_row(ms, i_end - 1, ms.len() as int)
    }
}

/// Every pair within each group of the first `k` places, group by group.
pub open spec fn group_pair_list(ps: Seq<(u32, u32)>, bs: Seq<u32>, k: int) -> Seq<(u32, u32)>
    decreases k,
{
    if k <= 0 {
        Seq::empty()
    } else {
        let ms = members(ps, bs[k - 1]);
        group_pair_list(ps, bs, k - 1) + pair_rows(ms, ms.len() as int)
    }
}

/// Every pair of colonists spending time at the same building, group by
/// group in order of the buildings' first appearance, each group's pairs in
/// roster order.
pub open spec fn spec_meeting_pairs(cs: Seq<Colonist>, source: RelationshipSource) -> Seq<(u32, u32)> {
    let ps = participants(cs, source);
    group_pair_list(ps, places(ps), places(ps).len() as int)
}

/// Some colonist with id `id` spends time at building `b` in this setting.
pub open spec fn at_place(cs: Seq<Colonist>, id: u32, source: RelationshipSource, b: u32) -> bool {
    exists|i: int| 0 <= i < cs.len() && #[trigger] cs[i].id == id && meeting_place(cs[i], source) == Some(b)
}

/// Colonists with ids `a` and `b` spend time at one and the same building
/// in this setting.
pub open spec fn together(cs: Seq<Colonist>, a: u32, b: u32, source: RelationshipSource) -> bool {
    exists|place: u32| at_place(cs, a, source, place) && at_place(cs, b, source, place)
}

/// Where a colonist meets others, case by case: at work, the building it is
/// working in; at a meal, the Mess Hall it is eating in; shared quarters
/// are grouped by the caller, so no colonist meets here.
pub proof fn law_meeting_place(c: Colonist, source: RelationshipSource)
    ensures
        meeting_place(c, source) matches Some(b) ==> (c.activity_location matches ActivityLocation::Building {
            building_id, building_type } && building_id == b
            && (source == RelationshipSource::Work ==> c.state == ColonistState::Working)
            && (source == RelationshipSource::Meal ==> c.state == ColonistState::Eating
                && building_type == BuildingType::MessHall)),
        source == RelationshipSource::SharedHabitat ==> meeting_place(c, source) is None,
        source == RelationshipSource::Work && c.state == ColonistState::Working ==> (c.activity_location matches
            ActivityLocation::Building { building_id, .. } ==> meeting_place(c, source) == Some(building_id)),
        source == RelationshipSource::Meal && c.state == ColonistState::Eating ==> (c.activity_location matches
            ActivityLocation::Building { building_id, building_type } ==> (building_type == BuildingType::MessHall
            ==> meeting_place(c, source) == Some(building_id))),
{
}

proof fn lemma_participants_at_place(cs: Seq<Colonist>, source: RelationshipSource)
    ensures
        forall|k: int| 0 <= k < participants(cs, source).len()
            ==> at_place(cs, (#[trigger] participants(cs, source)[k]).1, source, participants(cs, source)[k].0),
    decreases cs.len(),
{
    if cs.len() > 0 {
        let d = cs.drop_last();
        lemma_participants_at_place(d, source);
        let ps = participants(cs, source);
        let rest = participants(d, source);
        assert forall|k: int| 0 <= k < ps.len() implies at_place(cs, (#[trigger] ps[k]).1, source, ps[k].0) by {
            if k < rest.len() {
                assert(ps[k] == rest[k]);
                assert(at_place(d, rest[k].1, source, rest[k].0));
                let i = choose|i: int| 0 <= i < d.len() && #[trigger] d[i].id == rest[k].1
                    && meeting_place(d[i], source) == Some(rest[k].0);
                assert(cs[i] == d[i]);
            } else {
                let i = cs.len() - 1;
                assert(cs[i].id == ps[k].1);
            }
        }
    }
}

proof fn lemma_members_at_place(cs: Seq<Colonist>, source: RelationshipSource, ps: Seq<(u32, u32)>, b: u32)
    requires
        forall|k: int| 0 <= k < ps.len() ==> at_place(cs, (#[trigger] ps[k]).1, source, ps[k].0),
    ensures
        forall|m: int| 0 <= m < members(ps, b).len() ==> at_place(cs, #[trigger] members(ps, b)[m], source, b),
    decreases ps.len(),
{
    if ps.len() > 0 {
        let d = ps.drop_last();
        assert forall|k: int| 0 <= k < d.len() implies at_place(cs, (#[trigger] d[k]).1, source, d[k].0) by {
            assert(d[k] == ps[k]);
        }
        lemma_members_at_place(cs, source, d, b);
        let ms = members(ps, b);
        let rest = members(d, b);
        assert forall|m: int| 0 <= m < ms.len() implies at_place(cs, #[trigger] ms[m], source, b) by {
            if m < rest.len() {
                assert(ms[m] == rest[m]);
            } else {
                assert(ps[ps.len() - 1] == ps.last());
            }
        }
    }
}

proof fn lemma_pair_row_members(ms: Seq<u32>, i: int, j_end: int)
    requires
        0 <= i,
        j_end <= ms.len(),
    ensures
        forall|k: int| 0 <= k < pair_row(ms, i, j_end).len() ==> exists|j: int| #![trigger ms[j]] i < j < j_end
            && #[trigger] pair_row(ms, i, j_end)[k] == (ms[i], ms[j]),
    decreases j_end - i,
{
    if j_end > i + 1 {
        lemma_pair_row_members(ms, i, j_end - 1);
        let r = pair_row(ms, i, j_end);
        let d = pair_row(ms, i, j_end - 1);
        assert forall|k: int| 0 <= k < r.len() implies exists|j: int| #![trigger ms[j]] i < j < j_end && #[trigger] r[k] == (ms[i], ms[j]) by {
            if k < d.len() {
                assert(r[k] == d[k]);
                let j = choose|j: int| #![trigger ms[j]] i < j < j_end - 1 && d[k] == (ms[i], ms[j]);
                assert(ms[j] == ms[j]);
            } else {
                assert(r[k] == (ms[i], ms[j_end - 1]));
                assert(ms[j_end - 1] == ms[j_end - 1]);
            }
        }
    }
}

proof fn lemma_pair_rows_members(ms: Seq<u32>, i_end: int)
    requires
        i_end <= ms.len(),
    ensures
        forall|k: int| 0 <= k < pair_rows(ms, i_end).len() ==> exists|i: int, j: int| #![trigger ms[i], ms[j]] 0 <= i < j < ms.len()
            && #[trigger] pair_rows(ms, i_end)[k] == (ms[i], ms[j]),
    decreases i_end,
{
    if i_end > 0 {
        lemma_pair_rows_members(ms, i_end - 1);
        lemma_pair_row_members(ms, i_end - 1, ms.len() as int);
        let a = pair_rows(ms, i_end - 1);
        let row = pair_row(ms, i_end - 1, ms.len() as int);
        let r = pair_rows(ms, i_end);
        assert(r == a + row);
        assert forall|k: int| 0 <= k < r.len() implies exists|i: int, j: int| #![trigger ms[i], ms[j]] 0 <= i < j < ms.len()
            && #[trigger] r[k] == (ms[i], ms[j]) by {
            if k < a.len() {
                assert(r[k] == a[k]);
                let (i, j) = choose|i: int, j: int| #![trigger ms[i], ms[j]] 0 <= i < j < ms.len() && a[k] == (ms[i], ms[j]);
                assert(ms[i] == ms[i] && ms[j] == ms[j]);
            } else {
                assert(r[k] == row[k - a.len()]);
                let j = choose|j: int| #![trigger ms[j]] i_end - 1 < j < ms.len() && row[k - a.len()] == (ms[i_end - 1], ms[j]);
                assert(ms[i_end - 1] == ms[i_end - 1] && ms[j] == ms[j]);
            }
        }
    }
}

proof fn lemma_group_pairs_at_place(cs: Seq<Colonist>, source: RelationshipSource, ps: Seq<(u32, u32)>, bs: Seq<u32>, n: int)
    requires
        0 <= n <= bs.len(),
        forall|k: int| 0 <= k < ps.len() ==> at_place(cs, (#[trigger] ps[k]).1, source, ps[k].0),
    ensures
        forall|k: int| 0 <= k < group_pair_list(ps, bs, n).len()
            ==> together(cs, (#[trigger] group_pair_list(ps, bs, n)[k]).0, group_pair_list(ps, bs, n)[k].1, source),
    decreases n,
{
    if n > 0 {
        lemma_group_pairs_at_place(cs, source, ps, bs, n - 1);
        let b = bs[n - 1];
        let ms = members(ps, b);
        lemma_members_at_place(cs, source, ps, b);
        lemma_pair_rows_members(ms, ms.len() as int);
        let a = group_pair_list(ps, bs, n - 1);
        let rows = pair_rows(ms, ms.len() as int);
        let r = group_pair_list(ps, bs, n);
        assert(r == a + rows);
        assert forall|k: int| 0 <= k < r.len() implies together(cs, (#[trigger] r[k]).0, r[k].1, source) by {
            if k < a.len() {
                assert(r[k] == a[k]);
                assert(together(cs, a[k].0, a[k].1, source));
            } else {
                assert(r[k] == rows[k - a.len()]);
                let (i, j) = choose|i: int, j: int| #![trigger ms[i], ms[j]] 0 <= i < j < ms.len()
                    && rows[k - a.len()] == (ms[i], ms[j]);
                assert(at_place(cs, ms[i], source, b));
                assert(at_place(cs, ms[j], source, b));
                assert(together(cs, ms[i], ms[j], source));
            }
        }
    }
}

/// Every meeting pair is two colonists spending time at one and the same
/// building in this setting (see `law_meeting_place` for what that takes);
/// shared quarters form no pairs here.
pub proof fn law_meeting_pairs(cs: Seq<Colonist>, source: RelationshipSource)
    ensures
        forall|k: int| 0 <= k < spec_meeting_pairs(cs, source).len()
            ==> together(cs, (#[trigger] spec_meeting_pairs(cs, source)[k]).0, spec_meeting_pairs(cs, source)[k].1, source),
        source == RelationshipSource::SharedHabitat ==> spec_meeting_pairs(cs, source).len() == 0,
{
    let ps = participants(cs, source);
    lemma_participants_at_place(cs, source);
    lemma_group_pairs_at_place(cs, source, ps, places(ps), places(ps).len() as int);
    assert(spec_meeting_pairs(cs, source) == group_pair_list(ps, places(ps), places(ps).len() as int));
    if source == RelationshipSource::SharedHabitat {
        lemma_no_habitat_participants(cs);
        assert(places(ps).len() == 0);
    }
}

proof fn lemma_no_habitat_participants(cs: Seq<Colonist>)
    ensures
        participants(cs, RelationshipSource::SharedHabitat).len() == 0,
    decreases cs.len(),
{
    if cs.len() > 0 {
        lemma_no_habitat_participants(cs.drop_last());
    }
}

fn participant_list(colonists: &[Colonist], source: RelationshipSource) -> (r: Vec<(u32, u32)>)
    ensures
        r@ == participants(colonists@, source),
{
    let mut r: Vec<(u32, u32)> = Vec::new();
    let mut i: usize = 0;
    while i < colonists.len()
        invariant
            i <= colonists@.len(),
            r@ == participants(colonists@.take(i as int), source),
        decreases colonists@.len() - i,
    {
        assert(colonists@.take(i + 1).drop_last() == colonists@.take(i as int));
        assert(colonists@.take(i + 1).last() == colonists@[i as int]);
        let c = &colonists[i];
        let place: Option<u32> = match c.activity_location {
            ActivityLocation::Building { building_id, building_type } => match source {
                RelationshipSource::Work => if c.state == ColonistState::Working { Some(building_id) } else { None },
                RelationshipSource::Meal => if c.state == ColonistState::Eating && building_type == BuildingType::MessHall {
                    Some(building_id)
                } else {
                    None
                },
                RelationshipSource::SharedHabitat => None,
            },
            _ => None,
        };
        match place {
            Some(b) => r.push((b, c.id)),
            None => {},
        }
        i = i + 1;
    }
    assert(colonists@.take(colonists@.len() as int) == colonists@);
    r
}

fn place_list(ps: &Vec<(u32, u32)>) -> (r: Vec<u32>)
    ensures
        r@ == places(ps@),
{
    let mut r: Vec<u32> = Vec::new();
    let mut i: usize = 0;
    while i < ps.len()
        invariant
            i <= ps@.len(),
            r@ == places(ps@.take(i as int)),
        decreases ps@.len() - i,
    {
        assert(ps@.take(i + 1).drop_last() == ps@.take(i as int));
        assert(ps@.take(i + 1).last() == ps@[i as int]);
        let b = ps[i].0;
        let mut seen = false;
        let mut k: usize = 0;
        while k < r.len()
            invariant
                k <= r@.len(),
                seen == (exists|q: int| 0 <= q < k && r@[q] == b),
            decreases r@.len() - k,
        {
            if r[k] == b {
                seen = true;
            }
            k = k + 1;
        }
        if !seen {
            r.push(b);
        }
        i = i + 1;
    }
    assert(ps@.take(ps@.len() as int) == ps@);
    r
}

fn member_list(ps: &Vec<(u32, u32)>, b: u32) -> (r: Vec<u32>)
    ensures
        r@ == members(ps@, b),
{
    let mut r: Vec<u32> = Vec::new();
    let mut i: usize = 0;
    while i < ps.len()
        invariant
            i <= ps@.len(),
            r@ == members(ps@.take(i as int), b),
        decreases ps@.len() - i,
    {
        assert(ps@.take(i + 1).drop_last() == ps@.take(i as int));
        assert(ps@.take(i + 1).last() == ps@[i as int]);
        if ps[i].0 == b {
            r.push(ps[i].1);
        }
        i = i + 1;
    }
    assert(ps@.take(ps@.len() as int) == ps@);
    r
}

fn push_pairs(out: &mut Vec<(u32, u32)>, ms: &Vec<u32>)
    ensures
        final(out)@ == old(out)@ + pair_rows(ms@, ms@.len() as int),
{
    let ghost base = out@;
    let n = ms.len();
    let mut i: usize = 0;
    while i < n
        invariant
            n == ms@.len(),
            i <= n,
            out@ == base + pair_rows(ms@, i as int),
        decreases n - i,
    {
        let ghost before_row = out@;
        let mut j: usize = i + 1;
        assert(pair_row(ms@, i as int, j as int) == Seq::<(u32, u32)>::empty());
        while j < n
            invariant
                n == ms@.len(),
                i < n,
                i + 1 <= j <= n,
                out@ == before_row + pair_row(ms@, i as int, j as int),
            decreases n - j,
        {
            out.push((ms[i], ms[j]));
            j = j + 1;
        }
        i = i + 1;
    }
}

impl SocialSystem {
    /// The pairs of colonists spending time together at a building in this
    /// setting (working in the same building, or eating in the same Mess
    /// Hall), group by group.
    pub fn meeting_pairs(state: &GameState, source: RelationshipSource) -> (r: Vec<(u32, u32)>)
        ensures
            r@ == spec_meeting_pairs(state.colonists@, source),
            forall|k: int| 0 <= k < r@.len() ==> together(state.colonists@, (#[trigger] r@[k]).0, r@[k].1, source),
    {
        proof {
            law_meeting_pairs(state.colonists@, source);
        }
        let ps = participant_list(&state.colonists, source);
        let bs = place_list(&ps);
        let mut out: Vec<(u32, u32)> = Vec::new();
        let mut k: usize = 0;
        while k < bs.len()
            invariant
                k <= bs@.len(),
                out@ == group_pair_list(ps@, bs@, k as int),
            decreases bs@.len() - k,
        {
            let ms = member_list(&ps, bs[k]);
            push_pairs(&mut out, &ms);
            k = k + 1;
        }
        out
    }
}


/// The change each pair's time together makes, from the colonists'
/// feelings before any of the updates.
pub open spec fn pair_changes(s: GameState, pairs: Seq<(u32, u32)>, low_mood: Seq<bool>, source: RelationshipSource) -> Seq<int> {
    Seq::new(pairs.len(), |k: int| spec_priority_delta(s.priority.active, source,
        spec_base_delta(source, low_mood[k], spec_relationship_value(s.colonists@, pairs[k].0, pairs[k].1))))
}

impl SocialSystem {
    /// Works out each pair's change from the feelings before any update
    /// (given whether each pair's average mood is low for this setting),
    /// then applies the changes pair by pair, logging each change of band.
    pub fn apply_group_relationships(state: &mut GameState, pairs: &[(u32, u32)], low_mood: &[bool], source: RelationshipSource)
        requires
            all_bounded(old(state).colonists@),
            low_mood@.len() == pairs@.len(),
        ensures
            all_bounded(final(state).colonists@),
            pairs_stepped(*old(state), *final(state), pairs@, pair_changes(*old(state), pairs@, low_mood@, source), source),
    {
        let ghost s0 = *state;
        let ghost changes = pair_changes(s0, pairs@, low_mood@, source);
        let mut deltas: Vec<i32> = Vec::new();
        let mut k: usize = 0;
        while k < pairs.len()
            invariant
                *state == s0,
                low_mood@.len() == pairs@.len(),
                k <= pairs@.len(),
                deltas@.len() == k,
                changes == pair_changes(s0, pairs@, low_mood@, source),
                forall|q: int| 0 <= q < k ==> #[trigger] deltas@[q] as int == changes[q] && -10 <= deltas@[q] <= 10,
            decreases pairs@.len() - k,
        {
            let (a, b) = pairs[k];
            let d = Self::relationship_delta(state, a, b, source, low_mood[k]);
            deltas.push(d);
            k = k + 1;
        }
        let ghost mut gs: Seq<GameState> = seq![s0];
        let mut k: usize = 0;
        while k < pairs.len()
            invariant
                low_mood@.len() == pairs@.len(),
                deltas@.len() == pairs@.len(),
                changes == pair_changes(s0, pairs@, low_mood@, source),
                k <= pairs@.len(),
                all_bounded(state.colonists@),
                forall|q: int| 0 <= q < pairs@.len() ==> #[trigger] deltas@[q] as int == changes[q] && -10 <= deltas@[q] <= 10,
                gs.len() == k + 1,
                gs[0] == s0,
                gs[k as int] == *state,
                forall|q: int| 0 <= q < k ==> #[trigger] pair_step(gs[q], gs[q + 1], pairs@[q].0, pairs@[q].1, changes[q], source),
            decreases pairs@.len() - k,
        {
            let (a, b) = pairs[k];
            Self::apply_pair_update(state, a, b, deltas[k], source);
            proof {
                let old_gs = gs;
                gs = gs.push(*state);
                assert forall|q: int| 0 <= q < k + 1 implies #[trigger] pair_step(gs[q], gs[q + 1], pairs@[q].0,
                    pairs@[q].1, changes[q], source) by {
                    if q < k {
                        assert(gs[q] == old_gs[q] && gs[q + 1] == old_gs[q + 1]);
                    }
                }
            }
            k = k + 1;
        }
        assert(step_trace(s0, *state, pairs@, changes, source, gs));
    }
}

} // verus!
