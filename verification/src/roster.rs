//! The assignment roster: filtering, ordering and paging survivors, batch
//! copying of home and work pins, and the pairwise facts that social
//! contact depends on.
use crate::building::BuildingType;
use crate::colonist::{
    pair_average, rel, relationships_summable, spec_work_building, ActivityLocation, Colonist, ColonistState,
    JobPreference,
};
use crate::relations::{
    any_value_at_least, any_value_at_most, has_value_at_least, has_value_at_most, is_value, largest_abs_value, max_abs,
    strongest_value, abs, values_negatable,
};
use crate::text::{decimal, join_names, joined, push_decimal, truncate_text, truncated};
use crate::types::Position;
use vstd::prelude::*;
use vstd::string::StringExecFns;

verus! {

/// How many roster slots the assignment panel shows.
pub const ASSIGN_ROSTER_SLOT_COUNT: usize = 5;

/// Which survivors the roster lists, by their relationships and pins.
#[derive(Clone, Copy, Debug, PartialEq, Eq, Structural)]
pub enum AssignRosterFilter {
    All,
    Risk,
    Support,
    Pinned,
}

/// How the roster is ordered.
#[derive(Clone, Copy, Debug, PartialEq, Eq, Structural)]
pub enum AssignRosterSort {
    Roster,
    Mood,
    Bond,
}

/// What assigning a survivor to a building means.
#[derive(Clone, Copy, Debug, PartialEq, Eq, Structural)]
pub enum SpaceAssignmentKind {
    Recovery,
    Work,
}

/// Which survivors a batch copy reaches.
#[derive(Clone, Copy, Debug, PartialEq, Eq, Structural)]
pub enum BatchAssignmentScope {
    Page,
    All,
}

pub open spec fn spec_scope_label(s: BatchAssignmentScope) -> Seq<char> {
    match s {
        BatchAssignmentScope::Page => "visible roster"@,
        BatchAssignmentScope::All => "all compatible survivors"@,
    }
}

impl BatchAssignmentScope {
    pub fn label(self) -> (r: &'static str)
        ensures
            r@ == spec_scope_label(self),
    {
        match self {
            BatchAssignmentScope::Page => "visible roster",
            BatchAssignmentScope::All => "all compatible survivors",
        }
    }
}

pub open spec fn spec_next_role_filter(current: Option<JobPreference>) -> Option<JobPreference> {
    match current {
        None => Some(JobPreference::Explorer),
        Some(JobPreference::Explorer) => Some(JobPreference::Builder),
        Some(JobPreference::Builder) => Some(JobPreference::Cook),
        Some(JobPreference::Cook) => Some(JobPreference::Hauler),
        Some(JobPreference::Hauler) => None,
        Some(JobPreference::Unassigned) => None,
    }
}

/// The role filter after the next click: no filter, then each assignable
/// role in turn, then no filter again.
pub fn next_assign_role_filter(current: Option<JobPreference>) -> (r: Option<JobPreference>)
    ensures
        r == spec_next_role_filter(current),
{
    match current {
        None => Some(JobPreference::Explorer),
        Some(JobPreference::Explorer) => Some(JobPreference::Builder),
        Some(JobPreference::Builder) => Some(JobPreference::Cook),
        Some(JobPreference::Cook) => Some(JobPreference::Hauler),
        Some(JobPreference::Hauler) => None,
        Some(JobPreference::Unassigned) => None,
    }
}

pub open spec fn spec_space_kind(j: JobPreference, t: BuildingType) -> Option<SpaceAssignmentKind> {
    if t == BuildingType::Habitat {
        Some(SpaceAssignmentKind::Recovery)
    } else if t == spec_work_building(j) {
        Some(SpaceAssignmentKind::Work)
    } else {
        None
    }
}

/// A habitat is a place to recover; the role's own building is a place to
/// work; other buildings take no assignment.
pub fn space_assignment_kind(job_preference: JobPreference, building_type: BuildingType) -> (r: Option<SpaceAssignmentKind>)
    ensures
        r == spec_space_kind(job_preference, building_type),
{
    if building_type == BuildingType::Habitat {
        return Some(SpaceAssignmentKind::Recovery);
    }
    if building_type == job_preference.work_building_type() {
        Some(SpaceAssignmentKind::Work)
    } else {
        None
    }
}

pub open spec fn spec_filter_matches(c: Colonist, f: AssignRosterFilter, role: Option<JobPreference>) -> bool {
    let relationship_match = match f {
        AssignRosterFilter::All => true,
        AssignRosterFilter::Risk => has_value_at_most(c.relationships@, -10),
        AssignRosterFilter::Support => has_value_at_least(c.relationships@, 10),
        AssignRosterFilter::Pinned => c.assigned_habitat is Some || c.assigned_workplace is Some,
    };
    relationship_match && match role {
        None => true,
        Some(r) => c.job_preference == r,
    }
}

/// Whether a survivor passes the relationship filter and the role filter.
pub fn assign_roster_filter_matches(colonist: &Colonist, active_filter: AssignRosterFilter, active_role_filter: Option<JobPreference>) -> (r: bool)
    ensures
        r == spec_filter_matches(*colonist, active_filter, active_role_filter),
{
    let relationship_match = match active_filter {
        AssignRosterFilter::All => true,
        AssignRosterFilter::Risk => any_value_at_most(&colonist.relationships, -10),
        AssignRosterFilter::Support => any_value_at_least(&colonist.relationships, 10),
        AssignRosterFilter::Pinned => colonist.assigned_habitat.is_some() || colonist.assigned_workplace.is_some(),
    };
    relationship_match && match active_role_filter {
        None => true,
        Some(role) => colonist.job_preference == role,
    }
}

pub open spec fn spec_building_filter_matches(c: Colonist, building_id: Option<u32>) -> bool {
    match building_id {
        None => true,
        Some(id) => c.assigned_habitat == Some(id) || c.assigned_workplace == Some(id),
    }
}

/// Whether a survivor is pinned (home or work) to the filtered building.
pub fn assign_building_filter_matches(colonist: &Colonist, building_id: Option<u32>) -> (r: bool)
    ensures
        r == spec_building_filter_matches(*colonist, building_id),
{
    match building_id {
        None => true,
        Some(id) => colonist.assigned_habitat == Some(id) || colonist.assigned_workplace == Some(id),
    }
}

/// The strongest feeling a survivor has toward anyone, as a size.
pub fn relationship_pressure_score(colonist: &Colonist) -> (r: i32)
    requires
        values_negatable(colonist.relationships@),
    ensures
        r == max_abs(colonist.relationships@),
{
    largest_abs_value(&colonist.relationships)
}

/// The recorded value of largest size (ties go to the value met last in
/// the map's iteration order), or none when nothing is recorded.
pub fn strongest_relationship_value(colonist: &Colonist) -> (r: Option<i32>)
    requires
        values_negatable(colonist.relationships@),
    ensures
        match r {
            None => colonist.relationships@.dom() == Set::<u32>::empty(),
            Some(v) => is_value(colonist.relationships@, v) && forall|k: u32| #[trigger] colonist.relationships@.contains_key(k)
                ==> abs(colonist.relationships@[k] as int) <= abs(v as int),
        },
{
    strongest_value(&colonist.relationships)
}

/// The pair's average relationship; a side with nothing recorded defers to
/// the other side.
pub fn average_relationship_between(first: &Colonist, second: &Colonist) -> (r: i32)
    requires
        relationships_summable(*first),
        relationships_summable(*second),
    ensures
        r == pair_average(rel(*first, second.id), rel(*second, first.id)),
{
    let first_value = first.relationship_with(second.id);
    let second_value = second.relationship_with(first.id);
    if first_value == 0 {
        second_value
    } else if second_value == 0 {
        first_value
    } else {
        (first_value + second_value) / 2
    }
}

pub open spec fn spec_shared_location(a: ActivityLocation, b: ActivityLocation) -> bool {
    match (a, b) {
        (ActivityLocation::Building { building_id: x, .. }, ActivityLocation::Building { building_id: y, .. }) => x == y,
        (ActivityLocation::Ground(p), ActivityLocation::Ground(q)) => p == q,
        _ => false,
    }
}

/// Both survivors are in the same building, or on the same ground cell.
pub fn shared_social_location(first: &Colonist, second: &Colonist) -> (r: bool)
    ensures
        r == spec_shared_location(first.activity_location, second.activity_location),
{
    match (first.activity_location, second.activity_location) {
        (ActivityLocation::Building { building_id: x, .. }, ActivityLocation::Building { building_id: y, .. }) => x == y,
        (ActivityLocation::Ground(p), ActivityLocation::Ground(q)) => p.x == q.x && p.y == q.y,
        _ => false,
    }
}

pub open spec fn spec_shared_pin(a: Colonist, b: Colonist) -> bool {
    (a.assigned_habitat is Some && b.assigned_habitat == a.assigned_habitat)
        || (a.assigned_workplace is Some && b.assigned_workplace == a.assigned_workplace)
}

/// The survivors share a home pin or a work pin.
pub fn shared_assignment_pin(first: &Colonist, second: &Colonist) -> (r: bool)
    ensures
        r == spec_shared_pin(*first, *second),
{
    let home = match first.assigned_habitat {
        Some(id) => second.assigned_habitat == Some(id),
        None => false,
    };
    let work = match first.assigned_workplace {
        Some(id) => second.assigned_workplace == Some(id),
        None => false,
    };
    home || work
}

/// The cells are the same or orthogonal neighbours.
pub fn adjacent_positions(first: Position, second: Position) -> (r: bool)
    ensures
        r == (abs(first.x - second.x) + abs(first.y - second.y) <= 1),
{
    let dx: i64 = first.x as i64 - second.x as i64;
    let dy: i64 = first.y as i64 - second.y as i64;
    let ax: i64 = if dx < 0 { -dx } else { dx };
    let ay: i64 = if dy < 0 { -dy } else { dy };
    ax + ay <= 1
}


/// Survivor `i` counts toward the roster pages: not the selected survivor
/// (by id) and passing every filter.
pub open spec fn page_candidate(cs: Seq<Colonist>, sel: Option<u32>, f: AssignRosterFilter, role: Option<JobPreference>,
    b: Option<u32>, i: int) -> bool
{
    &&& Some(cs[i].id) != sel
    &&& spec_filter_matches(cs[i], f, role)
    &&& spec_building_filter_matches(cs[i], b)
}

/// How many of the first `n` survivors count toward the roster pages.
pub open spec fn count_page_candidates(cs: Seq<Colonist>, sel: Option<u32>, f: AssignRosterFilter,
    role: Option<JobPreference>, b: Option<u32>, n: int) -> nat
    decreases n,
{
    if n <= 0 {
        0
    } else {
        count_page_candidates(cs, sel, f, role, b, n - 1) + if page_candidate(cs, sel, f, role, b, n - 1) { 1nat } else { 0nat }
    }
}

proof fn lemma_count_page_candidates_bound(cs: Seq<Colonist>, sel: Option<u32>, f: AssignRosterFilter,
    role: Option<JobPreference>, b: Option<u32>, n: int)
    requires
        n >= 0,
    ensures
        count_page_candidates(cs, sel, f, role, b, n) <= n,
    decreases n,
{
    if n > 0 {
        lemma_count_page_candidates_bound(cs, sel, f, role, b, n - 1);
    }
}

/// The selected survivor is on the roster.
pub open spec fn selected_present(cs: Seq<Colonist>, sel: Option<u32>) -> bool {
    match sel {
        None => false,
        Some(id) => crate::mission_system::first_with_id(cs, id) is Some,
    }
}

/// Pages the roster needs: the other survivors that pass the filters, in
/// pages of five slots less the one the selected survivor keeps; at least one.
pub open spec fn spec_page_count(cs: Seq<Colonist>, sel: Option<u32>, f: AssignRosterFilter,
    role: Option<JobPreference>, b: Option<u32>) -> int
{
    let other = count_page_candidates(cs, sel, f, role, b, cs.len() as int);
    let page_size: int = if selected_present(cs, sel) { 4 } else { 5 };
    let pages = (other + page_size - 1) / page_size;
    if pages > 1 { pages } else { 1 }
}

/// Number of roster pages.
pub fn assign_roster_page_count(colonists: &[Colonist], selected_colonist_id: Option<u32>, active_filter: AssignRosterFilter,
    active_role_filter: Option<JobPreference>, active_building_filter: Option<u32>) -> (r: usize)
    ensures
        r == spec_page_count(colonists@, selected_colonist_id, active_filter, active_role_filter, active_building_filter),
        r >= 1,
{
    let selected_exists = match selected_colonist_id {
        Some(id) => crate::mission_system::colonist_index_by_id(colonists, id).is_some(),
        None => false,
    };
    let mut other_count: usize = 0;
    let mut i: usize = 0;
    while i < colonists.len()
        invariant
            i <= colonists@.len(),
            other_count == count_page_candidates(colonists@, selected_colonist_id, active_filter, active_role_filter,
                active_building_filter, i as int),
            other_count <= i,
        decreases colonists@.len() - i,
    {
        if Some(colonists[i].id) != selected_colonist_id
            && assign_roster_filter_matches(&colonists[i], active_filter, active_role_filter)
            && assign_building_filter_matches(&colonists[i], active_building_filter) {
            other_count = other_count + 1;
        }
        i = i + 1;
    }
    let pages: usize = if selected_exists {
        other_count / 4 + if other_count % 4 > 0 { 1 } else { 0 }
    } else {
        other_count / 5 + if other_count % 5 > 0 { 1 } else { 0 }
    };
    if pages > 1 { pages } else { 1 }
}

/// Survivor `i` belongs in the ordered roster: not the selected index and
/// passing every filter.
pub open spec fn in_roster(cs: Seq<Colonist>, sel_index: Option<usize>, f: AssignRosterFilter, role: Option<JobPreference>,
    b: Option<u32>, i: int) -> bool
{
    &&& 0 <= i < cs.len()
    &&& sel_index != Some(i as usize)
    &&& spec_filter_matches(cs[i], f, role)
    &&& spec_building_filter_matches(cs[i], b)
}

/// Roster order: by position, by mood key then id, or by strongest feeling
/// (largest first) then id; remaining ties by position.
pub open spec fn roster_before(cs: Seq<Colonist>, sort: AssignRosterSort, moods: Seq<u32>, x: int, y: int) -> bool {
    match sort {
        AssignRosterSort::Roster => x < y,
        AssignRosterSort::Mood => moods[x] < moods[y] || (moods[x] == moods[y] && (cs[x].id < cs[y].id
            || (cs[x].id == cs[y].id && x < y))),
        AssignRosterSort::Bond => {
            let px = max_abs(cs[x].relationships@);
            let py = max_abs(cs[y].relationships@);
            px > py || (px == py && (cs[x].id < cs[y].id || (cs[x].id == cs[y].id && x < y)))
        },
    }
}

/// `r` lists exactly the roster's survivors, each once, in roster order.
pub open spec fn is_sorted_roster(cs: Seq<Colonist>, sel_index: Option<usize>, f: AssignRosterFilter, sort: AssignRosterSort,
    role: Option<JobPreference>, b: Option<u32>, moods: Seq<u32>, r: Seq<usize>) -> bool
{
    &&& r.no_duplicates()
    &&& forall|k: int| 0 <= k < r.len() ==> in_roster(cs, sel_index, f, role, b, #[trigger] r[k] as int)
    &&& forall|i: int| in_roster(cs, sel_index, f, role, b, i) ==> #[trigger] r.contains(i as usize)
    &&& forall|j: int, k: int| 0 <= j < k < r.len() ==> roster_before(cs, sort, moods, #[trigger] r[j] as int, #[trigger] r[k] as int)
}

/// Mood keys cover every survivor when the roster is ordered by mood, and
/// feelings can be sized when it is ordered by bond.
pub open spec fn sort_inputs_ok(cs: Seq<Colonist>, sort: AssignRosterSort, moods: Seq<u32>) -> bool {
    &&& sort == AssignRosterSort::Mood ==> moods.len() == cs.len()
    &&& sort == AssignRosterSort::Bond ==> forall|i: int| 0 <= i < cs.len() ==> values_negatable(#[trigger] cs[i].relationships@)
}

fn before(colonists: &[Colonist], sort: AssignRosterSort, mood_keys: &[u32], scores: &Vec<i32>, x: usize, y: usize) -> (r: bool)
    requires
        x < colonists@.len(),
        y < colonists@.len(),
        sort == AssignRosterSort::Mood ==> mood_keys@.len() == colonists@.len(),
        sort == AssignRosterSort::Bond ==> scores@.len() == colonists@.len()
            && forall|i: int| 0 <= i < colonists@.len() ==> #[trigger] scores@[i] == max_abs(colonists@[i].relationships@),
    ensures
        r == roster_before(colonists@, sort, mood_keys@, x as int, y as int),
{
    match sort {
        AssignRosterSort::Roster => x < y,
        AssignRosterSort::Mood => {
            let mx = mood_keys[x];
            let my = mood_keys[y];
            mx < my || (mx == my && (colonists[x].id < colonists[y].id || (colonists[x].id == colonists[y].id && x < y)))
        },
        AssignRosterSort::Bond => {
            let px = scores[x];
            let py = scores[y];
            px > py || (px == py && (colonists[x].id < colonists[y].id || (colonists[x].id == colonists[y].id && x < y)))
        },
    }
}

/// The roster's survivors (by index) in roster order. `mood_keys` holds one
/// key per survivor, ordered as their moods are; it is read only when
/// sorting by mood.
pub fn assign_sorted_roster_indices(colonists: &[Colonist], selected_index: Option<usize>, active_filter: AssignRosterFilter,
    active_sort: AssignRosterSort, active_role_filter: Option<JobPreference>, active_building_filter: Option<u32>,
    mood_keys: &[u32]) -> (r: Vec<usize>)
    requires
        sort_inputs_ok(colonists@, active_sort, mood_keys@),
    ensures
        is_sorted_roster(colonists@, selected_index, active_filter, active_sort, active_role_filter, active_building_filter,
            mood_keys@, r@),
{
    let n = colonists.len();
    let mut scores: Vec<i32> = Vec::new();
    if active_sort == AssignRosterSort::Bond {
        let mut i: usize = 0;
        while i < n
            invariant
                n == colonists@.len(),
                i <= n,
                sort_inputs_ok(colonists@, active_sort, mood_keys@),
                active_sort == AssignRosterSort::Bond,
                scores@.len() == i,
                forall|k: int| 0 <= k < i ==> #[trigger] scores@[k] == max_abs(colonists@[k].relationships@),
            decreases n - i,
        {
            assert(values_negatable(colonists@[i as int].relationships@));
            scores.push(relationship_pressure_score(&colonists[i]));
            i = i + 1;
        }
    }
    let mut result: Vec<usize> = Vec::new();
    let mut i: usize = 0;
    while i < n
        invariant
            n == colonists@.len(),
            i <= n,
            active_sort == AssignRosterSort::Mood ==> mood_keys@.len() == colonists@.len(),
            active_sort == AssignRosterSort::Bond ==> scores@.len() == colonists@.len()
                && forall|k: int| 0 <= k < colonists@.len() ==> #[trigger] scores@[k] == max_abs(colonists@[k].relationships@),
            result@.no_duplicates(),
            forall|k: int| 0 <= k < result@.len() ==> (#[trigger] result@[k] as int) < i
                && in_roster(colonists@, selected_index, active_filter, active_role_filter, active_building_filter, result@[k] as int),
            forall|j: int| 0 <= j < i && in_roster(colonists@, selected_index, active_filter, active_role_filter,
                active_building_filter, j) ==> #[trigger] result@.contains(j as usize),
            forall|j: int, k: int| 0 <= j < k < result@.len() ==> roster_before(colonists@, active_sort, mood_keys@,
                #[trigger] result@[j] as int, #[trigger] result@[k] as int),
        decreases n - i,
    {
        if Some(i) != selected_index
            && assign_roster_filter_matches(&colonists[i], active_filter, active_role_filter)
            && assign_building_filter_matches(&colonists[i], active_building_filter) {
            let mut q: usize = 0;
            while q < result.len() && !before(colonists, active_sort, mood_keys, &scores, i, result[q])
                invariant
                    n == colonists@.len(),
                    i < n,
                    q <= result@.len(),
                    active_sort == AssignRosterSort::Mood ==> mood_keys@.len() == colonists@.len(),
                    active_sort == AssignRosterSort::Bond ==> scores@.len() == colonists@.len()
                        && forall|k: int| 0 <= k < colonists@.len() ==> #[trigger] scores@[k] == max_abs(colonists@[k].relationships@),
                    forall|k: int| 0 <= k < result@.len() ==> (#[trigger] result@[k] as int) < i,
                    forall|k: int| 0 <= k < q ==> !roster_before(colonists@, active_sort, mood_keys@, i as int, #[trigger] result@[k] as int),
                decreases result@.len() - q,
            {
                q = q + 1;
            }
            let ghost old_result = result@;
            result.insert(q, i);
            proof {
                assert(result@ == old_result.insert(q as int, i));
                assert forall|j: int, k: int| 0 <= j < k < result@.len() implies roster_before(colonists@, active_sort,
                    mood_keys@, #[trigger] result@[j] as int, #[trigger] result@[k] as int) by {
                    if k < q {
                        assert(result@[j] == old_result[j] && result@[k] == old_result[k]);
                    } else if k == q {
                        assert(result@[j] == old_result[j]);
                        assert(!roster_before(colonists@, active_sort, mood_keys@, i as int, old_result[j] as int));
                        assert((old_result[j] as int) < i);
                    } else if j == q {
                        assert(result@[k] == old_result[k - 1]);
                        if k - 1 > q {
                            assert(roster_before(colonists@, active_sort, mood_keys@, old_result[q as int] as int, old_result[k - 1] as int));
                        }
                    } else if j < q {
                        assert(result@[j] == old_result[j] && result@[k] == old_result[k - 1]);
                    } else {
                        assert(result@[j] == old_result[j - 1] && result@[k] == old_result[k - 1]);
                    }
                }
                assert forall|j: int| 0 <= j < i + 1 && in_roster(colonists@, selected_index, active_filter,
                    active_role_filter, active_building_filter, j) implies #[trigger] result@.contains(j as usize) by {
                    if j < i {
                        assert(old_result.contains(j as usize));
                        let k = choose|k: int| 0 <= k < old_result.len() && old_result[k] == j as usize;
                        if k < q {
                            assert(result@[k] == j as usize);
                        } else {
                            assert(result@[k + 1] == j as usize);
                        }
                    } else {
                        assert(result@[q as int] == i);
                    }
                }
                assert forall|a: int, c: int| 0 <= a < result@.len() && 0 <= c < result@.len() && a != c
                    implies result@[a] != result@[c] by {
                    if a != q && c != q {
                        let a0 = if a < q { a } else { a - 1 };
                        let c0 = if c < q { c } else { c - 1 };
                        assert(result@[a] == old_result[a0] && result@[c] == old_result[c0]);
                    } else if a == q {
                        let c0 = if c < q { c } else { c - 1 };
                        assert(result@[c] == old_result[c0]);
                    } else {
                        let a0 = if a < q { a } else { a - 1 };
                        assert(result@[a] == old_result[a0]);
                    }
                }
            }
        }
        i = i + 1;
    }
    result
}


/// At most `len` items of `s` from `start` on.
pub open spec fn window(s: Seq<usize>, start: int, len: int) -> Seq<usize> {
    let a = if start < s.len() { start } else { s.len() as int };
    let b = if a + len < s.len() { a + len } else { s.len() as int };
    s.subrange(a, b)
}

/// The selected survivor's index, then one page of the ordered roster (the
/// page clamped to the last one), filling the five slots.
pub open spec fn visible_from(cs: Seq<Colonist>, sel: Option<u32>, page: int, f: AssignRosterFilter,
    role: Option<JobPreference>, b: Option<u32>, roster: Seq<usize>, r: Seq<usize>) -> bool
{
    let sel_index: Option<int> = match sel {
        None => None,
        Some(id) => crate::mission_system::first_with_id(cs, id),
    };
    let head: Seq<usize> = match sel_index {
        None => Seq::empty(),
        Some(i) => seq![i as usize],
    };
    let open_slots = 5 - head.len();
    let last_page = spec_page_count(cs, sel, f, role, b) - 1;
    let p = if page < last_page { page } else { last_page };
    r == head + window(roster, p * open_slots, open_slots)
}

/// The index of the selected survivor, if present.
pub open spec fn selected_index_of(cs: Seq<Colonist>, sel: Option<u32>) -> Option<usize> {
    match sel {
        None => None,
        Some(id) => match crate::mission_system::first_with_id(cs, id) {
            None => None,
            Some(i) => Some(i as usize),
        },
    }
}

/// The assignment panel shows at most five survivors, each once: the
/// selected survivor first (when on the roster), then only survivors that
/// pass the filters.
pub proof fn law_visible_roster(cs: Seq<Colonist>, sel: Option<u32>, page: int, f: AssignRosterFilter,
    sort: AssignRosterSort, role: Option<JobPreference>, b: Option<u32>, moods: Seq<u32>, roster: Seq<usize>, r: Seq<usize>)
    requires
        page >= 0,
        is_sorted_roster(cs, selected_index_of(cs, sel), f, sort, role, b, moods, roster),
        visible_from(cs, sel, page, f, role, b, roster, r),
    ensures
        r.len() <= 5,
        r.no_duplicates(),
        forall|k: int| 0 <= k < r.len() ==> #[trigger] r[k] < cs.len(),
        forall|k: int| 0 <= k < r.len() ==> selected_index_of(cs, sel) == Some(#[trigger] r[k])
            || in_roster(cs, selected_index_of(cs, sel), f, role, b, r[k] as int),
        selected_index_of(cs, sel) matches Some(i) ==> r.len() > 0 && r[0] == i,
{
    let si = selected_index_of(cs, sel);
    match sel {
        Some(id) => crate::mission_system::lemma_first_with_id_found(cs, id),
        None => {},
    }
    let head: Seq<usize> = match si {
        None => Seq::empty(),
        Some(i) => seq![i],
    };
    let open_slots = 5 - head.len();
    let last_page = spec_page_count(cs, sel, f, role, b) - 1;
    let p = if page < last_page { page } else { last_page };
    assert(p * open_slots >= 0) by (nonlinear_arith)
        requires
            p >= 0,
            open_slots >= 0,
    ;
    let w = window(roster, p * open_slots, open_slots);
    assert(r == head + w);
    let a = if p * open_slots < roster.len() { p * open_slots } else { roster.len() as int };
    assert forall|k: int| 0 <= k < w.len() implies #[trigger] w[k] == roster[a + k] && in_roster(cs, si, f, role, b, w[k] as int) by {
        assert(in_roster(cs, si, f, role, b, roster[a + k] as int));
    }
    assert forall|k: int| 0 <= k < r.len() implies #[trigger] r[k] < cs.len() && (si == Some(r[k])
        || in_roster(cs, si, f, role, b, r[k] as int)) by {
        if k >= head.len() {
            assert(r[k] == w[k - head.len()]);
        }
    }
    assert forall|x: int, y: int| 0 <= x < r.len() && 0 <= y < r.len() && x != y implies r[x] != r[y] by {
        if x >= head.len() && y >= head.len() {
            assert(r[x] == roster[a + x - head.len()]);
            assert(r[y] == roster[a + y - head.len()]);
        } else if x >= head.len() {
            assert(in_roster(cs, si, f, role, b, r[x] as int));
        } else if y >= head.len() {
            assert(in_roster(cs, si, f, role, b, r[y] as int));
        }
    }
}

/// The survivors the assignment panel shows, by index.
pub fn assign_visible_colonist_indices(colonists: &[Colonist], selected_colonist_id: Option<u32>, page: usize,
    active_filter: AssignRosterFilter, active_sort: AssignRosterSort, active_role_filter: Option<JobPreference>,
    active_building_filter: Option<u32>, mood_keys: &[u32]) -> (r: Vec<usize>)
    requires
        sort_inputs_ok(colonists@, active_sort, mood_keys@),
        colonists@.len() <= u32::MAX,
    ensures
        exists|roster: Seq<usize>|
            #[trigger] is_sorted_roster(colonists@, selected_index_of(colonists@, selected_colonist_id), active_filter,
                active_sort, active_role_filter, active_building_filter, mood_keys@, roster)
            && visible_from(colonists@, selected_colonist_id, page as int, active_filter, active_role_filter,
                active_building_filter, roster, r@),
{
    let mut indices: Vec<usize> = Vec::new();
    let selected_index: Option<usize> = match selected_colonist_id {
        Some(id) => crate::mission_system::colonist_index_by_id(colonists, id),
        None => None,
    };
    match selected_index {
        Some(index) => indices.push(index),
        None => {},
    }
    let open_slots: usize = ASSIGN_ROSTER_SLOT_COUNT - indices.len();
    let page_count = assign_roster_page_count(colonists, selected_colonist_id, active_filter, active_role_filter,
        active_building_filter);
    proof {
        lemma_count_page_candidates_bound(colonists@, selected_colonist_id, active_filter, active_role_filter,
            active_building_filter, colonists@.len() as int);
    }
    let page = if page < page_count - 1 { page } else { page_count - 1 };
    let roster = assign_sorted_roster_indices(colonists, selected_index, active_filter, active_sort, active_role_filter,
        active_building_filter, mood_keys);
    let ghost head = indices@;
    assert(page <= colonists@.len());
    assert((page as u64) * (open_slots as u64) <= 0xffff_ffffu64 * 5) by (nonlinear_arith)
        requires
            page <= 0xffff_ffffu64,
            open_slots <= 5,
    ;
    let first: u64 = page as u64 * open_slots as u64;
    let start: usize = if first < roster.len() as u64 { first as usize } else { roster.len() };
    let end: usize = if roster.len() - start > open_slots { start + open_slots } else { roster.len() };
    let mut k: usize = start;
    while k < end
        invariant
            start <= k <= end <= roster@.len(),
            indices@ == head + roster@.subrange(start as int, k as int),
        decreases end - k,
    {
        indices.push(roster[k]);
        assert(roster@.subrange(start as int, k + 1) == roster@.subrange(start as int, k as int).push(roster@[k as int]));
        k = k + 1;
    }
    proof {
        assert(selected_index_of(colonists@, selected_colonist_id) == selected_index);
        assert(is_sorted_roster(colonists@, selected_index_of(colonists@, selected_colonist_id), active_filter,
            active_sort, active_role_filter, active_building_filter, mood_keys@, roster@));
        assert(visible_from(colonists@, selected_colonist_id, page as int, active_filter, active_role_filter,
            active_building_filter, roster@, indices@));
    }
    indices
}

/// A survivor with a home pin copied to habitat `h`.
pub open spec fn with_home(c: Colonist, h: u32) -> Colonist {
    Colonist { assigned_habitat: Some(h), ..c }
}

/// Colonists, pins counted toward the habitat, and names pinned, after
/// copying a home pin over the visible indices `vis` in order, stopping once
/// the habitat is full.
pub open spec fn home_pin_fold(cs: Seq<Colonist>, sel: u32, h: u32, vis: Seq<usize>, cap: u32, count: int)
    -> (Seq<Colonist>, int, Seq<Seq<char>>)
    decreases vis.len(),
{
    if vis.len() == 0 {
        (cs, count, Seq::empty())
    } else {
        let (cs1, c1, names1) = home_pin_fold(cs, sel, h, vis.drop_last(), cap, count);
        let idx = vis.last() as int;
        if c1 >= cap || idx >= cs1.len() || cs1[idx].id == sel || cs1[idx].assigned_habitat == Some(h) {
            (cs1, c1, names1)
        } else {
            (cs1.update(idx, with_home(cs1[idx], h)), c1 + 1, names1.push(cs1[idx].name@))
        }
    }
}

/// How many colonists have a home pin to `h`.
pub open spec fn count_home(cs: Seq<Colonist>, h: u32) -> nat
    decreases cs.len(),
{
    if cs.len() == 0 {
        0
    } else {
        count_home(cs.drop_last(), h) + if cs.last().assigned_habitat == Some(h) { 1nat } else { 0nat }
    }
}

proof fn lemma_count_home_bound(cs: Seq<Colonist>, h: u32)
    ensures
        count_home(cs, h) <= cs.len(),
    decreases cs.len(),
{
    if cs.len() > 0 {
        lemma_count_home_bound(cs.drop_last(), h);
    }
}

proof fn lemma_count_home_update(cs: Seq<Colonist>, h: u32, i: int)
    requires
        0 <= i < cs.len(),
        cs[i].assigned_habitat != Some(h),
    ensures
        count_home(cs.update(i, with_home(cs[i], h)), h) == count_home(cs, h) + 1,
    decreases cs.len(),
{
    let u = cs.update(i, with_home(cs[i], h));
    if i == cs.len() - 1 {
        assert(u.drop_last() == cs.drop_last());
    } else {
        assert(u.drop_last() == cs.drop_last().update(i, with_home(cs[i], h)));
        lemma_count_home_update(cs.drop_last(), h, i);
    }
}

/// The fold adds one pin per name and never fills the habitat past its
/// capacity (a habitat already over capacity gains no one).
proof fn lemma_home_pin_fold(cs: Seq<Colonist>, sel: u32, h: u32, vis: Seq<usize>, cap: u32, count: int)
    requires
        count == count_home(cs, h),
    ensures
        ({
            let (cs1, c1, names1) = home_pin_fold(cs, sel, h, vis, cap, count);
            &&& cs1.len() == cs.len()
            &&& c1 == count + names1.len()
            &&& c1 == count_home(cs1, h)
            &&& c1 <= (if count > cap { count } else { cap as int })
        }),
    decreases vis.len(),
{
    if vis.len() > 0 {
        lemma_home_pin_fold(cs, sel, h, vis.drop_last(), cap, count);
        let (cs1, c1, names1) = home_pin_fold(cs, sel, h, vis.drop_last(), cap, count);
        let idx = vis.last() as int;
        if !(c1 >= cap || idx >= cs1.len() || cs1[idx].id == sel || cs1[idx].assigned_habitat == Some(h)) {
            lemma_count_home_update(cs1, h, idx);
        }
    }
}

/// Copying the selected survivor's home pin to the visible survivors never
/// puts more people in the habitat than it holds (or than it already had).
pub proof fn law_batch_home_pin_respects_capacity(cs: Seq<Colonist>, sel: u32, h: u32, vis: Seq<usize>, cap: u32)
    ensures
        ({
            let (cs1, c1, names1) = home_pin_fold(cs, sel, h, vis, cap, count_home(cs, h) as int);
            &&& count_home(cs1, h) == count_home(cs, h) + names1.len()
            &&& count_home(cs1, h) <= (if count_home(cs, h) > cap { count_home(cs, h) as int } else { cap as int })
        }),
{
    lemma_home_pin_fold(cs, sel, h, vis, cap, count_home(cs, h) as int);
}

/// Copies a home pin to the visible survivors in order, skipping the
/// selected survivor, indices past the end, and those already pinned there,
/// until the habitat is full; returns the names pinned.
pub fn apply_batch_home_pin(colonists: &mut [Colonist], selected_id: u32, habitat_id: u32, visible_indices: &[usize],
    capacity: u32) -> (assigned: Vec<String>)
    requires
        old(colonists)@.len() <= u32::MAX,
    ensures
        ({
            let (cs1, c1, names1) = home_pin_fold(old(colonists)@, selected_id, habitat_id, visible_indices@, capacity,
                count_home(old(colonists)@, habitat_id) as int);
            &&& final(colonists)@ == cs1
            &&& assigned@.map_values(|n: String| n@) == names1
        }),
{
    let ghost cs0 = colonists@;
    let mut assigned_count: u32 = 0;
    let mut i: usize = 0;
    while i < colonists.len()
        invariant
            colonists@ == cs0,
            cs0.len() <= u32::MAX,
            i <= cs0.len(),
            assigned_count == count_home(cs0.take(i as int), habitat_id),
            assigned_count <= i,
        decreases cs0.len() - i,
    {
        assert(cs0.take(i + 1).drop_last() == cs0.take(i as int));
        if colonists[i].assigned_habitat == Some(habitat_id) {
            assigned_count = assigned_count + 1;
        }
        i = i + 1;
    }
    assert(cs0.take(cs0.len() as int) == cs0);
    let ghost count0 = assigned_count as int;
    let mut assigned: Vec<String> = Vec::new();
    let mut k: usize = 0;
    while k < visible_indices.len() && assigned_count < capacity
        invariant
            k <= visible_indices@.len(),
            count0 == count_home(cs0, habitat_id),
            cs0.len() <= u32::MAX,
            ({
                let (cs1, c1, names1) = home_pin_fold(cs0, selected_id, habitat_id, visible_indices@.take(k as int), capacity, count0);
                &&& colonists@ == cs1
                &&& assigned_count == c1
                &&& assigned@.map_values(|n: String| n@) == names1
            }),
        decreases visible_indices@.len() - k,
    {
        proof {
            lemma_home_pin_fold(cs0, selected_id, habitat_id, visible_indices@.take(k as int), capacity, count0);
            lemma_count_home_bound(colonists@, habitat_id);
        }
        assert(visible_indices@.take(k + 1).drop_last() == visible_indices@.take(k as int));
        assert(visible_indices@.take(k + 1).last() == visible_indices@[k as int]);
        let index = visible_indices[k];
        if index < colonists.len() {
            if colonists[index].id != selected_id && colonists[index].assigned_habitat != Some(habitat_id) {
                colonists[index].assigned_habitat = Some(habitat_id);
                assigned_count = assigned_count + 1;
                let name = colonists[index].name.clone();
                assigned.push(name);
                assert(assigned@.map_values(|n: String| n@) == home_pin_fold(cs0, selected_id, habitat_id,
                    visible_indices@.take(k + 1), capacity, count0).2);
            }
        }
        k = k + 1;
    }
    proof {
        lemma_home_pin_rest(cs0, selected_id, habitat_id, visible_indices@, capacity, count0, k as int);
    }
    assigned
}

/// Once the habitat is full, later visible indices change nothing.
proof fn lemma_home_pin_rest(cs: Seq<Colonist>, sel: u32, h: u32, vis: Seq<usize>, cap: u32, count: int, k: int)
    requires
        0 <= k <= vis.len(),
        k < vis.len() ==> home_pin_fold(cs, sel, h, vis.take(k), cap, count).1 >= cap,
    ensures
        home_pin_fold(cs, sel, h, vis, cap, count) == home_pin_fold(cs, sel, h, vis.take(k), cap, count),
    decreases vis.len() - k,
{
    if k < vis.len() {
        assert(vis.take(k + 1).drop_last() == vis.take(k));
        lemma_home_pin_rest(cs, sel, h, vis, cap, count, k + 1);
    } else {
        assert(vis.take(k) == vis);
    }
}


/// A survivor with a work pin copied to workplace `w`; one working or
/// walking goes idle so the new pin takes effect.
pub open spec fn with_work(c: Colonist, w: u32) -> Colonist {
    if c.state is Working || c.state is Moving {
        Colonist { assigned_workplace: Some(w), state: ColonistState::Idle, activity_location: ActivityLocation::Unset, ..c }
    } else {
        Colonist { assigned_workplace: Some(w), ..c }
    }
}

/// Colonists and names pinned after copying a work pin over `targets` in
/// order, to survivors whose role works in that kind of building.
pub open spec fn work_pin_fold(cs: Seq<Colonist>, sel: u32, w: u32, t: BuildingType, targets: Seq<usize>)
    -> (Seq<Colonist>, Seq<Seq<char>>)
    decreases targets.len(),
{
    if targets.len() == 0 {
        (cs, Seq::empty())
    } else {
        let (cs1, names1) = work_pin_fold(cs, sel, w, t, targets.drop_last());
        let idx = targets.last() as int;
        if idx >= cs1.len() || cs1[idx].id == sel || cs1[idx].assigned_workplace == Some(w)
            || spec_work_building(cs1[idx].job_preference) != t {
            (cs1, names1)
        } else {
            (cs1.update(idx, with_work(cs1[idx], w)), names1.push(cs1[idx].name@))
        }
    }
}

proof fn lemma_work_pin_fold_len(cs: Seq<Colonist>, sel: u32, w: u32, t: BuildingType, targets: Seq<usize>)
    ensures
        work_pin_fold(cs, sel, w, t, targets).0.len() == cs.len(),
    decreases targets.len(),
{
    if targets.len() > 0 {
        lemma_work_pin_fold_len(cs, sel, w, t, targets.drop_last());
    }
}

/// Copying a work pin only ever changes survivors it was aimed at, whose
/// role works in that kind of building, other than the selected survivor;
/// each of them ends up pinned to the workplace.
pub proof fn law_batch_work_pin_only_compatible(cs: Seq<Colonist>, sel: u32, w: u32, t: BuildingType, targets: Seq<usize>)
    ensures
        ({
            let cs1 = work_pin_fold(cs, sel, w, t, targets).0;
            &&& cs1.len() == cs.len()
            &&& forall|k: int| 0 <= k < cs.len() && #[trigger] cs1[k] != cs[k] ==> {
                &&& targets.contains(k as usize)
                &&& cs[k].id != sel
                &&& spec_work_building(cs[k].job_preference) == t
                &&& cs1[k].assigned_workplace == Some(w)
                &&& cs1[k].job_preference == cs[k].job_preference
                &&& cs1[k].id == cs[k].id
            }
        }),
    decreases targets.len(),
{
    lemma_work_pin_fold_len(cs, sel, w, t, targets);
    if targets.len() > 0 {
        let prev = targets.drop_last();
        law_batch_work_pin_only_compatible(cs, sel, w, t, prev);
        lemma_work_pin_fold_len(cs, sel, w, t, prev);
        let cs_mid = work_pin_fold(cs, sel, w, t, prev).0;
        let cs1 = work_pin_fold(cs, sel, w, t, targets).0;
        let idx = targets.last() as int;
        assert forall|k: int| 0 <= k < cs.len() && #[trigger] cs1[k] != cs[k] implies {
            &&& targets.contains(k as usize)
            &&& cs[k].id != sel
            &&& spec_work_building(cs[k].job_preference) == t
            &&& cs1[k].assigned_workplace == Some(w)
            &&& cs1[k].job_preference == cs[k].job_preference
            &&& cs1[k].id == cs[k].id
        } by {
            if cs_mid[k] != cs[k] {
                assert(prev.contains(k as usize));
                let j = choose|j: int| 0 <= j < prev.len() && prev[j] == k as usize;
                assert(targets[j] == prev[j]);
            } else {
                assert(k == idx);
                assert(targets[targets.len() - 1] == k as usize);
            }
        }
    }
}

/// Copies a work pin to the target survivors in order, skipping the
/// selected survivor, indices past the end, those already pinned there, and
/// roles that do not work in that kind of building; returns the names pinned.
pub fn apply_batch_work_pin(colonists: &mut [Colonist], selected_id: u32, workplace_id: u32, building_type: BuildingType,
    target_indices: &[usize]) -> (assigned: Vec<String>)
    ensures
        ({
            let (cs1, names1) = work_pin_fold(old(colonists)@, selected_id, workplace_id, building_type, target_indices@);
            &&& final(colonists)@ == cs1
            &&& assigned@.map_values(|n: String| n@) == names1
        }),
{
    let ghost cs0 = colonists@;
    let mut assigned: Vec<String> = Vec::new();
    let mut k: usize = 0;
    while k < target_indices.len()
        invariant
            k <= target_indices@.len(),
            ({
                let (cs1, names1) = work_pin_fold(cs0, selected_id, workplace_id, building_type, target_indices@.take(k as int));
                &&& colonists@ == cs1
                &&& assigned@.map_values(|n: String| n@) == names1
            }),
        decreases target_indices@.len() - k,
    {
        proof {
            lemma_work_pin_fold_len(cs0, selected_id, workplace_id, building_type, target_indices@.take(k as int));
        }
        assert(target_indices@.take(k + 1).drop_last() == target_indices@.take(k as int));
        assert(target_indices@.take(k + 1).last() == target_indices@[k as int]);
        let index = target_indices[k];
        if index < colonists.len() {
            if colonists[index].id != selected_id && colonists[index].assigned_workplace != Some(workplace_id)
                && colonists[index].job_preference.work_building_type() == building_type {
                colonists[index].assigned_workplace = Some(workplace_id);
                match colonists[index].state {
                    ColonistState::Working | ColonistState::Moving { .. } => {
                        colonists[index].state = ColonistState::Idle;
                        colonists[index].activity_location = ActivityLocation::Unset;
                    },
                    _ => {},
                }
                let name = colonists[index].name.clone();
                assigned.push(name);
                assert(assigned@.map_values(|n: String| n@) == work_pin_fold(cs0, selected_id, workplace_id,
                    building_type, target_indices@.take(k + 1)).1);
            }
        }
        k = k + 1;
    }
    assert(target_indices@.take(target_indices@.len() as int) == target_indices@);
    assigned
}

pub open spec fn spec_batch_log_detail(source: Seq<char>, prefix: Seq<char>, building_id: u32,
    scope: BatchAssignmentScope, names: Seq<Seq<char>>) -> Seq<char>
{
    if names.len() == 0 {
        source + " had no compatible survivors in "@ + spec_scope_label(scope) + " to copy "@ + prefix + "#"@
            + decimal(building_id as nat) + " to."@
    } else {
        "Copied "@ + prefix + "#"@ + decimal(building_id as nat) + " from "@ + source + " to "@
            + truncated(joined(names), 45) + " in "@ + spec_scope_label(scope) + "."@
    }
}

/// The log title and detail for a batch copy of a pin.
pub fn batch_assignment_log(title: &str, source_name: &str, pin_prefix: &str, building_id: u32,
    scope: BatchAssignmentScope, assigned: Vec<String>) -> (r: (String, String))
    ensures
        r.0@ == title@,
        r.1@ == spec_batch_log_detail(source_name@, pin_prefix@, building_id, scope, assigned@.map_values(|n: String| n@)),
{
    let mut detail = String::new();
    if assigned.len() == 0 {
        detail.append(source_name);
        detail.append(" had no compatible survivors in ");
        detail.append(scope.label());
        detail.append(" to copy ");
        detail.append(pin_prefix);
        detail.append("#");
        push_decimal(&mut detail, building_id as u64);
        detail.append(" to.");
    } else {
        let names = join_names(&assigned);
        let shown = truncate_text(names.as_str(), 45);
        detail.append("Copied ");
        detail.append(pin_prefix);
        detail.append("#");
        push_decimal(&mut detail, building_id as u64);
        detail.append(" from ");
        detail.append(source_name);
        detail.append(" to ");
        detail.append(shown.as_str());
        detail.append(" in ");
        detail.append(scope.label());
        detail.append(".");
    }
    (String::from_str(title), detail)
}

} // verus!
