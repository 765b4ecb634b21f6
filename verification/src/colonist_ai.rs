//! Colonist decisions for one simulation step: which building an activity
//! needs, which building and entrance to head for, where to sleep, and how
//! to step around other colonists.
use crate::building::BuildingType;
use crate::colonist::{
    rel, relationships_bounded, spec_work_building, ActivityLocation, ActivityType, Colonist, ColonistState,
    JobPreference,
};
use crate::event_log::LogCategory;
use crate::grid::{spec_walkable, Grid};
use crate::relations::abs;
use crate::types::Position;
use std::collections::HashMap;
use vstd::prelude::*;
use vstd::string::StringExecFns;

verus! {

/// A placed building as the colonists see it: id, kind, corner, and size.
pub type BuildingSnapshot = (u32, BuildingType, Position, (u32, u32));

/// Where a colonist is doing its activity, by colonist id.
pub type SocialLocation = (u32, ActivityLocation);

/// A log entry waiting to be written: category, title, detail.
pub type PendingLog = (LogCategory, String, String);

/// A building chosen as a destination, with the entrance cell to walk to.
#[derive(Clone, Copy, Debug, PartialEq, Eq, Structural)]
pub struct BuildingTarget {
    pub building_id: u32,
    pub building_type: BuildingType,
    pub entrance: Position,
}

/// Ticks between two refusal (or rough-night) log entries of a colonist.
pub const REFUSAL_LOG_COOLDOWN_TICKS: u64 = 60;

/// Ticks between two social-strain log entries of a colonist.
pub const SOCIAL_STRAIN_LOG_COOLDOWN_TICKS: u64 = 120;

pub open spec fn spec_activity_building(a: ActivityType, j: JobPreference) -> Option<BuildingType> {
    match a {
        ActivityType::Sleep => Some(BuildingType::Habitat),
        ActivityType::Work => Some(spec_work_building(j)),
        ActivityType::Eat => Some(BuildingType::MessHall),
        ActivityType::Relax => None,
    }
}

/// The kind of building an activity takes place in (relaxing needs none).
pub fn building_type_for_activity(activity: ActivityType, job_preference: JobPreference) -> (r: Option<BuildingType>)
    ensures
        r == spec_activity_building(activity, job_preference),
{
    match activity {
        ActivityType::Sleep => Some(BuildingType::Habitat),
        ActivityType::Work => Some(job_preference.work_building_type()),
        ActivityType::Eat => Some(BuildingType::MessHall),
        ActivityType::Relax => None,
    }
}

/// Some building of the list has this id and kind.
pub open spec fn spec_building_matches(bs: Seq<BuildingSnapshot>, id: u32, t: BuildingType) -> bool {
    exists|k: int| 0 <= k < bs.len() && #[trigger] bs[k].0 == id && bs[k].1 == t
}

pub fn building_matches_type(buildings: &[BuildingSnapshot], building_id: u32, building_type: BuildingType) -> (r: bool)
    ensures
        r == spec_building_matches(buildings@, building_id, building_type),
{
    let mut i: usize = 0;
    while i < buildings.len()
        invariant
            i <= buildings@.len(),
            forall|k: int| 0 <= k < i ==> !(#[trigger] buildings@[k].0 == building_id && buildings@[k].1 == building_type),
        decreases buildings@.len() - i,
    {
        if buildings[i].0 == building_id && buildings[i].1 == building_type {
            return true;
        }
        i = i + 1;
    }
    false
}

/// The pinned building an activity should use, if the pin still names a
/// building of the right kind.
pub open spec fn spec_specific_target(c: Colonist, a: ActivityType, t: BuildingType, bs: Seq<BuildingSnapshot>) -> Option<u32> {
    match a {
        ActivityType::Sleep => match c.assigned_habitat {
            Some(id) => if spec_building_matches(bs, id, BuildingType::Habitat) { Some(id) } else { None },
            None => None,
        },
        ActivityType::Work => match c.assigned_workplace {
            Some(id) => if spec_building_matches(bs, id, t) { Some(id) } else { None },
            None => None,
        },
        _ => None,
    }
}

pub fn specific_target_for_activity(colonist: &Colonist, activity: ActivityType, building_type: BuildingType,
    buildings: &[BuildingSnapshot]) -> (r: Option<u32>)
    ensures
        r == spec_specific_target(*colonist, activity, building_type, buildings@),
{
    match activity {
        ActivityType::Sleep => match colonist.assigned_habitat {
            Some(id) => if building_matches_type(buildings, id, BuildingType::Habitat) { Some(id) } else { None },
            None => None,
        },
        ActivityType::Work => match colonist.assigned_workplace {
            Some(id) => if building_matches_type(buildings, id, building_type) { Some(id) } else { None },
            None => None,
        },
        _ => None,
    }
}

pub open spec fn spec_activity_state(a: ActivityType) -> ColonistState {
    match a {
        ActivityType::Sleep => ColonistState::Sleeping,
        ActivityType::Work => ColonistState::Working,
        ActivityType::Eat => ColonistState::Eating,
        ActivityType::Relax => ColonistState::Idle,
    }
}

/// The state a colonist is in while doing an activity.
pub fn activity_to_state(activity: ActivityType) -> (r: ColonistState)
    ensures
        r == spec_activity_state(activity),
{
    match activity {
        ActivityType::Sleep => ColonistState::Sleeping,
        ActivityType::Work => ColonistState::Working,
        ActivityType::Eat => ColonistState::Eating,
        ActivityType::Relax => ColonistState::Idle,
    }
}

pub open spec fn at_building(c: Colonist, a: ActivityType, id: u32, t: BuildingType) -> Colonist {
    Colonist {
        current_activity: a,
        activity_location: ActivityLocation::Building { building_id: id, building_type: t },
        state: spec_activity_state(a),
        ..c
    }
}

pub open spec fn moving_to(c: Colonist, a: ActivityType, target: Position) -> Colonist {
    Colonist { current_activity: a, activity_location: ActivityLocation::Unset, state: ColonistState::Moving { target }, ..c }
}

pub open spec fn idled(c: Colonist) -> Colonist {
    Colonist { current_activity: ActivityType::Relax, activity_location: ActivityLocation::Unset, state: ColonistState::Idle, ..c }
}

/// Starts an activity inside a building.
pub fn set_activity_at_building(colonist: &mut Colonist, activity: ActivityType, building_id: u32, building_type: BuildingType)
    ensures
        *final(colonist) == at_building(*old(colonist), activity, building_id, building_type),
{
    colonist.current_activity = activity;
    colonist.activity_location = ActivityLocation::Building { building_id, building_type };
    colonist.state = activity_to_state(activity);
}

/// Heads for a cell to do an activity there.
pub fn set_moving_to_activity(colonist: &mut Colonist, activity: ActivityType, target: Position)
    ensures
        *final(colonist) == moving_to(*old(colonist), activity, target),
{
    colonist.current_activity = activity;
    colonist.activity_location = ActivityLocation::Unset;
    colonist.state = ColonistState::Moving { target };
}

/// Stops and relaxes.
pub fn set_idle(colonist: &mut Colonist)
    ensures
        *final(colonist) == idled(*old(colonist)),
{
    colonist.current_activity = ActivityType::Relax;
    colonist.activity_location = ActivityLocation::Unset;
    colonist.state = ColonistState::Idle;
}

/// Coordinates small enough that distances and footprint edges stay in
/// range.
pub open spec fn small_pos(p: Position) -> bool {
    -0x1000_0000 <= p.x <= 0x1000_0000 && -0x1000_0000 <= p.y <= 0x1000_0000
}

/// `pos` is on the ring of cells just around a footprint.
pub open spec fn spec_adjacent_to(pos: Position, bpos: Position, w: u32, h: u32) -> bool {
    let on_perimeter = bpos.x - 1 <= pos.x <= bpos.x + w && bpos.y - 1 <= pos.y <= bpos.y + h;
    let inside = bpos.x <= pos.x < bpos.x + w && bpos.y <= pos.y < bpos.y + h;
    on_perimeter && !inside
}

pub fn is_position_adjacent_to_building(pos: Position, building_pos: Position, width: u32, height: u32) -> (r: bool)
    ensures
        r == spec_adjacent_to(pos, building_pos, width, height),
{
    let min_x: i64 = building_pos.x as i64 - 1;
    let max_x: i64 = building_pos.x as i64 + width as i64;
    let min_y: i64 = building_pos.y as i64 - 1;
    let max_y: i64 = building_pos.y as i64 + height as i64;
    let x = pos.x as i64;
    let y = pos.y as i64;
    let on_perimeter = x >= min_x && x <= max_x && y >= min_y && y <= max_y;
    let inside = x >= building_pos.x as i64 && x < max_x && y >= building_pos.y as i64 && y < max_y;
    on_perimeter && !inside
}

/// The building of kind `t` (and the pinned id, if any) a colonist at `pos`
/// stands next to: the first such in the list.
pub open spec fn spec_adjacent_building(pos: Position, t: BuildingType, bs: Seq<BuildingSnapshot>, specific: Option<u32>) -> Option<int>
    decreases bs.len(),
{
    if bs.len() == 0 {
        None
    } else {
        match spec_adjacent_building(pos, t, bs.drop_last(), specific) {
            Some(k) => Some(k),
            None => {
                let b = bs.last();
                if b.1 == t && (specific matches Some(id) ==> b.0 == id) && spec_adjacent_to(pos, b.2, b.3.0, b.3.1) {
                    Some(bs.len() - 1)
                } else {
                    None
                }
            },
        }
    }
}

proof fn lemma_adjacent_building_prefix(pos: Position, t: BuildingType, bs: Seq<BuildingSnapshot>, specific: Option<u32>, n: int)
    requires
        0 <= n <= bs.len(),
        spec_adjacent_building(pos, t, bs.take(n), specific) is Some,
    ensures
        spec_adjacent_building(pos, t, bs, specific) == spec_adjacent_building(pos, t, bs.take(n), specific),
    decreases bs.len() - n,
{
    if n < bs.len() {
        assert(bs.take(n + 1).drop_last() == bs.take(n));
        lemma_adjacent_building_prefix(pos, t, bs, specific, n + 1);
    } else {
        assert(bs.take(n) == bs);
    }
}

pub fn find_adjacent_building(pos: Position, building_type: BuildingType, buildings: &[BuildingSnapshot],
    specific_target: Option<u32>) -> (r: Option<(u32, BuildingType)>)
    ensures
        match spec_adjacent_building(pos, building_type, buildings@, specific_target) {
            Some(k) => 0 <= k < buildings@.len() && r == Some((buildings@[k].0, buildings@[k].1)),
            None => r is None,
        },
{
    let mut i: usize = 0;
    while i < buildings.len()
        invariant
            i <= buildings@.len(),
            spec_adjacent_building(pos, building_type, buildings@.take(i as int), specific_target) is None,
        decreases buildings@.len() - i,
    {
        assert(buildings@.take(i + 1).drop_last() == buildings@.take(i as int));
        assert(buildings@.take(i + 1).last() == buildings@[i as int]);
        let (id, bt, bpos, size) = buildings[i];
        let specific_ok = match specific_target {
            Some(target_id) => id == target_id,
            None => true,
        };
        if bt == building_type && specific_ok && is_position_adjacent_to_building(pos, bpos, size.0, size.1) {
            proof {
                lemma_adjacent_building_prefix(pos, building_type, buildings@, specific_target, i + 1);
            }
            return Some((id, bt));
        }
        i = i + 1;
    }
    assert(buildings@.take(buildings@.len() as int) == buildings@);
    None
}

/// Whether a colonist at `pos` stands next to a building of kind `t`.
pub fn is_adjacent_to_building(pos: Position, building_type: BuildingType, buildings: &[BuildingSnapshot],
    specific_target: Option<u32>) -> (r: bool)
    ensures
        r == spec_adjacent_building(pos, building_type, buildings@, specific_target) is Some,
{
    find_adjacent_building(pos, building_type, buildings, specific_target).is_some()
}

/// How colonist `c` feels about another colonist at this building: the
/// recorded relationship plus 80 for a paired partner or minus 80 for an
/// avoided one.
pub open spec fn contact_value(c: Colonist, other: u32) -> int {
    rel(c, other) + if c.preferred_partner_id == Some(other) {
        80
    } else if c.avoided_partner_id == Some(other) {
        -80
    } else {
        0
    }
}

/// The sum of `c`'s feelings toward the other colonists (not `c` itself)
/// whose activity is in the building.
pub open spec fn social_score(c: Colonist, building_id: u32, locs: Seq<SocialLocation>) -> int
    decreases locs.len(),
{
    if locs.len() == 0 {
        0
    } else {
        let (other, loc) = locs.last();
        social_score(c, building_id, locs.drop_last()) + if other != c.id && (loc matches ActivityLocation::Building { building_id: b, .. } && b == building_id) {
            contact_value(c, other)
        } else {
            0
        }
    }
}

proof fn lemma_social_score_bound(c: Colonist, building_id: u32, locs: Seq<SocialLocation>)
    requires
        relationships_bounded(c),
    ensures
        -130 * locs.len() <= social_score(c, building_id, locs) <= 130 * locs.len(),
    decreases locs.len(),
{
    if locs.len() > 0 {
        lemma_social_score_bound(c, building_id, locs.drop_last());
    }
}

/// How welcome a colonist would feel at a building, from who is there.
pub fn social_score_for_building(colonist: &Colonist, building_id: u32, social_locations: &[SocialLocation]) -> (r: i32)
    requires
        relationships_bounded(*colonist),
        social_locations@.len() <= 0x40_0000,
    ensures
        r == social_score(*colonist, building_id, social_locations@),
{
    let mut total: i32 = 0;
    let mut i: usize = 0;
    while i < social_locations.len()
        invariant
            relationships_bounded(*colonist),
            social_locations@.len() <= 0x40_0000,
            i <= social_locations@.len(),
            total == social_score(*colonist, building_id, social_locations@.take(i as int)),
        decreases social_locations@.len() - i,
    {
        proof {
            assert(social_locations@.take(i + 1).drop_last() == social_locations@.take(i as int));
            assert(social_locations@.take(i + 1).last() == social_locations@[i as int]);
            lemma_social_score_bound(*colonist, building_id, social_locations@.take(i as int));
        }
        let (other_id, location) = social_locations[i];
        let here = match location.building_id() {
            Some(b) => b == building_id,
            None => false,
        };
        if other_id != colonist.id && here {
            let relationship = colonist.relationship_with(other_id);
            proof {
                if colonist.relationships@.contains_key(other_id) {
                    assert(-50 <= colonist.relationships@[other_id] <= 50);
                }
                assert(-50 <= relationship <= 50);
            }
            let directive: i32 = if colonist.preferred_partner_id == Some(other_id) {
                80
            } else if colonist.avoided_partner_id == Some(other_id) {
                -80
            } else {
                0
            };
            total = total + relationship + directive;
        }
        i = i + 1;
    }
    assert(social_locations@.take(social_locations@.len() as int) == social_locations@);
    total
}

/// A habitat candidate (id, social score, sleepers) beats the best so far:
/// higher score, then fewer sleepers, then lower id.
pub open spec fn spec_better_habitat(c: (u32, i32, u32), b: (u32, i32, u32)) -> bool {
    c.1 > b.1 || (c.1 == b.1 && c.2 < b.2) || (c.1 == b.1 && c.2 == b.2 && c.0 < b.0)
}

pub fn better_habitat_candidate(candidate: (u32, i32, u32), best: (u32, i32, u32)) -> (r: bool)
    ensures
        r == spec_better_habitat(candidate, best),
{
    let (candidate_id, candidate_score, candidate_count) = candidate;
    let (best_id, best_score, best_count) = best;
    candidate_score > best_score || (candidate_score == best_score && candidate_count < best_count) || (
    candidate_score == best_score && candidate_count == best_count && candidate_id < best_id)
}

/// A destination candidate (target, social score, distance) beats the best
/// so far: higher score, then shorter walk, then lower building id.
pub open spec fn spec_better_target(c: (BuildingTarget, i32, i32), b: (BuildingTarget, i32, i32)) -> bool {
    c.1 > b.1 || (c.1 == b.1 && c.2 < b.2) || (c.1 == b.1 && c.2 == b.2 && c.0.building_id < b.0.building_id)
}

pub fn better_target_candidate(candidate: &(BuildingTarget, i32, i32), best: &(BuildingTarget, i32, i32)) -> (r: bool)
    ensures
        r == spec_better_target(*candidate, *best),
{
    let (candidate_target, candidate_score, candidate_distance) = *candidate;
    let (best_target, best_score, best_distance) = *best;
    candidate_score > best_score || (candidate_score == best_score && candidate_distance < best_distance) || (
    candidate_score == best_score && candidate_distance == best_distance && candidate_target.building_id
        < best_target.building_id)
}


/// Footprints and positions small enough for entrance search arithmetic.
pub open spec fn small_building(b: BuildingSnapshot) -> bool {
    small_pos(b.2) && b.3.0 <= 0x1000 && b.3.1 <= 0x1000
}

/// The `t`-th cell of the ring search around a footprint, listed column by
/// column from one cell before the corner to one cell past the far edge.
pub open spec fn ring_cell(pos: Position, h: u32, t: int) -> (int, int) {
    (pos.x + t / (h + 2) - 1, pos.y + t % (h + 2) - 1)
}

/// Whether the `t`-th ring cell lies inside the footprint itself.
pub open spec fn ring_inside(h: u32, w: u32, t: int) -> bool {
    let dx = t / (h + 2) - 1;
    let dy = t % (h + 2) - 1;
    0 <= dx < w && 0 <= dy < h
}

pub open spec fn walkable_at(g: Grid, x: int, y: int) -> bool {
    g.in_bounds(x, y) && spec_walkable(g.cell(x, y))
}

/// The nearest walkable cell among the first `n` ring cells (the first one
/// found at the least distance) and that distance; `i32::MAX` stands for
/// none found.
pub open spec fn entrance_fold(from: Position, pos: Position, w: u32, h: u32, g: Grid, n: int) -> (Option<(int, int)>, int)
    decreases n,
{
    if n <= 0 {
        (None, i32::MAX as int)
    } else {
        let (best, best_dist) = entrance_fold(from, pos, w, h, g, n - 1);
        let (x, y) = ring_cell(pos, h, n - 1);
        let d = abs(from.x - x) + abs(from.y - y);
        if !ring_inside(h, w, n - 1) && walkable_at(g, x, y) && d < best_dist {
            (Some((x, y)), d)
        } else {
            (best, best_dist)
        }
    }
}

proof fn lemma_entrance_fold_dist(from: Position, pos: Position, w: u32, h: u32, g: Grid, n: int)
    ensures
        0 <= entrance_fold(from, pos, w, h, g, n).1 <= i32::MAX,
        entrance_fold(from, pos, w, h, g, n).0 is None ==> entrance_fold(from, pos, w, h, g, n).1 == i32::MAX,
    decreases n,
{
    if n > 0 {
        lemma_entrance_fold_dist(from, pos, w, h, g, n - 1);
    }
}

/// The walkable cell around a footprint nearest to `from` (by grid steps),
/// and its distance.
pub open spec fn spec_best_entrance(from: Position, pos: Position, w: u32, h: u32, g: Grid) -> Option<(Position, i32)> {
    let (best, d) = entrance_fold(from, pos, w, h, g, (w + 2) * (h + 2));
    match best {
        None => None,
        Some((x, y)) => Some((Position { x: x as i32, y: y as i32 }, d as i32)),
    }
}

pub fn best_building_entrance(from: Position, pos: Position, width: u32, height: u32, grid: &Grid) -> (r: Option<(Position, i32)>)
    requires
        grid.wf(),
        small_pos(from),
        small_pos(pos),
        width <= 0x1000,
        height <= 0x1000,
    ensures
        r == spec_best_entrance(from, pos, width, height, *grid),
{
    let cols: u32 = height + 2;
    assert((width + 2) * cols <= 0x1002 * 0x1002) by (nonlinear_arith)
        requires
            width <= 0x1000,
            cols <= 0x1002,
    ;
    let total: u32 = (width + 2) * cols;
    let mut best_target: Option<Position> = None;
    let mut best_distance: i32 = i32::MAX;
    let mut t: u32 = 0;
    while t < total
        invariant
            grid.wf(),
            small_pos(from),
            small_pos(pos),
            width <= 0x1000,
            height <= 0x1000,
            cols == height + 2,
            total == (width + 2) * cols,
            t <= total,
            ({
                let (best, d) = entrance_fold(from, pos, width, height, *grid, t as int);
                &&& d == best_distance
                &&& match best {
                    None => best_target is None,
                    Some((x, y)) => best_target == Some(Position { x: x as i32, y: y as i32 })
                        && i32::MIN <= x <= i32::MAX && i32::MIN <= y <= i32::MAX,
                }
            }),
        decreases total - t,
    {
        proof {
            lemma_entrance_fold_dist(from, pos, width, height, *grid, t as int);
            assert(t / cols <= width + 1) by (nonlinear_arith)
                requires
                    t < (width + 2) * cols,
                    cols > 0,
            ;
        }
        let dx: i64 = (t / cols) as i64 - 1;
        let dy: i64 = (t % cols) as i64 - 1;
        let check_x: i64 = pos.x as i64 + dx;
        let check_y: i64 = pos.y as i64 + dy;
        let inside = dx >= 0 && dx < width as i64 && dy >= 0 && dy < height as i64;
        if !inside {
            let cx = check_x as i32;
            let cy = check_y as i32;
            let walkable = match grid.get_cell(cx, cy) {
                Some(cell) => cell.is_walkable(),
                None => false,
            };
            if walkable {
                let ddx: i64 = if from.x as i64 - check_x < 0 { check_x - from.x as i64 } else { from.x as i64 - check_x };
                let ddy: i64 = if from.y as i64 - check_y < 0 { check_y - from.y as i64 } else { from.y as i64 - check_y };
                let dist: i64 = ddx + ddy;
                if dist < best_distance as i64 {
                    best_distance = dist as i32;
                    best_target = Some(Position::new(cx, cy));
                }
            }
        }
        t = t + 1;
    }
    match best_target {
        Some(entrance) => Some((entrance, best_distance)),
        None => None,
    }
}

/// The chosen destination among the first `n` buildings: kind `t`, the
/// pinned id if any, a reachable entrance, then the best social score,
/// shortest walk, and lowest id.
pub open spec fn target_fold(from: Position, t: BuildingType, bs: Seq<BuildingSnapshot>, specific: Option<u32>, c: Colonist,
    locs: Seq<SocialLocation>, g: Grid, n: int) -> Option<(BuildingTarget, i32, i32)>
    decreases n,
{
    if n <= 0 {
        None
    } else {
        let best = target_fold(from, t, bs, specific, c, locs, g, n - 1);
        let b = bs[n - 1];
        if b.1 != t || (specific matches Some(id) && b.0 != id) {
            best
        } else {
            match spec_best_entrance(from, b.2, b.3.0, b.3.1, g) {
                None => best,
                Some((entrance, d)) => {
                    let cand = (BuildingTarget { building_id: b.0, building_type: b.1, entrance }, social_score(c, b.0, locs) as i32, d);
                    match best {
                        None => Some(cand),
                        Some(bb) => if spec_better_target(cand, bb) { Some(cand) } else { best },
                    }
                },
            }
        }
    }
}

/// Inputs of a building search are in range.
pub open spec fn search_inputs_ok(from: Position, bs: Seq<BuildingSnapshot>, c: Colonist, locs: Seq<SocialLocation>, g: Grid) -> bool {
    &&& g.wf()
    &&& small_pos(from)
    &&& forall|k: int| 0 <= k < bs.len() ==> small_building(#[trigger] bs[k])
    &&& relationships_bounded(c)
    &&& locs.len() <= 0x40_0000
}

/// The building of the wanted kind a colonist should head for, with its
/// entrance: the most welcoming, then the nearest, then the lowest id.
pub fn find_building_entrance(from: Position, building_type: BuildingType, buildings: &[BuildingSnapshot],
    specific_target: Option<u32>, colonist: &Colonist, social_locations: &[SocialLocation], grid: &Grid) -> (r: Option<BuildingTarget>)
    requires
        search_inputs_ok(from, buildings@, *colonist, social_locations@, *grid),
    ensures
        r == (match target_fold(from, building_type, buildings@, specific_target, *colonist, social_locations@, *grid,
            buildings@.len() as int) {
            None => None,
            Some(best) => Some(best.0),
        }),
{
    let mut best_target: Option<(BuildingTarget, i32, i32)> = None;
    let mut i: usize = 0;
    while i < buildings.len()
        invariant
            search_inputs_ok(from, buildings@, *colonist, social_locations@, *grid),
            i <= buildings@.len(),
            best_target == target_fold(from, building_type, buildings@, specific_target, *colonist, social_locations@,
                *grid, i as int),
        decreases buildings@.len() - i,
    {
        let (id, bt, pos, size) = buildings[i];
        assert(small_building(buildings@[i as int]));
        let specific_ok = match specific_target {
            Some(target_id) => id == target_id,
            None => true,
        };
        if bt == building_type && specific_ok {
            match best_building_entrance(from, pos, size.0, size.1, grid) {
                None => {},
                Some((entrance, distance)) => {
                    let target = BuildingTarget { building_id: id, building_type: bt, entrance };
                    let score = social_score_for_building(colonist, id, social_locations);
                    let candidate = (target, score, distance);
                    let replace = match best_target {
                        None => true,
                        Some(best) => better_target_candidate(&candidate, &best),
                    };
                    if replace {
                        best_target = Some(candidate);
                    }
                },
            }
        }
        i = i + 1;
    }
    match best_target {
        Some((target, _, _)) => Some(target),
        None => None,
    }
}


/// Sleepers counted at a building.
pub open spec fn sleepers(occ: Map<u32, u32>, id: u32) -> u32 {
    if occ.contains_key(id) { occ[id] } else { 0 }
}

/// The habitat (id, social score, sleepers) a colonist without a usable pin
/// takes among the first `n` buildings: a habitat with room, the most
/// welcoming, then the emptiest, then the lowest id.
pub open spec fn habitat_fold(bs: Seq<BuildingSnapshot>, occ: Map<u32, u32>, cap: u32, c: Colonist,
    locs: Seq<SocialLocation>, n: int) -> Option<(u32, i32, u32)>
    decreases n,
{
    if n <= 0 {
        None
    } else {
        let best = habitat_fold(bs, occ, cap, c, locs, n - 1);
        let b = bs[n - 1];
        let count = sleepers(occ, b.0);
        if b.1 != BuildingType::Habitat || count >= cap {
            best
        } else {
            let cand = (b.0, social_score(c, b.0, locs) as i32, count);
            match best {
                None => Some(cand),
                Some(bb) => if spec_better_habitat(cand, bb) { Some(cand) } else { best },
            }
        }
    }
}

/// The log's record of a pending entry.
pub open spec fn pending_is(p: PendingLog, category: LogCategory, title: Seq<char>, detail: Seq<char>) -> bool {
    p.0 == category && p.1@ == title && p.2@ == detail
}

/// `new` is `old` with one more pending entry of this content.
pub open spec fn pending_pushed(old: Seq<PendingLog>, new: Seq<PendingLog>, category: LogCategory, title: Seq<char>, detail: Seq<char>) -> bool {
    new.len() == old.len() + 1 && new.drop_last() == old && pending_is(new.last(), category, title, detail)
}

/// At least a cooldown has passed since `last`.
pub open spec fn cooled_down(tick: u64, last: u64, cooldown: u64) -> bool {
    tick >= last && tick - last >= cooldown
}

/// A colonist sleeping on the ground where it stands.
pub open spec fn sleeping_rough(c: Colonist, tick: u64) -> Colonist {
    Colonist {
        state: ColonistState::Sleeping,
        current_activity: ActivityType::Sleep,
        activity_location: ActivityLocation::Ground(c.position),
        last_refusal_tick: if cooled_down(tick, c.last_refusal_tick, REFUSAL_LOG_COOLDOWN_TICKS) { tick } else { c.last_refusal_tick },
        ..c
    }
}

/// What the habitat search does to a colonist: the colonist after it, the
/// building kind to head for, the sleeper counts, and whether it logs a
/// night without shelter.
pub open spec fn habitat_outcome(c0: Colonist, bs: Seq<BuildingSnapshot>, occ: Map<u32, u32>, cap: u32,
    locs: Seq<SocialLocation>, tick: u64) -> (Colonist, Option<BuildingType>, Map<u32, u32>, bool)
{
    let kept = c0.assigned_habitat matches Some(id) && spec_building_matches(bs, id, BuildingType::Habitat);
    let c1 = Colonist { assigned_habitat: None, ..c0 };
    if kept {
        (c0, Some(BuildingType::Habitat), occ, false)
    } else {
        match habitat_fold(bs, occ, cap, c0, locs, bs.len() as int) {
            Some((id, _, count)) => (Colonist { assigned_habitat: Some(id), ..c0 }, Some(BuildingType::Habitat),
                occ.insert(id, (count + 1) as u32), false),
            None => (sleeping_rough(c1, tick), None, occ, cooled_down(tick, c0.last_refusal_tick, REFUSAL_LOG_COOLDOWN_TICKS)),
        }
    }
}

/// Keeps a usable habitat pin, or pins the best habitat with room, or has
/// the colonist sleep where it stands (logging that, at most once an hour).
pub fn find_or_assign_habitat(colonist: &mut Colonist, buildings: &[BuildingSnapshot], building_occupancy: &mut HashMap<u32, u32>,
    habitat_capacity: u32, social_locations: &[SocialLocation], pending_logs: &mut Vec<PendingLog>, current_tick: u64)
    -> (r: Option<BuildingType>)
    requires
        relationships_bounded(*old(colonist)),
        social_locations@.len() <= 0x40_0000,
    ensures
        ({
            let (c1, r1, occ1, logged) = habitat_outcome(*old(colonist), buildings@, old(building_occupancy)@,
                habitat_capacity, social_locations@, current_tick);
            &&& *final(colonist) == c1
            &&& r == r1
            &&& final(building_occupancy)@ == occ1
            &&& if logged {
                pending_pushed(old(pending_logs)@, final(pending_logs)@, LogCategory::Mood,
                    old(colonist).name@ + " slept without a habitat"@,
                    "Recovery is weaker when there are not enough usable habitats."@)
            } else {
                final(pending_logs)@ == old(pending_logs)@
            }
        }),
{
    match colonist.assigned_habitat {
        Some(bid) => {
            if building_matches_type(buildings, bid, BuildingType::Habitat) {
                return Some(BuildingType::Habitat);
            }
            colonist.assigned_habitat = None;
        },
        None => {},
    }
    let ghost c0 = *old(colonist);
    let ghost occ = building_occupancy@;
    assert(*colonist == Colonist { assigned_habitat: None, ..c0 });
    let mut best_habitat: Option<(u32, i32, u32)> = None;
    let mut i: usize = 0;
    while i < buildings.len()
        invariant
            relationships_bounded(c0),
            *colonist == (Colonist { assigned_habitat: None, ..c0 }),
            !(c0.assigned_habitat matches Some(id) && spec_building_matches(buildings@, id, BuildingType::Habitat)),
            pending_logs@ == old(pending_logs)@,
            best_habitat matches Some(b) ==> b.2 < habitat_capacity,
            social_locations@.len() <= 0x40_0000,
            building_occupancy@ == occ,
            i <= buildings@.len(),
            best_habitat == habitat_fold(buildings@, occ, habitat_capacity, c0, social_locations@, i as int),
        decreases buildings@.len() - i,
    {
        let (id, b_type, _, _) = buildings[i];
        if b_type == BuildingType::Habitat {
            let count: u32 = match building_occupancy.get(&id) {
                Some(v) => *v,
                None => 0,
            };
            if count < habitat_capacity {
                let score = social_score_for_building(colonist, id, social_locations);
                assert(score == social_score(c0, id, social_locations@)) by {
                    lemma_social_score_same(*colonist, c0, id, social_locations@);
                }
                let candidate = (id, score, count);
                let replace = match best_habitat {
                    None => true,
                    Some(best) => better_habitat_candidate(candidate, best),
                };
                if replace {
                    best_habitat = Some(candidate);
                }
            }
        }
        i = i + 1;
    }
    match best_habitat {
        Some((building_id, _, count)) => {
            colonist.assigned_habitat = Some(building_id);
            building_occupancy.insert(building_id, count + 1);
            Some(BuildingType::Habitat)
        },
        None => {
            colonist.state = ColonistState::Sleeping;
            colonist.current_activity = ActivityType::Sleep;
            colonist.activity_location = ActivityLocation::Ground(colonist.position);
            if current_tick >= colonist.last_refusal_tick && current_tick - colonist.last_refusal_tick >= REFUSAL_LOG_COOLDOWN_TICKS {
                colonist.last_refusal_tick = current_tick;
                let mut title = colonist.name.clone();
                title.append(" slept without a habitat");
                let ghost before = pending_logs@;
                pending_logs.push((LogCategory::Mood, title,
                    String::from_str("Recovery is weaker when there are not enough usable habitats.")));
                assert(pending_logs@.drop_last() == before);
            }
            None
        },
    }
}

/// A colonist's social score depends only on its id, relationships, and
/// partner directives.
proof fn lemma_social_score_same(a: Colonist, b: Colonist, building_id: u32, locs: Seq<SocialLocation>)
    requires
        a.id == b.id,
        a.relationships == b.relationships,
        a.preferred_partner_id == b.preferred_partner_id,
        a.avoided_partner_id == b.avoided_partner_id,
    ensures
        social_score(a, building_id, locs) == social_score(b, building_id, locs),
    decreases locs.len(),
{
    if locs.len() > 0 {
        lemma_social_score_same(a, b, building_id, locs.drop_last());
    }
}

pub open spec fn refusal_detail(mood: int, chance: int) -> Seq<char> {
    "Mood "@ + crate::text::signed_decimal(mood) + " and social pressure created a "@ + crate::text::signed_decimal(chance)
        + "% refusal chance."@
}

/// A colonist that refuses to work stays put, logging the refusal at most
/// once an hour. The mood and chance are shown rounded to whole numbers.
pub fn log_work_refusal(colonist: &mut Colonist, mood: i32, refusal_chance: i32, current_tick: u64,
    pending_logs: &mut Vec<PendingLog>)
    ensures
        ({
            let c0 = *old(colonist);
            let c1 = Colonist { current_activity: ActivityType::Work, activity_location: ActivityLocation::Unset, ..c0 };
            if cooled_down(current_tick, c0.last_refusal_tick, REFUSAL_LOG_COOLDOWN_TICKS) {
                &&& *final(colonist) == Colonist { last_refusal_tick: current_tick, ..c1 }
                &&& pending_pushed(old(pending_logs)@, final(pending_logs)@, LogCategory::Work, c0.name@ + " refused work"@,
                    refusal_detail(mood as int, refusal_chance as int))
            } else {
                &&& *final(colonist) == c1
                &&& final(pending_logs)@ == old(pending_logs)@
            }
        }),
{
    colonist.current_activity = ActivityType::Work;
    colonist.activity_location = ActivityLocation::Unset;
    if !(current_tick >= colonist.last_refusal_tick && current_tick - colonist.last_refusal_tick >= REFUSAL_LOG_COOLDOWN_TICKS) {
        return;
    }
    colonist.last_refusal_tick = current_tick;
    let mut title = colonist.name.clone();
    title.append(" refused work");
    let mut detail = String::from_str("Mood ");
    crate::text::push_signed(&mut detail, mood as i64);
    detail.append(" and social pressure created a ");
    crate::text::push_signed(&mut detail, refusal_chance as i64);
    detail.append("% refusal chance.");
    let ghost before = pending_logs@;
    pending_logs.push((LogCategory::Work, title, detail));
    assert(pending_logs@.drop_last() == before);
}

/// Who stands on a cell: the last listed colonist there.
pub open spec fn occupant(occ: Seq<(Position, u32)>, p: Position) -> Option<u32>
    decreases occ.len(),
{
    if occ.len() == 0 {
        None
    } else if occ.last().0 == p {
        Some(occ.last().1)
    } else {
        occupant(occ.drop_last(), p)
    }
}

/// The colonist standing on a cell, if any.
pub fn occupant_at(occupied: &[(Position, u32)], position: Position) -> (r: Option<u32>)
    ensures
        r == occupant(occupied@, position),
{
    let mut i: usize = occupied.len();
    assert(occupied@.take(occupied@.len() as int) == occupied@);
    while i > 0
        invariant
            i <= occupied@.len(),
            occupant(occupied@, position) == occupant(occupied@.take(i as int), position),
        decreases i,
    {
        let (p, id) = occupied[i - 1];
        assert(occupied@.take(i as int).drop_last() == occupied@.take(i - 1));
        assert(occupied@.take(i as int).last() == occupied@[i - 1]);
        if p.x == position.x && p.y == position.y {
            return Some(id);
        }
        i = i - 1;
    }
    None
}

proof fn lemma_occupant_take_all(occ: Seq<(Position, u32)>, p: Position)
    ensures
        occupant(occ, p) == occupant(occ.take(occ.len() as int), p),
{
    assert(occ.take(occ.len() as int) == occ);
}

pub open spec fn spec_step_open(p: Position, occ: Seq<(Position, u32)>, g: Grid) -> bool {
    occupant(occ, p) is None && walkable_at(g, p.x as int, p.y as int)
}

/// Nobody stands on the cell and it can be walked on.
pub fn is_step_open(position: Position, occupied: &[(Position, u32)], grid: &Grid) -> (r: bool)
    requires
        grid.wf(),
    ensures
        r == spec_step_open(position, occupied@, *grid),
{
    proof {
        lemma_occupant_take_all(occupied@, position);
    }
    if occupant_at(occupied, position).is_some() {
        return false;
    }
    match grid.get_cell(position.x, position.y) {
        Some(cell) => cell.is_walkable(),
        None => false,
    }
}

/// The name a colonist id has: the last listed name for it.
pub open spec fn name_of(names: Seq<(u32, String)>, id: u32) -> Option<Seq<char>>
    decreases names.len(),
{
    if names.len() == 0 {
        None
    } else if names.last().0 == id {
        Some(names.last().1@)
    } else {
        name_of(names.drop_last(), id)
    }
}

pub open spec fn strain_title(c: Colonist, names: Seq<(u32, String)>, other: u32) -> Seq<char> {
    c.name@ + " avoided "@ + match name_of(names, other) {
        Some(n) => n,
        None => "Colonist "@ + crate::text::decimal(other as nat),
    }
}

fn name_index(names: &[(u32, String)], id: u32) -> (r: Option<usize>)
    ensures
        match r {
            Some(k) => k < names@.len() && name_of(names@, id) == Some(names@[k as int].1@),
            None => name_of(names@, id) is None,
        },
{
    let mut i: usize = names.len();
    assert(names@.take(names@.len() as int) == names@);
    while i > 0
        invariant
            i <= names@.len(),
            name_of(names@, id) == name_of(names@.take(i as int), id),
        decreases i,
    {
        assert(names@.take(i as int).drop_last() == names@.take(i - 1));
        assert(names@.take(i as int).last() == names@[i - 1]);
        if names[i - 1].0 == id {
            return Some(i - 1);
        }
        i = i - 1;
    }
    None
}

/// The effect of logging a social strain.
pub open spec fn strain_logged(c0: Colonist, c1: Colonist, names: Seq<(u32, String)>, other: u32, tick: u64,
    p0: Seq<PendingLog>, p1: Seq<PendingLog>) -> bool
{
    if cooled_down(tick, c0.last_social_strain_tick, SOCIAL_STRAIN_LOG_COOLDOWN_TICKS) {
        &&& c1 == Colonist { last_social_strain_tick: tick, ..c0 }
        &&& pending_pushed(p0, p1, LogCategory::Social, strain_title(c0, names, other),
            "A strained relationship made a crowded path stressful. Mood dropped."@)
    } else {
        &&& c1 == c0
        &&& p1 == p0
    }
}

/// Logs, at most once every two hours, that a colonist steered around
/// someone it dislikes.
pub fn log_social_strain(colonist: &mut Colonist, other_id: u32, colonist_names: &[(u32, String)], current_tick: u64,
    pending_logs: &mut Vec<PendingLog>)
    ensures
        if cooled_down(current_tick, old(colonist).last_social_strain_tick, SOCIAL_STRAIN_LOG_COOLDOWN_TICKS) {
            &&& *final(colonist) == Colonist { last_social_strain_tick: current_tick, ..*old(colonist) }
            &&& pending_pushed(old(pending_logs)@, final(pending_logs)@, LogCategory::Social,
                strain_title(*old(colonist), colonist_names@, other_id),
                "A strained relationship made a crowded path stressful. Mood dropped."@)
        } else {
            &&& *final(colonist) == *old(colonist)
            &&& final(pending_logs)@ == old(pending_logs)@
        },
{
    if !(current_tick >= colonist.last_social_strain_tick
        && current_tick - colonist.last_social_strain_tick >= SOCIAL_STRAIN_LOG_COOLDOWN_TICKS) {
        return;
    }
    colonist.last_social_strain_tick = current_tick;
    let found = name_index(colonist_names, other_id);
    let mut title = colonist.name.clone();
    title.append(" avoided ");
    match found {
        Some(k) => title.append(colonist_names[k].1.as_str()),
        None => {
            title.append("Colonist ");
            crate::text::push_decimal(&mut title, other_id as u64);
        },
    }
    assert(title@ =~= strain_title(*old(colonist), colonist_names@, other_id));
    let ghost before = pending_logs@;
    pending_logs.push((LogCategory::Social, title,
        String::from_str("A strained relationship made a crowded path stressful. Mood dropped.")));
    assert(pending_logs@.drop_last() == before);
}


/// One step from `c` toward `t` along an axis.
pub open spec fn step_toward(c: i32, t: i32) -> i32 {
    if c < t { (c + 1) as i32 } else if c > t { (c - 1) as i32 } else { c }
}

/// Where a moving colonist ends this step, and whether it brushed past
/// someone it dislikes, given the next cell of its path (if it has one).
pub open spec fn spec_next_move(c: Colonist, target: Position, occ: Seq<(Position, u32)>, g: Grid, path_next: Option<Position>) -> (Position, bool) {
    let current = c.position;
    match path_next {
        None => (current, false),
        Some(next) => if next != current && occupant(occ, next) is Some {
            let other = occupant(occ, next)->0;
            let strained = rel(c, other) < -20;
            let horiz = Position { x: step_toward(current.x, target.x), y: current.y };
            let vert = Position { x: current.x, y: step_toward(current.y, target.y) };
            if horiz != current && spec_step_open(horiz, occ, g) {
                (horiz, strained)
            } else if vert != current && spec_step_open(vert, occ, g) {
                (vert, strained)
            } else {
                (current, strained)
            }
        } else {
            (next, false)
        },
    }
}

/// The next cell a moving colonist steps to: the next cell of its path
/// (`path_next`, found by the caller on the grid), or, when someone stands
/// there, a free straight step toward the target, else staying put. Brushing
/// past someone it feels worse than -20 about is reported (the caller
/// lowers its mood) and logged.
pub fn get_next_move_position(colonist: &mut Colonist, target: Position, occupied: &[(Position, u32)], grid: &Grid,
    colonist_names: &[(u32, String)], current_tick: u64, pending_logs: &mut Vec<PendingLog>, path_next: Option<Position>)
    -> (r: (Position, bool))
    requires
        grid.wf(),
    ensures
        r == spec_next_move(*old(colonist), target, occupied@, *grid, path_next),
        match path_next {
            Some(next) => if next != old(colonist).position && occupant(occupied@, next) is Some
                && rel(*old(colonist), occupant(occupied@, next)->0) < -20 {
                strain_logged(*old(colonist), *final(colonist), colonist_names@, occupant(occupied@, next)->0,
                    current_tick, old(pending_logs)@, final(pending_logs)@)
            } else {
                *final(colonist) == *old(colonist) && final(pending_logs)@ == old(pending_logs)@
            },
            None => *final(colonist) == *old(colonist) && final(pending_logs)@ == old(pending_logs)@,
        },
{
    let current = colonist.position;
    let next = match path_next {
        None => return (current, false),
        Some(p) => p,
    };
    if next.x != current.x || next.y != current.y {
        match occupant_at(occupied, next) {
            Some(other_id) => {
                let relationship = colonist.relationship_with(other_id);
                let strained = relationship < -20;
                if strained {
                    log_social_strain(colonist, other_id, colonist_names, current_tick, pending_logs);
                }
                let hx: i32 = if current.x < target.x { current.x + 1 } else if current.x > target.x { current.x - 1 } else { current.x };
                let horiz = Position::new(hx, current.y);
                if (horiz.x != current.x || horiz.y != current.y) && is_step_open(horiz, occupied, grid) {
                    return (horiz, strained);
                }
                let vy: i32 = if current.y < target.y { current.y + 1 } else if current.y > target.y { current.y - 1 } else { current.y };
                let vert = Position::new(current.x, vy);
                if (vert.x != current.x || vert.y != current.y) && is_step_open(vert, occupied, grid) {
                    return (vert, strained);
                }
                return (current, strained);
            },
            None => {},
        }
    }
    (next, false)
}

/// The random and mood-derived facts one AI step uses, drawn by the caller.
#[derive(Clone, Copy, Debug, PartialEq, Eq, Structural)]
pub struct AiInputs {
    /// The colonist refuses a scheduled work block.
    pub refuses_work: bool,
    /// Mood, rounded, for a refusal log.
    pub mood: i32,
    /// Refusal chance in percent, rounded, for a refusal log.
    pub refusal_chance: i32,
    /// A wander target when the colonist decides to wander this step.
    pub wander_target: Option<Position>,
    /// The next cell of the path toward a moving colonist's target.
    pub path_next: Option<Position>,
}

/// Heading for a building of kind `t` (the pinned one when `specific`):
/// enter it when already at its door, else walk to the entrance; with no
/// reachable building, maybe wander off relaxing.
pub open spec fn spec_head_for(c: Colonist, a: ActivityType, t: BuildingType, specific: Option<u32>,
    bs: Seq<BuildingSnapshot>, locs: Seq<SocialLocation>, g: Grid, wander: Option<Position>) -> Colonist
{
    match target_fold(c.position, t, bs, specific, c, locs, g, bs.len() as int) {
        Some((tg, _, _)) => if spec_adjacent_building(c.position, tg.building_type, bs, Some(tg.building_id)) is Some {
            at_building(c, a, tg.building_id, tg.building_type)
        } else {
            moving_to(c, a, tg.entrance)
        },
        None => match wander {
            Some(p) => moving_to(c, ActivityType::Relax, p),
            None => c,
        },
    }
}

/// Inputs of an AI step are in range.
pub open spec fn ai_inputs_ok(c: Colonist, bs: Seq<BuildingSnapshot>, locs: Seq<SocialLocation>, g: Grid) -> bool {
    &&& search_inputs_ok(c.position, bs, c, locs, g)
}

/// One AI step of a colonist for the scheduled activity. Returns whether it
/// brushed past someone it dislikes (its mood then drops where mood is kept).
pub fn update_colonist_ai(colonist: &mut Colonist, scheduled_activity: ActivityType, occupied: &[(Position, u32)],
    colonist_names: &[(u32, String)], social_locations: &[SocialLocation], grid: &Grid, buildings: &[BuildingSnapshot],
    building_occupancy: &mut HashMap<u32, u32>, habitat_capacity: u32, current_tick: u64, pending_logs: &mut Vec<PendingLog>,
    inputs: AiInputs) -> (strained: bool)
    requires
        old(colonist).state is Idle ==> ai_inputs_ok(*old(colonist), buildings@, social_locations@, *grid),
        old(colonist).state is Moving ==> grid.wf(),
        old(colonist).state is Moving ==> forall|p: Position| #![auto] inputs.path_next == Some(p) ==> small_pos(p),
    ensures
        ({
            let c0 = *old(colonist);
            let c1 = *final(colonist);
            match c0.state {
                ColonistState::OnMission { .. } => {
                    &&& c1 == (Colonist { activity_location: ActivityLocation::Unset, current_activity: ActivityType::Work, ..c0 })
                    &&& !strained
                    &&& final(building_occupancy)@ == old(building_occupancy)@
                    &&& final(pending_logs)@ == old(pending_logs)@
                },
                ColonistState::Working | ColonistState::Eating | ColonistState::Sleeping => {
                    &&& c1 == (if (c0.state is Working && scheduled_activity == ActivityType::Work)
                        || (c0.state is Eating && scheduled_activity == ActivityType::Eat)
                        || (c0.state is Sleeping && scheduled_activity == ActivityType::Sleep) {
                        Colonist { current_activity: scheduled_activity, ..c0 }
                    } else {
                        idled(c0)
                    })
                    &&& !strained
                    &&& final(building_occupancy)@ == old(building_occupancy)@
                    &&& final(pending_logs)@ == old(pending_logs)@
                },
                ColonistState::Moving { target } => {
                    let (pos, st) = spec_next_move(c0, target, occupied@, *grid, inputs.path_next);
                    &&& strained == st
                    &&& final(building_occupancy)@ == old(building_occupancy)@
                    &&& c1.position == pos
                    &&& (pos == target ==> match spec_activity_building(scheduled_activity, c0.job_preference) {
                        Some(t) => match spec_adjacent_building(pos, t, buildings@,
                            spec_specific_target(c0, scheduled_activity, t, buildings@)) {
                            Some(k) => c1.state == spec_activity_state(scheduled_activity)
                                && c1.current_activity == scheduled_activity
                                && c1.activity_location == (ActivityLocation::Building {
                                    building_id: buildings@[k].0,
                                    building_type: buildings@[k].1,
                                }),
                            None => c1.state == ColonistState::Idle && c1.activity_location == ActivityLocation::Unset
                                && c1.current_activity == ActivityType::Relax,
                        },
                        None => c1.state == ColonistState::Idle && c1.activity_location == ActivityLocation::Unset
                            && c1.current_activity == ActivityType::Relax,
                    })
                    &&& (pos != target ==> c1.state == c0.state && c1.current_activity == c0.current_activity
                        && c1.activity_location == c0.activity_location)
                },
                ColonistState::Idle => {
                    let cs = Colonist { current_activity: scheduled_activity, ..c0 };
                    &&& !strained
                    &&& match scheduled_activity {
                        ActivityType::Relax => {
                            &&& c1 == (match inputs.wander_target {
                                Some(p) => moving_to(cs, ActivityType::Relax, p),
                                None => cs,
                            })
                            &&& final(building_occupancy)@ == old(building_occupancy)@
                            &&& final(pending_logs)@ == old(pending_logs)@
                        },
                        ActivityType::Eat => {
                            &&& c1 == spec_head_for(cs, ActivityType::Eat, BuildingType::MessHall, None, buildings@,
                                social_locations@, *grid, inputs.wander_target)
                            &&& final(building_occupancy)@ == old(building_occupancy)@
                            &&& final(pending_logs)@ == old(pending_logs)@
                        },
                        ActivityType::Work => {
                            &&& final(building_occupancy)@ == old(building_occupancy)@
                            &&& if inputs.refuses_work {
                                let cw = Colonist { current_activity: ActivityType::Work, activity_location: ActivityLocation::Unset, ..cs };
                                if cooled_down(current_tick, c0.last_refusal_tick, REFUSAL_LOG_COOLDOWN_TICKS) {
                                    &&& c1 == (Colonist { last_refusal_tick: current_tick, ..cw })
                                    &&& pending_pushed(old(pending_logs)@, final(pending_logs)@, LogCategory::Work,
                                        c0.name@ + " refused work"@, refusal_detail(inputs.mood as int, inputs.refusal_chance as int))
                                } else {
                                    &&& c1 == cw
                                    &&& final(pending_logs)@ == old(pending_logs)@
                                }
                            } else {
                                let t = spec_work_building(c0.job_preference);
                                &&& c1 == spec_head_for(cs, ActivityType::Work, t,
                                    spec_specific_target(cs, ActivityType::Work, t, buildings@), buildings@,
                                    social_locations@, *grid, inputs.wander_target)
                                &&& final(pending_logs)@ == old(pending_logs)@
                            }
                        },
                        ActivityType::Sleep => {
                            let (ch, rh, occ1, logged) = habitat_outcome(cs, buildings@, old(building_occupancy)@,
                                habitat_capacity, social_locations@, current_tick);
                            &&& final(building_occupancy)@ == occ1
                            &&& (if logged {
                                pending_pushed(old(pending_logs)@, final(pending_logs)@, LogCategory::Mood,
                                    c0.name@ + " slept without a habitat"@,
                                    "Recovery is weaker when there are not enough usable habitats."@)
                            } else {
                                final(pending_logs)@ == old(pending_logs)@
                            })
                            &&& c1 == (match rh {
                                Some(t) => spec_head_for(ch, ActivityType::Sleep, t,
                                    spec_specific_target(ch, ActivityType::Sleep, t, buildings@), buildings@,
                                    social_locations@, *grid, inputs.wander_target),
                                None => ch,
                            })
                        },
                    }
                },
            }
        }),
{
    match colonist.state {
        ColonistState::OnMission { .. } => {
            colonist.activity_location = ActivityLocation::Unset;
            colonist.current_activity = ActivityType::Work;
            false
        },
        ColonistState::Idle => {
            colonist.current_activity = scheduled_activity;
            let target_building_type: Option<BuildingType> = match scheduled_activity {
                ActivityType::Sleep => find_or_assign_habitat(colonist, buildings, building_occupancy, habitat_capacity,
                    social_locations, pending_logs, current_tick),
                ActivityType::Work => {
                    if inputs.refuses_work {
                        log_work_refusal(colonist, inputs.mood, inputs.refusal_chance, current_tick, pending_logs);
                        None
                    } else {
                        Some(colonist.job_preference.work_building_type())
                    }
                },
                ActivityType::Eat => Some(BuildingType::MessHall),
                ActivityType::Relax => None,
            };
            match target_building_type {
                Some(building_type) => {
                    let specific_target = specific_target_for_activity(colonist, scheduled_activity, building_type, buildings);
                    head_for(colonist, scheduled_activity, building_type, specific_target, buildings, social_locations,
                        grid, inputs.wander_target);
                },
                None => {
                    if scheduled_activity == ActivityType::Relax {
                        match inputs.wander_target {
                            Some(target) => set_moving_to_activity(colonist, scheduled_activity, target),
                            None => {},
                        }
                    }
                },
            }
            false
        },
        ColonistState::Moving { target } => {
            let (next_pos, strained) = get_next_move_position(colonist, target, occupied, grid, colonist_names,
                current_tick, pending_logs, inputs.path_next);
            colonist.position = next_pos;
            if next_pos.x == target.x && next_pos.y == target.y {
                match building_type_for_activity(scheduled_activity, colonist.job_preference) {
                    Some(building_type) => {
                        let specific_target = specific_target_for_activity(colonist, scheduled_activity, building_type,
                            buildings);
                        match find_adjacent_building(next_pos, building_type, buildings, specific_target) {
                            Some((building_id, bt)) => set_activity_at_building(colonist, scheduled_activity, building_id, bt),
                            None => set_idle(colonist),
                        }
                    },
                    None => set_idle(colonist),
                }
            }
            strained
        },
        ColonistState::Working | ColonistState::Eating | ColonistState::Sleeping => {
            let matching = match (colonist.state, scheduled_activity) {
                (ColonistState::Working, ActivityType::Work) => true,
                (ColonistState::Eating, ActivityType::Eat) => true,
                (ColonistState::Sleeping, ActivityType::Sleep) => true,
                _ => false,
            };
            if matching {
                colonist.current_activity = scheduled_activity;
            } else {
                set_idle(colonist);
            }
            false
        },
    }
}

/// Enter a building of kind `building_type` when at its door, else walk to
/// its entrance; with none reachable, wander off relaxing if asked to.
fn head_for(colonist: &mut Colonist, activity: ActivityType, building_type: BuildingType, specific_target: Option<u32>,
    buildings: &[BuildingSnapshot], social_locations: &[SocialLocation], grid: &Grid, wander_target: Option<Position>)
    requires
        search_inputs_ok(old(colonist).position, buildings@, *old(colonist), social_locations@, *grid),
    ensures
        *final(colonist) == spec_head_for(*old(colonist), activity, building_type, specific_target, buildings@,
            social_locations@, *grid, wander_target),
{
    let found = find_building_entrance(colonist.position, building_type, buildings, specific_target, colonist,
        social_locations, grid);
    match found {
        Some(target) => {
            if is_adjacent_to_building(colonist.position, target.building_type, buildings, Some(target.building_id)) {
                set_activity_at_building(colonist, activity, target.building_id, target.building_type);
            } else {
                set_moving_to_activity(colonist, activity, target.entrance);
            }
        },
        None => {
            match wander_target {
                Some(target) => set_moving_to_activity(colonist, ActivityType::Relax, target),
                None => {},
            }
        },
    }
}

} // verus!
