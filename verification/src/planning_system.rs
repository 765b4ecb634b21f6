//! Placement previews: what a building does, what it costs, and why it
//! cannot go where the player points.
use crate::building::{
    footprint_cell, spec_building_size, spec_placement_impact, spec_planning_role, spec_purpose, spec_salvage_cost,
    BuildingType,
};
use crate::game_state::GameState;
use crate::grid::{spec_walkable, Cell};
use crate::text::{decimal, push_decimal, push_signed, signed_decimal, text};
use crate::types::Position;
use vstd::prelude::*;
use vstd::string::StringExecFns;

verus! {

/// What the placement panel shows for a building at a position.
#[derive(Debug)]
pub struct BuildingPlacementFeedback {
    pub building_type: BuildingType,
    pub footprint: (u32, u32),
    pub cost: i32,
    pub purpose: &'static str,
    pub helps: &'static str,
    pub impact: &'static str,
    pub invalid_reason: Option<String>,
}

impl BuildingPlacementFeedback {
    pub fn can_place(&self) -> (r: bool)
        ensures
            r == self.invalid_reason is None,
    {
        self.invalid_reason.is_none()
    }
}

/// What is wrong with a footprint cell: 1 when a building stands there,
/// 2 when the terrain blocks it, 0 when it is usable.
pub open spec fn cell_problem(c: Cell) -> int {
    if c.building_id is Some {
        1
    } else if !spec_walkable(c) {
        2
    } else {
        0
    }
}

/// The first of the first `n` footprint cells (column by column) that has
/// a problem.
pub open spec fn first_problem(s: GameState, pos: Position, height: u32, n: int) -> Option<int>
    decreases n,
{
    if n <= 0 {
        None
    } else {
        match first_problem(s, pos, height, n - 1) {
            Some(i) => Some(i),
            None => {
                let c = footprint_cell(pos, height, n - 1);
                if cell_problem(s.grid.cell(c.x as int, c.y as int)) != 0 { Some(n - 1) } else { None }
            },
        }
    }
}

proof fn lemma_first_problem_stable(s: GameState, pos: Position, height: u32, k: int, n: int)
    requires
        0 <= k <= n,
        first_problem(s, pos, height, k) is Some,
    ensures
        first_problem(s, pos, height, n) == first_problem(s, pos, height, k),
    decreases n - k,
{
    if n > k {
        lemma_first_problem_stable(s, pos, height, k, n - 1);
    }
}

/// Why a building cannot be placed at a position, if it cannot.
pub open spec fn spec_invalid_reason(s: GameState, t: BuildingType, pos: Position) -> Option<Seq<char>> {
    let (w, h) = spec_building_size(t);
    if s.resources.salvage < spec_salvage_cost(t) {
        Some("Need "@ + signed_decimal(spec_salvage_cost(t) as int) + " salvage; "@
            + signed_decimal(s.resources.salvage as int) + " available."@)
    } else if pos.x < 0 || pos.y < 0 {
        Some("Footprint starts outside the map."@)
    } else if pos.x + w > s.grid.width || pos.y + h > s.grid.height {
        Some("Footprint leaves the map."@)
    } else {
        match first_problem(s, pos, h, w * h) {
            None => None,
            Some(i) => {
                let c = footprint_cell(pos, h, i);
                if cell_problem(s.grid.cell(c.x as int, c.y as int)) == 1 {
                    Some("Footprint overlaps another building."@)
                } else {
                    Some("Footprint overlaps blocked terrain."@)
                }
            },
        }
    }
}

pub open spec fn spec_placement_log_detail(f: BuildingPlacementFeedback, building_id: u32, remaining: i32) -> Seq<char> {
    "Added "@ + f.helps@ + " support: "@ + f.impact@ + " Building #"@ + decimal(building_id as nat) + " cost "@
        + signed_decimal(f.cost as int) + " salvage; "@ + signed_decimal(remaining as int) + " remain."@
}

pub struct PlanningSystem;

impl PlanningSystem {
    /// The facts the placement panel shows, and why placement would fail.
    pub fn building_feedback(state: &GameState, building_type: BuildingType, position: Position) -> (f: BuildingPlacementFeedback)
        requires
            state.grid.wf(),
        ensures
            f.building_type == building_type,
            f.footprint == spec_building_size(building_type),
            f.cost == spec_salvage_cost(building_type),
            f.purpose@ == spec_purpose(building_type),
            f.helps@ == spec_planning_role(building_type),
            f.impact@ == spec_placement_impact(building_type),
            match f.invalid_reason {
                Some(r) => spec_invalid_reason(*state, building_type, position) == Some(r@),
                None => spec_invalid_reason(*state, building_type, position) is None,
            },
    {
        let footprint = building_type.size();
        let invalid_reason = Self::invalid_reason(state, building_type, position);
        BuildingPlacementFeedback {
            building_type,
            footprint,
            cost: building_type.salvage_cost(),
            purpose: building_type.purpose(),
            helps: building_type.planning_role(),
            impact: building_type.placement_impact(),
            invalid_reason,
        }
    }

    /// Salvage first, then the map edges, then the first footprint cell
    /// (column by column) that holds a building or blocked terrain.
    pub fn invalid_reason(state: &GameState, building_type: BuildingType, position: Position) -> (r: Option<String>)
        requires
            state.grid.wf(),
        ensures
            match r {
                Some(s) => spec_invalid_reason(*state, building_type, position) == Some(s@),
                None => spec_invalid_reason(*state, building_type, position) is None,
            },
    {
        if state.resources.salvage < building_type.salvage_cost() {
            let mut s = String::new();
            s.append("Need ");
            push_signed(&mut s, building_type.salvage_cost() as i64);
            s.append(" salvage; ");
            push_signed(&mut s, state.resources.salvage as i64);
            s.append(" available.");
            return Some(s);
        }
        let (width, height) = building_type.size();
        if position.x < 0 || position.y < 0 {
            return Some(text("Footprint starts outside the map."));
        }
        if position.x as u64 + width as u64 > state.grid.width as u64
            || position.y as u64 + height as u64 > state.grid.height as u64 {
            return Some(text("Footprint leaves the map."));
        }
        let n: u32 = width * height;
        let mut i: u32 = 0;
        while i < n
            invariant
                state.grid.wf(),
                state.resources.salvage >= spec_salvage_cost(building_type),
                (width, height) == spec_building_size(building_type),
                n == width * height,
                i <= n,
                0 <= position.x,
                0 <= position.y,
                position.x + width <= state.grid.width,
                position.y + height <= state.grid.height,
                first_problem(*state, position, height, i as int) is None,
            decreases n - i,
        {
            let dx: u32 = i / height;
            let dy: u32 = i % height;
            proof {
                assert(dx < width) by (nonlinear_arith)
                    requires
                        dx == i / height,
                        i < width * height,
                        height > 0,
                ;
            }
            let check = Position::new(position.x + dx as i32, position.y + dy as i32);
            assert(check == footprint_cell(position, height, i as int));
            let cell = match state.grid.get_cell(check.x, check.y) {
                Some(c) => c,
                None => {
                    return Some(text("Footprint leaves the map."));
                },
            };
            if cell.building_id.is_some() || !cell.is_walkable() {
                proof {
                    assert(cell_problem(*cell) != 0);
                    assert(first_problem(*state, position, height, i + 1) == Some(i as int));
                    lemma_first_problem_stable(*state, position, height, i + 1, n as int);
                    assert(first_problem(*state, position, height, (width * height) as int) == Some(i as int));
                }
                let ghost fc = footprint_cell(position, height, i as int);
                assert(*cell == state.grid.cell(fc.x as int, fc.y as int));
                if cell.building_id.is_some() {
                    return Some(text("Footprint overlaps another building."));
                }
                return Some(text("Footprint overlaps blocked terrain."));
            }
            i = i + 1;
        }
        None
    }

    /// The log line for a placed building.
    pub fn placement_log_detail(feedback: &BuildingPlacementFeedback, building_id: u32, remaining_salvage: i32) -> (r: String)
        ensures
            r@ == spec_placement_log_detail(*feedback, building_id, remaining_salvage),
    {
        let mut s = String::new();
        s.append("Added ");
        s.append(feedback.helps);
        s.append(" support: ");
        s.append(feedback.impact);
        s.append(" Building #");
        push_decimal(&mut s, building_id as u64);
        s.append(" cost ");
        push_signed(&mut s, feedback.cost as i64);
        s.append(" salvage; ");
        push_signed(&mut s, remaining_salvage as i64);
        s.append(" remain.");
        s
    }
}


proof fn lemma_no_problem_before(s: GameState, pos: Position, height: u32, n: int, i: int)
    requires
        0 <= i < n,
        first_problem(s, pos, height, n) is None,
    ensures
        cell_problem(s.grid.cell(footprint_cell(pos, height, i).x as int, footprint_cell(pos, height, i).y as int)) == 0,
    decreases n,
{
    if i < n - 1 {
        lemma_no_problem_before(s, pos, height, n - 1, i);
    }
}

/// When the placement panel reports no problem, the footprint fits on the
/// map and every cell of it is free: placing the building there succeeds.
pub proof fn law_clear_feedback_means_placement(s: GameState, t: BuildingType, pos: Position)
    requires
        s.grid.wf(),
        spec_invalid_reason(s, t, pos) is None,
    ensures
        crate::building_system::fits(s.grid, t, pos),
        s.grid.area_free(pos, spec_building_size(t).0 as int, spec_building_size(t).1 as int),
        s.resources.salvage >= spec_salvage_cost(t),
{
    let w = spec_building_size(t).0;
    let h = spec_building_size(t).1;
    assert forall|a: int, b: int| crate::grid::in_footprint(pos, w as int, h as int, a, b) implies {
        &&& s.grid.in_bounds(a, b)
        &&& spec_walkable(#[trigger] s.grid.cell(a, b))
    } by {
        let i = (a - pos.x) * h + (b - pos.y);
        assert(0 <= i < w * h) by (nonlinear_arith)
            requires
                0 <= a - pos.x < w,
                0 <= b - pos.y < h,
                i == (a - pos.x) * h + (b - pos.y),
        ;
        assert(i / (h as int) == a - pos.x && i % (h as int) == b - pos.y) by (nonlinear_arith)
            requires
                0 <= a - pos.x,
                0 <= b - pos.y < h,
                i == (a - pos.x) * h + (b - pos.y),
        ;
        lemma_no_problem_before(s, pos, h, (w * h) as int, i);
    }
}

} // verus!
