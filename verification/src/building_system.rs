//! Building placement with validation and undo.
use crate::building::{footprint_covers, spec_building_size, Building, BuildingType};
use crate::grid::{in_footprint, with_building, without_building, Grid};
use crate::types::Position;
use vstd::prelude::*;

verus! {

/// Result of attempting to place a building.
#[derive(Clone, Copy, Debug, PartialEq, Eq, Structural)]
pub enum PlacementResult {
    /// Building was placed successfully, with this id.
    Success(u32),
    /// The footprint leaves the grid.
    OutOfBounds,
    /// The footprint overlaps an existing building or unwalkable terrain.
    AreaOccupied,
}

/// Whether building `bd` covers cell (a, b).
pub open spec fn covers_at(bd: Building, a: int, b: int) -> bool {
    in_footprint(
        bd.position,
        spec_building_size(bd.building_type).0 as int,
        spec_building_size(bd.building_type).1 as int,
        a,
        b,
    )
}

/// The id of the most recently listed building that covers (a, b).
pub open spec fn owner(bs: Seq<Building>, a: int, b: int) -> Option<u32>
    decreases bs.len(),
{
    if bs.len() == 0 {
        None
    } else if covers_at(bs.last(), a, b) {
        Some(bs.last().id)
    } else {
        owner(bs.drop_last(), a, b)
    }
}

/// No two listed buildings cover the same cell.
pub open spec fn disjoint(bs: Seq<Building>) -> bool {
    forall|i: int, j: int, a: int, b: int|
        0 <= i < bs.len() && 0 <= j < bs.len() && i != j && #[trigger] covers_at(bs[i], a, b)
            ==> !#[trigger] covers_at(bs[j], a, b)
}

/// Whether the footprint of a building of type `t` at `pos` lies on the grid.
pub open spec fn fits(g: Grid, t: BuildingType, pos: Position) -> bool {
    &&& pos.x >= 0
    &&& pos.y >= 0
    &&& pos.x + spec_building_size(t).0 <= g.width
    &&& pos.y + spec_building_size(t).1 <= g.height
}

proof fn lemma_owner_none(bs: Seq<Building>, a: int, b: int)
    ensures
        owner(bs, a, b) is None <==> (forall|k: int| 0 <= k < bs.len() ==> !covers_at(#[trigger] bs[k], a, b)),
    decreases bs.len(),
{
    if bs.len() > 0 {
        lemma_owner_none(bs.drop_last(), a, b);
        if owner(bs, a, b) is None {
            assert forall|k: int| 0 <= k < bs.len() implies !covers_at(#[trigger] bs[k], a, b) by {
                if k < bs.len() - 1 {
                    assert(bs.drop_last()[k] == bs[k]);
                }
            }
        } else if !covers_at(bs.last(), a, b) {
            let k = choose|k: int| 0 <= k < bs.len() - 1 && covers_at(#[trigger] bs.drop_last()[k], a, b);
            assert(bs[k] == bs.drop_last()[k]);
        }
    }
}

proof fn lemma_owner_covering(bs: Seq<Building>, k: int, a: int, b: int)
    requires
        disjoint(bs),
        0 <= k < bs.len(),
        covers_at(bs[k], a, b),
    ensures
        owner(bs, a, b) == Some(bs[k].id),
    decreases bs.len(),
{
    if k < bs.len() - 1 {
        assert(!covers_at(bs[bs.len() - 1], a, b));
        let d = bs.drop_last();
        assert(d[k] == bs[k]);
        assert forall|i: int, j: int, x: int, y: int|
            0 <= i < d.len() && 0 <= j < d.len() && i != j && #[trigger] covers_at(d[i], x, y)
                implies !#[trigger] covers_at(d[j], x, y) by {
            assert(d[i] == bs[i]);
            assert(d[j] == bs[j]);
        }
        lemma_owner_covering(d, k, a, b);
    }
}

proof fn lemma_owner_bounded(bs: Seq<Building>, bound: u32, a: int, b: int)
    requires
        forall|k: int| 0 <= k < bs.len() ==> #[trigger] bs[k].id < bound,
    ensures
        owner(bs, a, b) matches Some(id) ==> id < bound,
    decreases bs.len(),
{
    if bs.len() > 0 {
        let d = bs.drop_last();
        assert forall|k: int| 0 <= k < d.len() implies #[trigger] d[k].id < bound by {
            assert(d[k] == bs[k]);
        }
        lemma_owner_bounded(d, bound, a, b);
    }
}

/// Manages building placement, storage, and undo.
#[derive(Clone, Debug)]
pub struct BuildingSystem {
    /// All placed buildings, in placement order.
    buildings: Vec<Building>,
    /// Next building id to assign.
    next_id: u32,
    /// Ids of placed buildings, most recent last.
    undo_stack: Vec<u32>,
}

impl BuildingSystem {
    /// The placed buildings, in placement order.
    pub closed spec fn placed(&self) -> Seq<Building> {
        self.buildings@
    }

    /// The id the next placement will receive.
    pub closed spec fn upcoming_id(&self) -> u32 {
        self.next_id
    }

    /// The ids that undo will remove, most recent last.
    pub closed spec fn undo_ids(&self) -> Seq<u32> {
        self.undo_stack@
    }

    /// The system and the grid describe the same settlement: the undo stack
    /// lists the buildings' ids in order, ids increase and stay below the
    /// next id, buildings lie on the grid without overlapping, and every
    /// cell records exactly the building that covers it.
    pub closed spec fn consistent(&self, grid: &Grid) -> bool {
        let bs = self.buildings@;
        &&& self.layout_ok(grid)
        &&& self.undo_stack@.len() == bs.len()
        &&& forall|k: int| 0 <= k < bs.len() ==> #[trigger] self.undo_stack@[k] == bs[k].id
    }

    /// A consistent settlement lies on a well-formed grid.
    pub proof fn lemma_consistent_grid(&self, grid: &Grid)
        requires
            self.consistent(grid),
        ensures
            grid.wf(),
    {
    }

    /// The buildings and the grid agree, regardless of the undo stack.
    closed spec fn layout_ok(&self, grid: &Grid) -> bool {
        let bs = self.buildings@;
        &&& grid.wf()
        &&& forall|i: int, j: int| 0 <= i < j < bs.len() ==> #[trigger] bs[i].id < #[trigger] bs[j].id
        &&& forall|k: int| 0 <= k < bs.len() ==> #[trigger] bs[k].id < self.next_id
        &&& forall|k: int| 0 <= k < bs.len() ==> fits(*grid, #[trigger] bs[k].building_type, bs[k].position)
        &&& disjoint(bs)
        &&& forall|a: int, b: int| grid.in_bounds(a, b) ==> #[trigger] grid.cell(a, b).building_id == owner(bs, a, b)
    }

    pub fn new() -> (s: BuildingSystem)
        ensures
            s.placed() == Seq::<Building>::empty(),
            s.undo_ids() == Seq::<u32>::empty(),
            s.upcoming_id() == 1,
    {
        BuildingSystem { buildings: Vec::new(), next_id: 1, undo_stack: Vec::new() }
    }

    /// A fresh system is consistent with any grid that has no buildings on it.
    pub proof fn lemma_new_consistent(&self, grid: &Grid)
        requires
            grid.wf(),
            self.placed() == Seq::<Building>::empty(),
            self.undo_ids() == Seq::<u32>::empty(),
            forall|a: int, b: int| grid.in_bounds(a, b) ==> #[trigger] grid.cell(a, b).building_id is None,
        ensures
            self.consistent(grid),
    {
    }
}

/// What `try_place_building` does: it refuses a footprint that leaves the
/// grid, then one that is not entirely free, changing nothing in either
/// case; otherwise it records a new building under the next id, pushes that
/// id on the undo stack, and marks the footprint on the grid.
pub open spec fn placement_post(
    s0: BuildingSystem,
    g0: Grid,
    t: BuildingType,
    pos: Position,
    s1: BuildingSystem,
    g1: Grid,
    r: PlacementResult,
) -> bool {
    let w = spec_building_size(t).0 as int;
    let h = spec_building_size(t).1 as int;
    if !fits(g0, t, pos) {
        r == PlacementResult::OutOfBounds && s1 == s0 && g1 == g0
    } else if !g0.area_free(pos, w, h) {
        r == PlacementResult::AreaOccupied && s1 == s0 && g1 == g0
    } else {
        &&& r == PlacementResult::Success(s0.upcoming_id())
        &&& s1.placed() == s0.placed().push(Building { id: s0.upcoming_id(), building_type: t, position: pos })
        &&& s1.undo_ids() == s0.undo_ids().push(s0.upcoming_id())
        &&& s1.upcoming_id() == s0.upcoming_id() + 1
        &&& g1.width == g0.width
        &&& g1.height == g0.height
        &&& forall|a: int, b: int| #![trigger g1.cell(a, b)]
            g0.in_bounds(a, b) ==> g1.cell(a, b) == (
                if in_footprint(pos, w, h, a, b) {
                    with_building(g0.cell(a, b), s0.upcoming_id())
                } else {
                    g0.cell(a, b)
                }
            )
    }
}

/// What `undo_last_placement` does: with an empty undo stack nothing
/// changes; otherwise the most recent building is removed, its id returned,
/// and its cells cleared on the grid.
pub open spec fn undo_post(
    s0: BuildingSystem,
    g0: Grid,
    s1: BuildingSystem,
    g1: Grid,
    r: Option<u32>,
) -> bool {
    if s0.undo_ids().len() == 0 {
        &&& r is None
        &&& s1.placed() == s0.placed()
        &&& s1.undo_ids() == s0.undo_ids()
        &&& s1.upcoming_id() == s0.upcoming_id()
        &&& g1 == g0
    } else {
        let id = s0.undo_ids().last();
        &&& r == Some(id)
        &&& s1.placed() == s0.placed().drop_last()
        &&& s1.undo_ids() == s0.undo_ids().drop_last()
        &&& s1.upcoming_id() == s0.upcoming_id()
        &&& g1.width == g0.width
        &&& g1.height == g0.height
        &&& forall|a: int, b: int| #![trigger g1.cell(a, b)]
            g0.in_bounds(a, b) ==> g1.cell(a, b) == (
                if g0.cell(a, b).building_id == Some(id) {
                    without_building(g0.cell(a, b))
                } else {
                    g0.cell(a, b)
                }
            )
    }
}

impl BuildingSystem {
    /// Attempt to place a building at the given position.
    pub fn try_place_building(&mut self, grid: &mut Grid, building_type: BuildingType, position: Position) -> (r: PlacementResult)
        requires
            old(self).consistent(old(grid)),
            old(self).upcoming_id() < u32::MAX,
        ensures
            final(self).consistent(final(grid)),
            placement_post(*old(self), *old(grid), building_type, position, *final(self), *final(grid), r),
    {
        let (width, height) = building_type.size();
        if position.x < 0 || position.y < 0 {
            return PlacementResult::OutOfBounds;
        }
        if position.x as u64 + width as u64 > grid.width as u64
            || position.y as u64 + height as u64 > grid.height as u64 {
            return PlacementResult::OutOfBounds;
        }
        if !grid.is_area_free_for_building(position, width, height) {
            return PlacementResult::AreaOccupied;
        }
        let ghost s0 = *self;
        let ghost g0 = *grid;
        let building_id = self.next_id;
        self.next_id = self.next_id + 1;
        let placed = grid.occupy_area(position, width, height, building_id);
        if !placed {
            return PlacementResult::AreaOccupied;
        }
        let building = Building::new(building_id, building_type, position);
        self.buildings.push(building);
        self.undo_stack.push(building_id);
        proof {
            let bs0 = s0.buildings@;
            let bs = self.buildings@;
            assert(bs.drop_last() == bs0);
            assert forall|i: int, j: int, a: int, b: int|
                0 <= i < bs.len() && 0 <= j < bs.len() && i != j && #[trigger] covers_at(bs[i], a, b)
                    implies !#[trigger] covers_at(bs[j], a, b) by {
                if i == bs.len() - 1 || j == bs.len() - 1 {
                    let k = if i == bs.len() - 1 { j } else { i };
                    if covers_at(bs[j], a, b) {
                        assert(in_footprint(position, width as int, height as int, a, b));
                        let c = g0.cell(a, b);
                        assert(g0.in_bounds(a, b));
                        lemma_owner_none(bs0, a, b);
                        assert(bs[k] == bs0[k]);
                        assert(covers_at(bs0[k], a, b));
                    }
                } else {
                    assert(bs[i] == bs0[i]);
                    assert(bs[j] == bs0[j]);
                }
            }
            assert forall|a: int, b: int| grid.in_bounds(a, b) implies #[trigger] grid.cell(a, b).building_id == owner(bs, a, b) by {
                assert(g0.in_bounds(a, b));
                let c = g0.cell(a, b);
            }
            assert forall|k: int| 0 <= k < bs.len() implies fits(*grid, #[trigger] bs[k].building_type, bs[k].position) by {
                if k < bs.len() - 1 {
                    assert(bs[k] == bs0[k]);
                }
            }
            assert forall|i: int, j: int| 0 <= i < j < bs.len() implies #[trigger] bs[i].id < #[trigger] bs[j].id by {
                if j < bs.len() - 1 {
                    assert(bs[i] == bs0[i]);
                    assert(bs[j] == bs0[j]);
                } else {
                    assert(bs[i] == bs0[i]);
                }
            }
            assert forall|k: int| 0 <= k < bs.len() implies #[trigger] bs[k].id < self.next_id by {
                if k < bs.len() - 1 {
                    assert(bs[k] == bs0[k]);
                }
            }
            assert forall|k: int| 0 <= k < bs.len() implies #[trigger] self.undo_stack@[k] == bs[k].id by {
                if k < bs.len() - 1 {
                    assert(bs[k] == bs0[k]);
                }
            }
        }
        PlacementResult::Success(building_id)
    }
}

impl BuildingSystem {
    /// Removes the building with the given id, if any, and clears its cells,
    /// leaving the undo stack alone.
    fn remove_building_internal(&mut self, grid: &mut Grid, building_id: u32) -> (r: bool)
        requires
            old(self).layout_ok(old(grid)),
        ensures
            final(self).layout_ok(final(grid)),
            final(self).next_id == old(self).next_id,
            final(self).undo_stack == old(self).undo_stack,
            r == (exists|k: int| 0 <= k < old(self).buildings@.len() && #[trigger] old(self).buildings@[k].id == building_id),
            r ==> forall|k: int| 0 <= k < old(self).buildings@.len() && #[trigger] old(self).buildings@[k].id == building_id
                ==> final(self).buildings@ == old(self).buildings@.remove(k),
            !r ==> *final(self) == *old(self) && *final(grid) == *old(grid),
            final(grid).width == old(grid).width,
            final(grid).height == old(grid).height,
            forall|a: int, b: int| #![trigger final(grid).cell(a, b)]
                old(grid).in_bounds(a, b) ==> final(grid).cell(a, b) == (
                    if old(grid).cell(a, b).building_id == Some(building_id) {
                        without_building(old(grid).cell(a, b))
                    } else {
                        old(grid).cell(a, b)
                    }
                ),
    {
        let ghost bs = self.buildings@;
        let ghost g0 = *grid;
        let mut idx: usize = 0;
        while idx < self.buildings.len()
            invariant
                idx <= self.buildings@.len(),
                self.buildings@ == bs,
                forall|k: int| 0 <= k < idx ==> #[trigger] bs[k].id != building_id,
            ensures
                idx <= bs.len(),
                idx < bs.len() ==> bs[idx as int].id == building_id,
                forall|k: int| 0 <= k < idx ==> #[trigger] bs[k].id != building_id,
            decreases self.buildings@.len() - idx,
        {
            if self.buildings[idx].id == building_id {
                break;
            }
            idx = idx + 1;
        }
        if idx == self.buildings.len() {
            proof {
                assert forall|a: int, b: int| #![trigger grid.cell(a, b)]
                    g0.in_bounds(a, b) implies g0.cell(a, b).building_id != Some(building_id) by {
                    let o = owner(bs, a, b);
                    lemma_owner_none(bs, a, b);
                    if o is Some {
                        let j = choose|j: int| 0 <= j < bs.len() && covers_at(#[trigger] bs[j], a, b);
                        lemma_owner_covering(bs, j, a, b);
                    }
                }
            }
            return false;
        }
        let ghost k = idx as int;
        grid.clear_building(building_id);
        self.buildings.remove(idx);
        proof {
            let nb = self.buildings@;
            assert(nb == bs.remove(k));
            assert forall|i: int, j: int| 0 <= i < j < nb.len() implies #[trigger] nb[i].id < #[trigger] nb[j].id by {
                let oi = if i < k { i } else { i + 1 };
                let oj = if j < k { j } else { j + 1 };
                assert(nb[i] == bs[oi]);
                assert(nb[j] == bs[oj]);
            }
            assert forall|i: int| 0 <= i < nb.len() implies #[trigger] nb[i].id < self.next_id by {
                let oi = if i < k { i } else { i + 1 };
                assert(nb[i] == bs[oi]);
            }
            assert forall|i: int| 0 <= i < nb.len() implies fits(*grid, #[trigger] nb[i].building_type, nb[i].position) by {
                let oi = if i < k { i } else { i + 1 };
                assert(nb[i] == bs[oi]);
            }
            assert forall|i: int, j: int, a: int, b: int|
                0 <= i < nb.len() && 0 <= j < nb.len() && i != j && #[trigger] covers_at(nb[i], a, b)
                    implies !#[trigger] covers_at(nb[j], a, b) by {
                let oi = if i < k { i } else { i + 1 };
                let oj = if j < k { j } else { j + 1 };
                assert(nb[i] == bs[oi]);
                assert(nb[j] == bs[oj]);
            }
            assert forall|a: int, b: int| grid.in_bounds(a, b) implies #[trigger] grid.cell(a, b).building_id == owner(nb, a, b) by {
                assert(g0.in_bounds(a, b));
                let c = g0.cell(a, b);
                lemma_owner_none(bs, a, b);
                lemma_owner_none(nb, a, b);
                if covers_at(bs[k], a, b) {
                    lemma_owner_covering(bs, k, a, b);
                    assert forall|i: int| 0 <= i < nb.len() implies !covers_at(#[trigger] nb[i], a, b) by {
                        let oi = if i < k { i } else { i + 1 };
                        assert(nb[i] == bs[oi]);
                    }
                } else if owner(bs, a, b) is Some {
                    let j = choose|j: int| 0 <= j < bs.len() && covers_at(#[trigger] bs[j], a, b);
                    lemma_owner_covering(bs, j, a, b);
                    assert(j != k);
                    let nj = if j < k { j } else { j - 1 };
                    assert(nb[nj] == bs[j]);
                    lemma_owner_covering(nb, nj, a, b);
                } else {
                    assert forall|i: int| 0 <= i < nb.len() implies !covers_at(#[trigger] nb[i], a, b) by {
                        let oi = if i < k { i } else { i + 1 };
                        assert(nb[i] == bs[oi]);
                    }
                }
            }
            assert forall|kk: int| 0 <= kk < bs.len() && #[trigger] bs[kk].id == building_id implies nb == bs.remove(kk) by {
                if kk < k {
                } else if kk > k {
                    assert(bs[k].id < bs[kk].id);
                }
            }
        }
        true
    }

    /// Undo the most recent placement: removes that building, clears its
    /// cells, and returns its id.
    pub fn undo_last_placement(&mut self, grid: &mut Grid) -> (r: Option<u32>)
        requires
            old(self).consistent(old(grid)),
        ensures
            final(self).consistent(final(grid)),
            undo_post(*old(self), *old(grid), *final(self), *final(grid), r),
    {
        let ghost s0 = *self;
        let ghost g0 = *grid;
        match self.undo_stack.pop() {
            Some(building_id) => {
                proof {
                    let last = s0.buildings@.len() - 1;
                    assert(s0.undo_stack@[last] == s0.buildings@[last].id);
                }
                proof {
                    let last = s0.buildings@.len() - 1;
                    assert(s0.buildings@[last].id == building_id);
                }
                let removed = self.remove_building_internal(grid, building_id);
                if removed {
                    proof {
                        let last = s0.buildings@.len() - 1;
                        assert(s0.buildings@.remove(last) == s0.buildings@.drop_last());
                        assert forall|k: int| 0 <= k < self.buildings@.len() implies #[trigger] self.undo_stack@[k] == self.buildings@[k].id by {
                            assert(self.buildings@[k] == s0.buildings@[k]);
                        }
                    }
                    Some(building_id)
                } else {
                    None
                }
            },
            None => None,
        }
    }
}

/// `b` is the first listed building satisfying the id match.
pub open spec fn first_with_id(bs: Seq<Building>, id: u32, b: Building) -> bool {
    exists|k: int| 0 <= k < bs.len() && bs[k] == b && b.id == id
        && forall|j: int| 0 <= j < k ==> #[trigger] bs[j].id != id
}

/// `b` is the first listed building covering `pos`.
pub open spec fn first_covering(bs: Seq<Building>, pos: Position, b: Building) -> bool {
    exists|k: int| 0 <= k < bs.len() && bs[k] == b && b.covers(pos)
        && forall|j: int| 0 <= j < k ==> !(#[trigger] bs[j]).covers(pos)
}

impl BuildingSystem {
    /// Get a building by id.
    pub fn get_building(&self, building_id: u32) -> (r: Option<&Building>)
        ensures
            match r {
                Some(b) => first_with_id(self.placed(), building_id, *b),
                None => forall|k: int| 0 <= k < self.placed().len() ==> #[trigger] self.placed()[k].id != building_id,
            },
    {
        let mut i: usize = 0;
        while i < self.buildings.len()
            invariant
                i <= self.buildings@.len(),
                forall|k: int| 0 <= k < i ==> #[trigger] self.buildings@[k].id != building_id,
            decreases self.buildings@.len() - i,
        {
            if self.buildings[i].id == building_id {
                return Some(&self.buildings[i]);
            }
            i = i + 1;
        }
        None
    }

    /// The most recently placed building that undo would remove.
    pub fn last_placed_building(&self) -> (r: Option<&Building>)
        ensures
            self.undo_ids().len() == 0 ==> r is None,
            self.undo_ids().len() > 0 ==> match r {
                Some(b) => first_with_id(self.placed(), self.undo_ids().last(), *b),
                None => forall|k: int| 0 <= k < self.placed().len()
                    ==> #[trigger] self.placed()[k].id != self.undo_ids().last(),
            },
    {
        let n = self.undo_stack.len();
        if n == 0 {
            None
        } else {
            let id = self.undo_stack[n - 1];
            self.get_building(id)
        }
    }

    /// The building standing on a grid position, if any.
    pub fn get_building_at(&self, pos: Position) -> (r: Option<&Building>)
        ensures
            match r {
                Some(b) => first_covering(self.placed(), pos, *b),
                None => forall|k: int| 0 <= k < self.placed().len() ==> !(#[trigger] self.placed()[k]).covers(pos),
            },
    {
        let mut i: usize = 0;
        while i < self.buildings.len()
            invariant
                i <= self.buildings@.len(),
                forall|k: int| 0 <= k < i ==> !(#[trigger] self.buildings@[k]).covers(pos),
            decreases self.buildings@.len() - i,
        {
            if self.buildings[i].occupies(pos) {
                return Some(&self.buildings[i]);
            }
            i = i + 1;
        }
        None
    }

    /// All placed buildings, in placement order.
    pub fn buildings(&self) -> (r: &[Building])
        ensures
            r@ == self.placed(),
    {
        self.buildings.as_slice()
    }

    /// The id the next placement will receive.
    pub fn next_building_id(&self) -> (r: u32)
        ensures
            r == self.upcoming_id(),
    {
        self.next_id
    }

    /// The number of placed buildings.
    pub fn building_count(&self) -> (r: usize)
        ensures
            r == self.placed().len(),
    {
        self.buildings.len()
    }

    /// Whether a placement would succeed (for the placement preview).
    pub fn can_place_building(&self, grid: &Grid, building_type: BuildingType, position: Position) -> (r: bool)
        requires
            grid.wf(),
        ensures
            r == (fits(*grid, building_type, position) && grid.area_free(
                position,
                spec_building_size(building_type).0 as int,
                spec_building_size(building_type).1 as int,
            )),
    {
        let (width, height) = building_type.size();
        if position.x < 0 || position.y < 0 {
            return false;
        }
        if position.x as u64 + width as u64 > grid.width as u64
            || position.y as u64 + height as u64 > grid.height as u64 {
            return false;
        }
        grid.is_area_free_for_building(position, width, height)
    }

    /// Ids are issued in increasing order: every placed building's id is
    /// below the next id, and later buildings have larger ids, so a new
    /// building's id exceeds every id placed before it.
    pub proof fn law_fresh_ids(&self, grid: &Grid)
        requires
            self.consistent(grid),
        ensures
            forall|k: int| 0 <= k < self.placed().len() ==> #[trigger] self.placed()[k].id < self.upcoming_id(),
            forall|i: int, j: int| 0 <= i < j < self.placed().len() ==> #[trigger] self.placed()[i].id < #[trigger] self.placed()[j].id,
    {
    }

    /// Every placed building lies on the map, at most one building covers
    /// any cell, and each covered cell records that building.
    pub proof fn law_one_building_per_cell(&self, grid: &Grid)
        requires
            self.consistent(grid),
        ensures
            disjoint(self.placed()),
            forall|k: int, a: int, b: int| 0 <= k < self.placed().len() && #[trigger] covers_at(self.placed()[k], a, b)
                ==> grid.in_bounds(a, b),
            forall|k: int, a: int, b: int| 0 <= k < self.placed().len() && #[trigger] covers_at(self.placed()[k], a, b)
                ==> #[trigger] grid.cell(a, b).building_id == Some(self.placed()[k].id),
    {
        assert forall|k: int, a: int, b: int| 0 <= k < self.placed().len() && #[trigger] covers_at(self.placed()[k], a, b)
            implies grid.in_bounds(a, b) && #[trigger] grid.cell(a, b).building_id == Some(self.placed()[k].id) by {
            assert(fits(*grid, self.buildings@[k].building_type, self.buildings@[k].position));
            lemma_owner_covering(self.buildings@, k, a, b);
        }
    }

    /// The building found at a position (see `get_building_at`) lies on the
    /// map, is the only building covering that position, and the map cell
    /// there records its id; a position on the map that no building covers
    /// records no building.
    pub proof fn law_building_at_matches_grid(&self, grid: &Grid, pos: Position)
        requires
            self.consistent(grid),
        ensures
            forall|b: Building| #[trigger] first_covering(self.placed(), pos, b) ==> {
                &&& grid.in_bounds(pos.x as int, pos.y as int)
                &&& grid.cell(pos.x as int, pos.y as int).building_id == Some(b.id)
                &&& forall|k: int| 0 <= k < self.placed().len() && (#[trigger] self.placed()[k]).covers(pos)
                    ==> self.placed()[k] == b
            },
            (forall|k: int| 0 <= k < self.placed().len() ==> !(#[trigger] self.placed()[k]).covers(pos))
                && grid.in_bounds(pos.x as int, pos.y as int)
                ==> grid.cell(pos.x as int, pos.y as int).building_id is None,
    {
        let bs = self.buildings@;
        let (a, c) = (pos.x as int, pos.y as int);
        assert forall|b: Building| #[trigger] first_covering(self.placed(), pos, b) implies {
            &&& grid.in_bounds(a, c)
            &&& grid.cell(a, c).building_id == Some(b.id)
            &&& forall|k: int| 0 <= k < self.placed().len() && (#[trigger] self.placed()[k]).covers(pos)
                ==> self.placed()[k] == b
        } by {
            let i = choose|i: int| 0 <= i < bs.len() && bs[i] == b && b.covers(pos)
                && forall|j: int| 0 <= j < i ==> !(#[trigger] bs[j]).covers(pos);
            assert(covers_at(bs[i], a, c));
            assert(fits(*grid, bs[i].building_type, bs[i].position));
            lemma_owner_covering(bs, i, a, c);
            assert forall|k: int| 0 <= k < self.placed().len() && (#[trigger] self.placed()[k]).covers(pos)
                implies self.placed()[k] == b by {
                assert(covers_at(bs[k], a, c));
                if k != i {
                    assert(!covers_at(bs[k], a, c));
                }
            }
        }
        if (forall|k: int| 0 <= k < self.placed().len() ==> !(#[trigger] self.placed()[k]).covers(pos)) && grid.in_bounds(a, c) {
            assert forall|k: int| 0 <= k < bs.len() implies !covers_at(#[trigger] bs[k], a, c) by {
                assert(!bs[k].covers(pos));
            }
            lemma_owner_none(bs, a, c);
        }
    }

    /// Undo reverts a placement: placing a building and then undoing gives
    /// back the same buildings, the same undo stack and the same grid cells.
    pub proof fn law_undo_reverts_placement(
        s0: BuildingSystem,
        g0: Grid,
        t: BuildingType,
        pos: Position,
        s1: BuildingSystem,
        g1: Grid,
        r1: PlacementResult,
        s2: BuildingSystem,
        g2: Grid,
        r2: Option<u32>,
    )
        requires
            s0.consistent(&g0),
            placement_post(s0, g0, t, pos, s1, g1, r1),
            r1 is Success,
            undo_post(s1, g1, s2, g2, r2),
        ensures
            r2 == Some(s0.upcoming_id()),
            s2.placed() == s0.placed(),
            s2.undo_ids() == s0.undo_ids(),
            g2.same_cells(&g0),
    {
        let id = s0.upcoming_id();
        assert(s1.undo_ids().last() == id);
        assert(s1.placed().drop_last() == s0.placed());
        assert(s1.undo_ids().drop_last() == s0.undo_ids());
        let w = spec_building_size(t).0 as int;
        let h = spec_building_size(t).1 as int;
        assert forall|a: int, b: int| g2.in_bounds(a, b) implies #[trigger] g2.cell(a, b) == g0.cell(a, b) by {
            assert(g0.in_bounds(a, b));
            let c1 = g1.cell(a, b);
            let c0 = g0.cell(a, b);
            if in_footprint(pos, w, h, a, b) {
                assert(crate::grid::spec_walkable(c0));
            } else {
                lemma_owner_bounded(s0.buildings@, s0.next_id, a, b);
            }
        }
    }
}


/// The building the undo stack names last is the most recently placed one.
pub proof fn lemma_last_placed_is_last(s: BuildingSystem, g: Grid)
    requires
        s.consistent(&g),
        s.undo_ids().len() > 0,
    ensures
        s.placed().len() == s.undo_ids().len(),
        s.placed().last().id == s.undo_ids().last(),
        forall|b: Building| #[trigger] first_with_id(s.placed(), s.undo_ids().last(), b) ==> b == s.placed().last(),
{
    let bs = s.placed();
    let n = bs.len() - 1;
    assert(s.undo_ids()[n] == bs[n].id);
    assert forall|b: Building| #[trigger] first_with_id(s.placed(), s.undo_ids().last(), b) implies b == s.placed().last() by {
        let k = choose|k: int| 0 <= k < bs.len() && bs[k] == b && b.id == s.undo_ids().last()
            && forall|j: int| 0 <= j < k ==> #[trigger] bs[j].id != s.undo_ids().last();
        if k < n {
            assert(bs[k].id < bs[n].id);
        }
    }
}

} // verus!
