use crate::types::Position;
use vstd::prelude::*;

verus! {

/// Default grid width of a new settlement map.
pub const GRID_WIDTH: usize = 26;

/// Default grid height of a new settlement map.
pub const GRID_HEIGHT: usize = 24;

/// The terrain of a cell.
#[derive(Clone, Copy, Debug, PartialEq, Eq, Structural)]
pub enum CellType {
    Empty,
    Floor,
    Wall,
}

/// One cell of the grid: its terrain and the building, if any, standing on it.
#[derive(Clone, Copy, Debug, PartialEq, Eq, Structural)]
pub struct Cell {
    pub cell_type: CellType,
    pub building_id: Option<u32>,
}

/// An empty cell with no building.
pub open spec fn empty_cell() -> Cell {
    Cell { cell_type: CellType::Empty, building_id: None }
}

/// The same cell with other terrain.
pub open spec fn with_terrain(c: Cell, t: CellType) -> Cell {
    Cell { cell_type: t, building_id: c.building_id }
}

/// A cell can be walked on when its terrain is open and no building stands on it.
pub open spec fn spec_walkable(c: Cell) -> bool {
    (c.cell_type == CellType::Floor || c.cell_type == CellType::Empty) && c.building_id is None
}

impl Cell {
    pub fn default() -> (c: Cell)
        ensures
            c.cell_type == CellType::Empty,
            c.building_id is None,
    {
        Cell { cell_type: CellType::Empty, building_id: None }
    }

    pub fn is_walkable(&self) -> (r: bool)
        ensures
            r == spec_walkable(*self),
    {
        match self.cell_type {
            CellType::Floor | CellType::Empty => self.building_id.is_none(),
            CellType::Wall => false,
        }
    }
}

/// Row-major index of cell (x, y) in a grid of the given width.
pub open spec fn cell_index(width: int, x: int, y: int) -> int {
    y * width + x
}

pub proof fn lemma_cell_index_bounds(width: int, height: int, x: int, y: int)
    requires
        0 <= x < width,
        0 <= y < height,
    ensures
        0 <= cell_index(width, x, y) < width * height,
{
    assert(0 <= y * width + x < width * height) by (nonlinear_arith)
        requires
            0 <= x < width,
            0 <= y < height,
    ;
}

pub proof fn lemma_cell_index_injective(width: int, x1: int, y1: int, x2: int, y2: int)
    requires
        0 <= x1 < width,
        0 <= x2 < width,
        0 <= y1,
        0 <= y2,
        cell_index(width, x1, y1) == cell_index(width, x2, y2),
    ensures
        x1 == x2,
        y1 == y2,
{
    assert(y1 == y2) by (nonlinear_arith)
        requires
            0 <= x1 < width,
            0 <= x2 < width,
            0 <= y1,
            0 <= y2,
            y1 * width + x1 == y2 * width + x2,
    ;
}

/// Whether (a, b) lies in the rectangle with corner `tl` and the given size.
pub open spec fn in_footprint(tl: Position, width: int, height: int, a: int, b: int) -> bool {
    tl.x <= a < tl.x + width && tl.y <= b < tl.y + height
}

/// The same cell with no building on it.
pub open spec fn without_building(c: Cell) -> Cell {
    Cell { cell_type: c.cell_type, building_id: None }
}

/// The same cell with the given building on it.
pub open spec fn with_building(c: Cell, id: u32) -> Cell {
    Cell { cell_type: c.cell_type, building_id: Some(id) }
}

/// The candidates, in order, that lie on the grid.
pub open spec fn on_grid(g: Grid, cands: Seq<Position>) -> Seq<Position>
    decreases cands.len(),
{
    if cands.len() == 0 {
        Seq::empty()
    } else {
        let rest = on_grid(g, cands.drop_last());
        if g.in_bounds(cands.last().x as int, cands.last().y as int) {
            rest.push(cands.last())
        } else {
            rest
        }
    }
}

/// The four orthogonal neighbours of (x, y), in the order the game checks them.
pub open spec fn orthogonal_candidates(x: int, y: int) -> Seq<Position> {
    seq![
        pos_at(x, y - 1),
        pos_at(x, y + 1),
        pos_at(x - 1, y),
        pos_at(x + 1, y),
    ]
}

/// The eight surrounding neighbours of (x, y), orthogonal first, then diagonal.
pub open spec fn surrounding_candidates(x: int, y: int) -> Seq<Position> {
    orthogonal_candidates(x, y) + seq![
        pos_at(x - 1, y - 1),
        pos_at(x + 1, y - 1),
        pos_at(x - 1, y + 1),
        pos_at(x + 1, y + 1),
    ]
}

pub open spec fn pos_at(x: int, y: int) -> Position {
    Position { x: x as i32, y: y as i32 }
}

/// The settlement map: a rectangle of cells stored row by row.
#[derive(Clone, Debug)]
pub struct Grid {
    pub width: usize,
    pub height: usize,
    pub cells: Vec<Cell>,
}

impl Grid {
    /// The grid is well formed: one stored cell per coordinate, and
    /// coordinates fit in the `i32` positions the game uses.
    pub open spec fn wf(&self) -> bool {
        &&& self.width <= i32::MAX
        &&& self.height <= i32::MAX
        &&& self.width * self.height <= usize::MAX
        &&& self.cells@.len() == self.width * self.height
    }

    pub open spec fn in_bounds(&self, x: int, y: int) -> bool {
        0 <= x < self.width && 0 <= y < self.height
    }

    /// The cell at (x, y); meaningful for in-bounds coordinates.
    pub open spec fn cell(&self, x: int, y: int) -> Cell {
        self.cells@[cell_index(self.width as int, x, y)]
    }

    /// Two grids agree on every cell.
    pub open spec fn same_cells(&self, other: &Grid) -> bool {
        &&& self.width == other.width
        &&& self.height == other.height
        &&& forall|x: int, y: int| self.in_bounds(x, y) ==> #[trigger] self.cell(x, y) == other.cell(x, y)
    }

    /// Creates a grid of empty cells with the given dimensions.
    pub fn new(width: usize, height: usize) -> (g: Grid)
        requires
            width <= i32::MAX,
            height <= i32::MAX,
            width * height <= usize::MAX,
        ensures
            g.wf(),
            g.width == width,
            g.height == height,
            forall|x: int, y: int| g.in_bounds(x, y) ==> #[trigger] g.cell(x, y) == empty_cell(),
    {
        let n = width * height;
        let mut cells: Vec<Cell> = Vec::new();
        let mut i: usize = 0;
        while i < n
            invariant
                i <= n,
                cells@.len() == i,
                forall|k: int| 0 <= k < i ==> #[trigger] cells@[k] == empty_cell(),
            decreases n - i,
        {
            cells.push(Cell::default());
            i = i + 1;
        }
        let g = Grid { width, height, cells };
        assert forall|x: int, y: int| g.in_bounds(x, y) implies #[trigger] g.cell(x, y) == empty_cell() by {
            lemma_cell_index_bounds(width as int, height as int, x, y);
        }
        g
    }

    /// The default map size.
    pub fn default() -> (g: Grid)
        ensures
            g.wf(),
            g.width == GRID_WIDTH,
            g.height == GRID_HEIGHT,
            forall|x: int, y: int| g.in_bounds(x, y) ==> #[trigger] g.cell(x, y) == empty_cell(),
    {
        Grid::new(GRID_WIDTH, GRID_HEIGHT)
    }

    fn get_index(&self, x: usize, y: usize) -> (r: Option<usize>)
        requires
            self.wf(),
        ensures
            r == (if x < self.width && y < self.height {
                Some(cell_index(self.width as int, x as int, y as int) as usize)
            } else {
                None::<usize>
            }),
    {
        if x < self.width && y < self.height {
            proof {
                lemma_cell_index_bounds(self.width as int, self.height as int, x as int, y as int);
            }
            Some(y * self.width + x)
        } else {
            None
        }
    }

    /// Returns true if the given grid coordinates are within bounds.
    pub fn is_in_bounds(&self, x: i32, y: i32) -> (r: bool)
        ensures
            r == self.in_bounds(x as int, y as int),
    {
        x >= 0 && y >= 0 && (x as usize) < self.width && (y as usize) < self.height
    }

    /// The cell at the given coordinates, if they are on the map.
    pub fn get_cell(&self, x: i32, y: i32) -> (r: Option<&Cell>)
        requires
            self.wf(),
        ensures
            match r {
                Some(c) => self.in_bounds(x as int, y as int) && *c == self.cell(x as int, y as int),
                None => !self.in_bounds(x as int, y as int),
            },
    {
        if self.is_in_bounds(x, y) {
            proof {
                lemma_cell_index_bounds(self.width as int, self.height as int, x as int, y as int);
            }
            match self.get_index(x as usize, y as usize) {
                Some(idx) => Some(&self.cells[idx]),
                None => None,
            }
        } else {
            None
        }
    }

    /// Sets the terrain of the given cell; does nothing outside the map.
    pub fn set_cell_type(&mut self, x: i32, y: i32, cell_type: CellType)
        requires
            old(self).wf(),
        ensures
            final(self).wf(),
            final(self).width == old(self).width,
            final(self).height == old(self).height,
            forall|a: int, b: int| #[trigger] final(self).cell(a, b) == (
                if a == x && b == y && old(self).in_bounds(a, b) {
                    with_terrain(old(self).cell(a, b), cell_type)
                } else if old(self).in_bounds(a, b) {
                    old(self).cell(a, b)
                } else {
                    final(self).cell(a, b)
                }
            ),
    {
        if self.is_in_bounds(x, y) {
            proof {
                lemma_cell_index_bounds(self.width as int, self.height as int, x as int, y as int);
            }
            let idx = y as usize * self.width + x as usize;
            let old_cell = self.cells[idx];
            self.cells.set(idx, Cell { cell_type, building_id: old_cell.building_id });
            proof {
                assert forall|a: int, b: int| old(self).in_bounds(a, b) && !(a == x && b == y) implies
                    #[trigger] self.cell(a, b) == old(self).cell(a, b) by {
                    if cell_index(self.width as int, a, b) == idx as int {
                        lemma_cell_index_injective(self.width as int, a, b, x as int, y as int);
                    }
                    lemma_cell_index_bounds(self.width as int, self.height as int, a, b);
                }
            }
        }
    }
}


impl Grid {
    /// Keeps, in order, the candidate positions that lie on the grid.
    fn keep_on_grid(&self, cands: &[Position]) -> (r: Vec<Position>)
        ensures
            r@ == on_grid(*self, cands@),
    {
        let mut r: Vec<Position> = Vec::new();
        let mut i: usize = 0;
        while i < cands.len()
            invariant
                i <= cands@.len(),
                r@ == on_grid(*self, cands@.take(i as int)),
            decreases cands@.len() - i,
        {
            let p = cands[i];
            assert(cands@.take(i + 1).drop_last() == cands@.take(i as int));
            if self.is_in_bounds(p.x, p.y) {
                r.push(p);
            }
            i = i + 1;
        }
        assert(cands@.take(cands@.len() as int) == cands@);
        r
    }

    /// Returns the 4 cardinal neighbours of a cell that lie on the grid.
    pub fn get_neighbors(&self, x: i32, y: i32) -> (r: Vec<Position>)
        requires
            i32::MIN < x < i32::MAX,
            i32::MIN < y < i32::MAX,
        ensures
            r@ == on_grid(*self, orthogonal_candidates(x as int, y as int)),
    {
        let deltas = [
            Position::new(x, y - 1),
            Position::new(x, y + 1),
            Position::new(x - 1, y),
            Position::new(x + 1, y),
        ];
        assert(deltas@ == orthogonal_candidates(x as int, y as int));
        self.keep_on_grid(&deltas)
    }

    /// Returns the 8 neighbours (including diagonals) of a cell that lie on the grid.
    pub fn get_neighbors_8(&self, x: i32, y: i32) -> (r: Vec<Position>)
        requires
            i32::MIN < x < i32::MAX,
            i32::MIN < y < i32::MAX,
        ensures
            r@ == on_grid(*self, surrounding_candidates(x as int, y as int)),
    {
        let deltas = [
            Position::new(x, y - 1),
            Position::new(x, y + 1),
            Position::new(x - 1, y),
            Position::new(x + 1, y),
            Position::new(x - 1, y - 1),
            Position::new(x + 1, y - 1),
            Position::new(x - 1, y + 1),
            Position::new(x + 1, y + 1),
        ];
        assert(deltas@ == surrounding_candidates(x as int, y as int));
        self.keep_on_grid(&deltas)
    }

    /// The Manhattan distance between two positions.
    pub fn manhattan_distance(a: &Position, b: &Position) -> (d: i32)
        requires
            abs_int(a.x - b.x) + abs_int(a.y - b.y) <= i32::MAX,
        ensures
            d == abs_int(a.x - b.x) + abs_int(a.y - b.y),
    {
        let dx = a.x as i64 - b.x as i64;
        let dy = a.y as i64 - b.y as i64;
        let ax = if dx < 0 { -dx } else { dx };
        let ay = if dy < 0 { -dy } else { dy };
        (ax + ay) as i32
    }

    /// Whether every cell of the rectangle is on the grid and free to build on.
    pub open spec fn area_free(&self, tl: Position, width: int, height: int) -> bool {
        forall|a: int, b: int| in_footprint(tl, width, height, a, b) ==> {
            &&& self.in_bounds(a, b)
            &&& spec_walkable(#[trigger] self.cell(a, b))
        }
    }

    /// Check if an area is free for building placement: every cell is on the
    /// map, open terrain, and not occupied by another building.
    pub fn is_area_free_for_building(&self, top_left: Position, width: u32, height: u32) -> (r: bool)
        requires
            self.wf(),
            width <= i32::MAX,
            height <= i32::MAX,
            top_left.x + width <= i32::MAX + 1,
            top_left.y + height <= i32::MAX + 1,
        ensures
            r == self.area_free(top_left, width as int, height as int),
    {
        let w = width as i32;
        let h = height as i32;
        let mut dx: i32 = 0;
        while dx < w
            invariant
                self.wf(),
                w == width,
                h == height,
                0 <= dx <= w,
                top_left.x + width <= i32::MAX + 1,
                top_left.y + height <= i32::MAX + 1,
                forall|a: int, b: int| in_footprint(top_left, dx as int, h as int, a, b) ==> {
                    &&& self.in_bounds(a, b)
                    &&& spec_walkable(#[trigger] self.cell(a, b))
                },
            decreases w - dx,
        {
            let mut dy: i32 = 0;
            while dy < h
                invariant
                    self.wf(),
                    w == width,
                    h == height,
                    0 <= dx < w,
                    0 <= dy <= h,
                    top_left.x + width <= i32::MAX + 1,
                    top_left.y + height <= i32::MAX + 1,
                    forall|a: int, b: int| in_footprint(top_left, dx as int, h as int, a, b) ==> {
                        &&& self.in_bounds(a, b)
                        &&& spec_walkable(#[trigger] self.cell(a, b))
                    },
                    forall|b: int| top_left.y <= b < top_left.y + dy ==> {
                        &&& self.in_bounds(top_left.x + dx, b)
                        &&& spec_walkable(#[trigger] self.cell(top_left.x + dx, b))
                    },
                decreases h - dy,
            {
                let px = top_left.x + dx;
                let py = top_left.y + dy;
                match self.get_cell(px, py) {
                    Some(cell) => {
                        if !(cell.is_walkable() && cell.building_id.is_none()) {
                            assert(in_footprint(top_left, width as int, height as int, px as int, py as int));
                            return false;
                        }
                    },
                    None => {
                        assert(in_footprint(top_left, width as int, height as int, px as int, py as int));
                        return false;
                    },
                }
                dy = dy + 1;
            }
            assert forall|a: int, b: int| in_footprint(top_left, dx + 1, h as int, a, b) implies {
                &&& self.in_bounds(a, b)
                &&& spec_walkable(#[trigger] self.cell(a, b))
            } by {
                if a == top_left.x + dx {
                    assert(top_left.y <= b < top_left.y + dy);
                }
            }
            dx = dx + 1;
        }
        true
    }
}

impl Grid {
    /// Overwrites the building marker of one in-bounds cell.
    fn mark_cell(&mut self, x: i32, y: i32, building_id: Option<u32>)
        requires
            old(self).wf(),
            old(self).in_bounds(x as int, y as int),
        ensures
            final(self).wf(),
            final(self).width == old(self).width,
            final(self).height == old(self).height,
            final(self).cell(x as int, y as int) == (Cell {
                cell_type: old(self).cell(x as int, y as int).cell_type,
                building_id: building_id,
            }),
            forall|a: int, b: int|
                old(self).in_bounds(a, b) && !(a == x && b == y) ==> #[trigger] final(self).cell(a, b)
                    == old(self).cell(a, b),
    {
        proof {
            lemma_cell_index_bounds(self.width as int, self.height as int, x as int, y as int);
        }
        let idx = y as usize * self.width + x as usize;
        let old_cell = self.cells[idx];
        self.cells.set(idx, Cell { cell_type: old_cell.cell_type, building_id });
        proof {
            assert forall|a: int, b: int| old(self).in_bounds(a, b) && !(a == x && b == y) implies
                #[trigger] self.cell(a, b) == old(self).cell(a, b) by {
                lemma_cell_index_bounds(self.width as int, self.height as int, a, b);
                if cell_index(self.width as int, a, b) == idx as int {
                    lemma_cell_index_injective(self.width as int, a, b, x as int, y as int);
                }
            }
        }
    }

    /// Occupy an area with a building id. Fails, changing nothing, unless the
    /// whole area is free; otherwise every cell of the area carries the id.
    pub fn occupy_area(&mut self, top_left: Position, width: u32, height: u32, building_id: u32) -> (r: bool)
        requires
            old(self).wf(),
            width <= i32::MAX,
            height <= i32::MAX,
            top_left.x + width <= i32::MAX + 1,
            top_left.y + height <= i32::MAX + 1,
        ensures
            final(self).wf(),
            r == old(self).area_free(top_left, width as int, height as int),
            final(self).width == old(self).width,
            final(self).height == old(self).height,
            forall|a: int, b: int| #![trigger final(self).cell(a, b)]
                old(self).in_bounds(a, b) ==> final(self).cell(a, b) == (
                    if r && in_footprint(top_left, width as int, height as int, a, b) {
                        with_building(old(self).cell(a, b), building_id)
                    } else {
                        old(self).cell(a, b)
                    }
                ),
    {
        if !self.is_area_free_for_building(top_left, width, height) {
            return false;
        }
        let ghost g0 = *self;
        let w = width as i32;
        let h = height as i32;
        let mut dx: i32 = 0;
        while dx < w
            invariant
                self.wf(),
                g0.wf(),
                self.width == g0.width,
                self.height == g0.height,
                g0.area_free(top_left, width as int, height as int),
                w == width,
                h == height,
                0 <= dx <= w,
                top_left.x + width <= i32::MAX + 1,
                top_left.y + height <= i32::MAX + 1,
                forall|a: int, b: int| #![trigger self.cell(a, b)]
                    g0.in_bounds(a, b) ==> self.cell(a, b) == (
                        if in_footprint(top_left, dx as int, height as int, a, b) {
                            with_building(g0.cell(a, b), building_id)
                        } else {
                            g0.cell(a, b)
                        }
                    ),
            decreases w - dx,
        {
            let mut dy: i32 = 0;
            while dy < h
                invariant
                    self.wf(),
                    g0.wf(),
                    self.width == g0.width,
                    self.height == g0.height,
                    g0.area_free(top_left, width as int, height as int),
                    w == width,
                    h == height,
                    0 <= dx < w,
                    0 <= dy <= h,
                    top_left.x + width <= i32::MAX + 1,
                    top_left.y + height <= i32::MAX + 1,
                    forall|a: int, b: int| #![trigger self.cell(a, b)]
                        g0.in_bounds(a, b) ==> self.cell(a, b) == (
                            if in_footprint(top_left, dx as int, height as int, a, b)
                                || (a == top_left.x + dx && top_left.y <= b < top_left.y + dy) {
                                with_building(g0.cell(a, b), building_id)
                            } else {
                                g0.cell(a, b)
                            }
                        ),
                decreases h - dy,
            {
                let px = top_left.x + dx;
                let py = top_left.y + dy;
                assert(in_footprint(top_left, width as int, height as int, px as int, py as int));
                let ghost c0 = g0.cell(px as int, py as int);
                assert(g0.in_bounds(px as int, py as int));
                self.mark_cell(px, py, Some(building_id));
                dy = dy + 1;
            }
            dx = dx + 1;
        }
        true
    }

    /// Clear every cell occupied by the given building id.
    pub fn clear_building(&mut self, building_id: u32)
        requires
            old(self).wf(),
        ensures
            final(self).wf(),
            final(self).width == old(self).width,
            final(self).height == old(self).height,
            forall|a: int, b: int| #![trigger final(self).cell(a, b)]
                old(self).in_bounds(a, b) ==> final(self).cell(a, b) == (
                    if old(self).cell(a, b).building_id == Some(building_id) {
                        without_building(old(self).cell(a, b))
                    } else {
                        old(self).cell(a, b)
                    }
                ),
    {
        let ghost g0 = *self;
        let n = self.cells.len();
        let mut i: usize = 0;
        while i < n
            invariant
                self.wf(),
                g0.wf(),
                n == self.cells@.len(),
                self.width == g0.width,
                self.height == g0.height,
                i <= n,
                forall|k: int| #![trigger self.cells@[k]]
                    0 <= k < n ==> self.cells@[k] == (
                        if k < i && g0.cells@[k].building_id == Some(building_id) {
                            without_building(g0.cells@[k])
                        } else {
                            g0.cells@[k]
                        }
                    ),
            decreases n - i,
        {
            let c = self.cells[i];
            if c.building_id == Some(building_id) {
                self.cells.set(i, Cell { cell_type: c.cell_type, building_id: None });
            }
            i = i + 1;
        }
        proof {
            assert forall|a: int, b: int| #![trigger self.cell(a, b)] g0.in_bounds(a, b) implies self.cell(a, b) == (
                if g0.cell(a, b).building_id == Some(building_id) {
                    without_building(g0.cell(a, b))
                } else {
                    g0.cell(a, b)
                }
            ) by {
                lemma_cell_index_bounds(self.width as int, self.height as int, a, b);
            }
        }
    }

    /// The id of the building standing on a cell, if any.
    pub fn get_building_at(&self, pos: Position) -> (r: Option<u32>)
        requires
            self.wf(),
        ensures
            r == (if self.in_bounds(pos.x as int, pos.y as int) {
                self.cell(pos.x as int, pos.y as int).building_id
            } else {
                None::<u32>
            }),
    {
        match self.get_cell(pos.x, pos.y) {
            Some(cell) => cell.building_id,
            None => None,
        }
    }

    /// A mutable reference to the cell at the given coordinates, if on the map.
    pub fn get_cell_mut(&mut self, x: i32, y: i32) -> (r: Option<&mut Cell>)
        requires
            old(self).wf(),
        ensures
            final(self).wf(),
            final(self).width == old(self).width,
            final(self).height == old(self).height,
            match r {
                Some(c) => {
                    &&& old(self).in_bounds(x as int, y as int)
                    &&& *c == old(self).cell(x as int, y as int)
                    &&& final(self).cells@ == old(self).cells@.update(
                        cell_index(old(self).width as int, x as int, y as int),
                        *final(c),
                    )
                },
                None => !old(self).in_bounds(x as int, y as int) && *final(self) == *old(self),
            },
    {
        if self.is_in_bounds(x, y) {
            proof {
                lemma_cell_index_bounds(self.width as int, self.height as int, x as int, y as int);
            }
            let idx = y as usize * self.width + x as usize;
            Some(&mut self.cells[idx])
        } else {
            None
        }
    }
}

/// The absolute value of an integer.
pub open spec fn abs_int(v: int) -> int {
    if v < 0 { -v } else { v }
}

} // verus!
