use crate::types::Position;
use vstd::prelude::*;

verus! {

/// The kinds of buildings a settlement can place.
#[derive(Clone, Copy, Debug, PartialEq, Eq, Structural)]
pub enum BuildingType {
    Habitat,
    MessHall,
    Workshop,
    Storage,
    ExplorationGate,
}

/// Footprint (width, height) in grid cells.
pub open spec fn spec_building_size(t: BuildingType) -> (u32, u32) {
    match t {
        BuildingType::Habitat => (2, 2),
        BuildingType::MessHall => (3, 2),
        BuildingType::Workshop => (2, 3),
        BuildingType::Storage => (2, 2),
        BuildingType::ExplorationGate => (2, 2),
    }
}

/// Salvage needed to place a building of this kind.
pub open spec fn spec_salvage_cost(t: BuildingType) -> i32 {
    match t {
        BuildingType::Habitat => 8,
        BuildingType::MessHall => 12,
        BuildingType::Workshop => 10,
        BuildingType::Storage => 6,
        BuildingType::ExplorationGate => 14,
    }
}

/// Display name of a building kind.
pub open spec fn spec_building_name(t: BuildingType) -> Seq<char> {
    match t {
        BuildingType::Habitat => "Habitat"@,
        BuildingType::MessHall => "Mess Hall"@,
        BuildingType::Workshop => "Workshop"@,
        BuildingType::Storage => "Storage"@,
        BuildingType::ExplorationGate => "Exploration Gate"@,
    }
}

/// What a building kind is for, as the planning panel describes it.
pub open spec fn spec_purpose(t: BuildingType) -> Seq<char> {
    match t {
        BuildingType::Habitat => "Sleeping quarters where survivors recover overnight."@,
        BuildingType::MessHall => "Meal prep and shared tables for the colony."@,
        BuildingType::Workshop => "Workbenches for builders and repairs."@,
        BuildingType::Storage => "Racks that keep supplies from spoiling."@,
        BuildingType::ExplorationGate => "Staging point for missions beyond the wreck."@,
    }
}

/// The colony need a building kind supports.
pub open spec fn spec_planning_role(t: BuildingType) -> Seq<char> {
    match t {
        BuildingType::Habitat => "Shelter"@,
        BuildingType::MessHall => "Food"@,
        BuildingType::Workshop => "Work"@,
        BuildingType::Storage => "Storage"@,
        BuildingType::ExplorationGate => "Exploration"@,
    }
}

/// The mechanical change placing a building kind makes.
pub open spec fn spec_placement_impact(t: BuildingType) -> Seq<char> {
    match t {
        BuildingType::Habitat => "Adds sleeper slots that ease shelter pressure."@,
        BuildingType::MessHall => "Gives cooks a kitchen and removes the missing-food penalty."@,
        BuildingType::Workshop => "Gives builders a workplace."@,
        BuildingType::Storage => "Adds supply capacity."@,
        BuildingType::ExplorationGate => "Allows mission launches."@,
    }
}

/// Every building kind, in toolbar order.
pub open spec fn spec_all_building_types() -> Seq<BuildingType> {
    seq![
        BuildingType::Habitat,
        BuildingType::MessHall,
        BuildingType::Workshop,
        BuildingType::Storage,
        BuildingType::ExplorationGate,
    ]
}

impl BuildingType {
    pub fn purpose(&self) -> (r: &'static str)
        ensures
            r@ == spec_purpose(*self),
    {
        proof {
            reveal_strlit("Sleeping quarters where survivors recover overnight.");
            reveal_strlit("Meal prep and shared tables for the colony.");
            reveal_strlit("Workbenches for builders and repairs.");
            reveal_strlit("Racks that keep supplies from spoiling.");
            reveal_strlit("Staging point for missions beyond the wreck.");
        }
        match self {
            BuildingType::Habitat => "Sleeping quarters where survivors recover overnight.",
            BuildingType::MessHall => "Meal prep and shared tables for the colony.",
            BuildingType::Workshop => "Workbenches for builders and repairs.",
            BuildingType::Storage => "Racks that keep supplies from spoiling.",
            BuildingType::ExplorationGate => "Staging point for missions beyond the wreck.",
        }
    }

    pub fn planning_role(&self) -> (r: &'static str)
        ensures
            r@ == spec_planning_role(*self),
    {
        proof {
            reveal_strlit("Shelter");
            reveal_strlit("Food");
            reveal_strlit("Work");
            reveal_strlit("Storage");
            reveal_strlit("Exploration");
        }
        match self {
            BuildingType::Habitat => "Shelter",
            BuildingType::MessHall => "Food",
            BuildingType::Workshop => "Work",
            BuildingType::Storage => "Storage",
            BuildingType::ExplorationGate => "Exploration",
        }
    }

    pub fn placement_impact(&self) -> (r: &'static str)
        ensures
            r@ == spec_placement_impact(*self),
    {
        proof {
            reveal_strlit("Adds sleeper slots that ease shelter pressure.");
            reveal_strlit("Gives cooks a kitchen and removes the missing-food penalty.");
            reveal_strlit("Gives builders a workplace.");
            reveal_strlit("Adds supply capacity.");
            reveal_strlit("Allows mission launches.");
        }
        match self {
            BuildingType::Habitat => "Adds sleeper slots that ease shelter pressure.",
            BuildingType::MessHall => "Gives cooks a kitchen and removes the missing-food penalty.",
            BuildingType::Workshop => "Gives builders a workplace.",
            BuildingType::Storage => "Adds supply capacity.",
            BuildingType::ExplorationGate => "Allows mission launches.",
        }
    }

    /// Returns the size (width, height) in grid cells for this building type.
    pub fn size(&self) -> (r: (u32, u32))
        ensures
            r == spec_building_size(*self),
    {
        match self {
            BuildingType::Habitat => (2, 2),
            BuildingType::MessHall => (3, 2),
            BuildingType::Workshop => (2, 3),
            BuildingType::Storage => (2, 2),
            BuildingType::ExplorationGate => (2, 2),
        }
    }

    /// Returns the display name for the interface.
    pub fn name(&self) -> (r: &'static str)
        ensures
            r@ == spec_building_name(*self),
    {
        proof {
            reveal_strlit("Habitat");
            reveal_strlit("Mess Hall");
            reveal_strlit("Workshop");
            reveal_strlit("Storage");
            reveal_strlit("Exploration Gate");
        }
        match self {
            BuildingType::Habitat => "Habitat",
            BuildingType::MessHall => "Mess Hall",
            BuildingType::Workshop => "Workshop",
            BuildingType::Storage => "Storage",
            BuildingType::ExplorationGate => "Exploration Gate",
        }
    }

    /// Salvage cost of placing this building.
    pub fn salvage_cost(&self) -> (r: i32)
        ensures
            r == spec_salvage_cost(*self),
    {
        match self {
            BuildingType::Habitat => 8,
            BuildingType::MessHall => 12,
            BuildingType::Workshop => 10,
            BuildingType::Storage => 6,
            BuildingType::ExplorationGate => 14,
        }
    }

    /// Rendering color as RGB.
    pub fn color(&self) -> (r: (u8, u8, u8))
        ensures
            r == (match *self {
                BuildingType::Habitat => (100u8, 149u8, 237u8),
                BuildingType::MessHall => (255u8, 165u8, 0u8),
                BuildingType::Workshop => (139u8, 69u8, 19u8),
                BuildingType::Storage => (128u8, 128u8, 128u8),
                BuildingType::ExplorationGate => (147u8, 112u8, 219u8),
            }),
    {
        match self {
            BuildingType::Habitat => (100, 149, 237),
            BuildingType::MessHall => (255, 165, 0),
            BuildingType::Workshop => (139, 69, 19),
            BuildingType::Storage => (128, 128, 128),
            BuildingType::ExplorationGate => (147, 112, 219),
        }
    }

    /// All building types for iteration.
    pub fn all() -> (r: &'static [BuildingType])
        ensures
            r@ == spec_all_building_types(),
    {
        &[
            BuildingType::Habitat,
            BuildingType::MessHall,
            BuildingType::Workshop,
            BuildingType::Storage,
            BuildingType::ExplorationGate,
        ]
    }
}

/// A placed building; `position` is its top-left cell.
#[derive(Clone, Copy, Debug, PartialEq, Eq, Structural)]
pub struct Building {
    pub id: u32,
    pub building_type: BuildingType,
    pub position: Position,
}

/// Whether a building with the given corner and footprint covers `pos`.
pub open spec fn footprint_covers(corner: Position, width: u32, height: u32, pos: Position) -> bool {
    &&& corner.x <= pos.x < corner.x + width
    &&& corner.y <= pos.y < corner.y + height
}

/// The `i`-th cell of a footprint listed column by column.
pub open spec fn footprint_cell(corner: Position, height: u32, i: int) -> Position {
    Position {
        x: (corner.x + i / height as int) as i32,
        y: (corner.y + i % height as int) as i32,
    }
}

impl Building {
    /// The cells covered by this building, as a set.
    pub open spec fn covers(self, pos: Position) -> bool {
        footprint_covers(
            self.position,
            spec_building_size(self.building_type).0,
            spec_building_size(self.building_type).1,
            pos,
        )
    }

    pub fn new(id: u32, building_type: BuildingType, position: Position) -> (b: Building)
        ensures
            b.id == id,
            b.building_type == building_type,
            b.position == position,
    {
        Building { id, building_type, position }
    }

    /// The footprint of this building.
    pub fn size(&self) -> (r: (u32, u32))
        ensures
            r == spec_building_size(self.building_type),
    {
        self.building_type.size()
    }

    /// Whether this building occupies a specific grid cell.
    pub fn occupies(&self, pos: Position) -> (r: bool)
        ensures
            r == self.covers(pos),
    {
        let (width, height) = self.size();
        let px = pos.x as i64;
        let py = pos.y as i64;
        let bx = self.position.x as i64;
        let by = self.position.y as i64;
        px >= bx && px < bx + width as i64 && py >= by && py < by + height as i64
    }

    /// Every grid cell occupied by this building, column by column.
    pub fn occupied_cells(&self) -> (cells: Vec<Position>)
        requires
            self.position.x + spec_building_size(self.building_type).0 <= i32::MAX,
            self.position.y + spec_building_size(self.building_type).1 <= i32::MAX,
        ensures
            cells@.len() == spec_building_size(self.building_type).0 * spec_building_size(
                self.building_type,
            ).1,
            forall|i: int|
                0 <= i < cells@.len() ==> #[trigger] cells@[i] == footprint_cell(
                    self.position,
                    spec_building_size(self.building_type).1,
                    i,
                ),
            cells@ == spec_occupied(*self),
    {
        let (width, height) = self.size();
        let mut cells: Vec<Position> = Vec::new();
        let mut dx: u32 = 0;
        while dx < width
            invariant
                (width, height) == spec_building_size(self.building_type),
                1 <= height <= 3,
                1 <= width <= 3,
                dx <= width,
                self.position.x + width <= i32::MAX,
                self.position.y + height <= i32::MAX,
                cells@.len() == dx * height,
                forall|i: int|
                    0 <= i < cells@.len() ==> #[trigger] cells@[i] == footprint_cell(
                        self.position,
                        height,
                        i,
                    ),
            decreases width - dx,
        {
            let mut dy: u32 = 0;
            while dy < height
                invariant
                    (width, height) == spec_building_size(self.building_type),
                    1 <= height <= 3,
                    1 <= width <= 3,
                    dx < width,
                    dy <= height,
                    self.position.x + width <= i32::MAX,
                    self.position.y + height <= i32::MAX,
                    cells@.len() == dx * height + dy,
                    forall|i: int|
                        0 <= i < cells@.len() ==> #[trigger] cells@[i] == footprint_cell(
                            self.position,
                            height,
                            i,
                        ),
                decreases height - dy,
            {
                let p = Position::new(self.position.x + dx as i32, self.position.y + dy as i32);
                proof {
                    let k = cells@.len() as int;
                    assert(k == dx * height + dy);
                    assert(k / height as int == dx as int) by (nonlinear_arith)
                        requires k == dx * height + dy, dy < height, height >= 1;
                    assert(k % height as int == dy as int) by (nonlinear_arith)
                        requires k == dx * height + dy, dy < height, height >= 1;
                }
                cells.push(p);
                dy = dy + 1;
            }
            assert(cells@.len() == (dx + 1) * height) by (nonlinear_arith)
                requires cells@.len() == dx * height + dy, dy == height;
            dx = dx + 1;
        }
        assert(cells@ =~= spec_occupied(*self));
        cells
    }
}

/// The cells a building occupies, column by column.
pub open spec fn spec_occupied(b: Building) -> Seq<Position> {
    let (w, h) = spec_building_size(b.building_type);
    Seq::new((w * h) as nat, |i: int| footprint_cell(b.position, h, i))
}

/// A building's cell list names each covered cell exactly once, and
/// nothing else.
pub proof fn law_occupied_cells_exact(b: Building)
    requires
        b.position.x + spec_building_size(b.building_type).0 <= i32::MAX,
        b.position.y + spec_building_size(b.building_type).1 <= i32::MAX,
    ensures
        spec_occupied(b).no_duplicates(),
        forall|p: Position| spec_occupied(b).contains(p) <==> b.covers(p),
{
    let (w, h) = spec_building_size(b.building_type);
    let cells = spec_occupied(b);
    let x = b.position.x as int;
    let y = b.position.y as int;
    assert(2 <= w <= 3 && 2 <= h <= 3);
    assert forall|i: int, j: int| 0 <= i < cells.len() && 0 <= j < cells.len() && i != j implies cells[i] != cells[j] by {
        vstd::arithmetic::div_mod::lemma_fundamental_div_mod(i, h as int);
        vstd::arithmetic::div_mod::lemma_fundamental_div_mod(j, h as int);
        vstd::arithmetic::div_mod::lemma_mod_bound(i, h as int);
        vstd::arithmetic::div_mod::lemma_mod_bound(j, h as int);
        assert(0 <= i / (h as int) < w as int) by (nonlinear_arith)
            requires
                0 <= i < w * h,
                2 <= h,
                i == h * (i / (h as int)) + i % (h as int),
                0 <= i % (h as int) < h,
        ;
        assert(0 <= j / (h as int) < w as int) by (nonlinear_arith)
            requires
                0 <= j < w * h,
                2 <= h,
                j == h * (j / (h as int)) + j % (h as int),
                0 <= j % (h as int) < h,
        ;
        if cells[i] == cells[j] {
            assert(i / (h as int) == j / (h as int));
            assert(i % (h as int) == j % (h as int));
        }
    }
    assert forall|p: Position| cells.contains(p) <==> b.covers(p) by {
        if cells.contains(p) {
            let i = choose|i: int| 0 <= i < cells.len() && cells[i] == p;
            vstd::arithmetic::div_mod::lemma_fundamental_div_mod(i, h as int);
            vstd::arithmetic::div_mod::lemma_mod_bound(i, h as int);
            assert(0 <= i / (h as int) < w as int) by (nonlinear_arith)
                requires
                    0 <= i < w * h,
                    2 <= h,
                    i == h * (i / (h as int)) + i % (h as int),
                    0 <= i % (h as int) < h,
            ;
        }
        if b.covers(p) {
            let dx = p.x - x;
            let dy = p.y - y;
            let i = dx * h + dy;
            assert(0 <= i < w * h) by (nonlinear_arith)
                requires
                    0 <= dx < w,
                    0 <= dy < h,
                    i == dx * h + dy,
            ;
            vstd::arithmetic::div_mod::lemma_fundamental_div_mod_converse(i, h as int, dx, dy);
            assert(cells[i] == p);
        }
    }
}

} // verus!
