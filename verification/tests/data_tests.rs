use final_landing::building::{Building, BuildingType};
use final_landing::building_system::{BuildingSystem, PlacementResult};
use final_landing::grid::{CellType, Grid};
use final_landing::mission::MissionItem;
use final_landing::technology::{TechId, TechnologyState};
use final_landing::types::Position;

fn create_test_grid() -> Grid {
    let mut grid = Grid::new(20, 20);
    for y in 0..20 {
        for x in 0..20 {
            grid.set_cell_type(x, y, CellType::Floor);
        }
    }
    grid
}

#[test]
fn test_building_sizes() {
    assert_eq!(BuildingType::Habitat.size(), (2, 2));
    assert_eq!(BuildingType::MessHall.size(), (3, 2));
    assert_eq!(BuildingType::Workshop.size(), (2, 3));
    assert_eq!(BuildingType::Storage.size(), (2, 2));
    assert_eq!(BuildingType::ExplorationGate.size(), (2, 2));
}

#[test]
fn test_building_salvage_costs() {
    assert_eq!(BuildingType::Habitat.salvage_cost(), 8);
    assert_eq!(BuildingType::MessHall.salvage_cost(), 12);
    assert_eq!(BuildingType::Workshop.salvage_cost(), 10);
    assert_eq!(BuildingType::Storage.salvage_cost(), 6);
    assert_eq!(BuildingType::ExplorationGate.salvage_cost(), 14);
}

#[test]
fn test_building_occupies() {
    let building = Building::new(1, BuildingType::Habitat, Position::new(5, 5));

    assert!(building.occupies(Position::new(5, 5)));
    assert!(building.occupies(Position::new(6, 5)));
    assert!(building.occupies(Position::new(5, 6)));
    assert!(building.occupies(Position::new(6, 6)));

    assert!(!building.occupies(Position::new(4, 5)));
    assert!(!building.occupies(Position::new(7, 5)));
    assert!(!building.occupies(Position::new(5, 7)));
}

#[test]
fn test_occupied_cells() {
    let building = Building::new(1, BuildingType::Habitat, Position::new(0, 0));
    let cells = building.occupied_cells();

    assert_eq!(cells.len(), 4);
    assert!(cells.contains(&Position::new(0, 0)));
    assert!(cells.contains(&Position::new(1, 0)));
    assert!(cells.contains(&Position::new(0, 1)));
    assert!(cells.contains(&Position::new(1, 1)));
}

#[test]
fn test_bounds_checking() {
    let grid = Grid::new(10, 10);
    assert!(grid.is_in_bounds(0, 0));
    assert!(grid.is_in_bounds(9, 9));
    assert!(!grid.is_in_bounds(-1, 0));
    assert!(!grid.is_in_bounds(10, 10));
}

#[test]
fn test_items_unlock_technology() {
    let mut technology = TechnologyState::default();

    let unlocked = technology.add_item(MissionItem::MedicinalGel);

    assert_eq!(unlocked, vec![TechId::FieldMedicine]);
    assert!(technology.has(TechId::FieldMedicine));
}

#[test]
fn test_combined_requirements_unlock_storage_lattice() {
    let mut technology = TechnologyState::default();
    technology.add_item(MissionItem::StructuralAlloy);

    let unlocked = technology.add_item(MissionItem::AlienCircuit);

    assert!(unlocked.contains(&TechId::StorageLattice));
    assert!(technology.has(TechId::StorageLattice));
}

#[test]
fn test_place_building() {
    let mut grid = create_test_grid();
    let mut system = BuildingSystem::new();

    let result = system.try_place_building(&mut grid, BuildingType::Habitat, Position::new(5, 5));

    assert!(matches!(result, PlacementResult::Success(1)));
    assert_eq!(system.building_count(), 1);
}

#[test]
fn test_placement_overlap() {
    let mut grid = create_test_grid();
    let mut system = BuildingSystem::new();

    system.try_place_building(&mut grid, BuildingType::Habitat, Position::new(5, 5));

    let result = system.try_place_building(&mut grid, BuildingType::Storage, Position::new(6, 6));

    assert_eq!(result, PlacementResult::AreaOccupied);
    assert_eq!(system.building_count(), 1);
}

#[test]
fn test_placement_out_of_bounds() {
    let mut grid = create_test_grid();
    let mut system = BuildingSystem::new();

    let result = system.try_place_building(&mut grid, BuildingType::Habitat, Position::new(19, 19));

    assert_eq!(result, PlacementResult::OutOfBounds);
}

#[test]
fn test_undo_placement() {
    let mut grid = create_test_grid();
    let mut system = BuildingSystem::new();

    system.try_place_building(&mut grid, BuildingType::Habitat, Position::new(5, 5));
    assert_eq!(system.building_count(), 1);
    assert_eq!(system.last_placed_building().map(|b| b.building_type), Some(BuildingType::Habitat));

    let undone_id = system.undo_last_placement(&mut grid);
    assert_eq!(undone_id, Some(1));
    assert_eq!(system.building_count(), 0);

    assert!(system.can_place_building(&grid, BuildingType::Habitat, Position::new(5, 5)));
}

#[test]
fn test_can_place_preview() {
    let mut grid = create_test_grid();
    let mut system = BuildingSystem::new();

    assert!(system.can_place_building(&grid, BuildingType::MessHall, Position::new(5, 5)));

    system.try_place_building(&mut grid, BuildingType::MessHall, Position::new(5, 5));

    assert!(!system.can_place_building(&grid, BuildingType::Habitat, Position::new(6, 5)));
}

#[test]
fn placing_on_a_wall_is_refused() {
    let mut grid = create_test_grid();
    grid.set_cell_type(6, 6, CellType::Wall);
    let mut system = BuildingSystem::new();

    let result = system.try_place_building(&mut grid, BuildingType::Habitat, Position::new(5, 5));

    assert_ne!(result, PlacementResult::Success(1));
    assert_eq!(system.building_count(), 0);
    assert_eq!(grid.get_building_at(Position::new(5, 5)), None);
}

#[test]
fn undo_restores_the_grid_and_ids_keep_counting() {
    let mut grid = create_test_grid();
    let mut system = BuildingSystem::new();

    assert_eq!(system.undo_last_placement(&mut grid), None);
    system.try_place_building(&mut grid, BuildingType::Storage, Position::new(0, 0));
    assert_eq!(grid.get_building_at(Position::new(1, 1)), Some(1));
    assert_eq!(system.undo_last_placement(&mut grid), Some(1));
    assert_eq!(grid.get_building_at(Position::new(1, 1)), None);

    let result = system.try_place_building(&mut grid, BuildingType::Storage, Position::new(0, 0));
    assert_eq!(result, PlacementResult::Success(2));
    assert_eq!(system.get_building_at(Position::new(0, 1)).map(|b| b.id), Some(2));
}

#[test]
fn negative_corner_is_out_of_bounds() {
    let mut grid = create_test_grid();
    let mut system = BuildingSystem::new();
    let result = system.try_place_building(&mut grid, BuildingType::Storage, Position::new(-1, 0));
    assert_eq!(result, PlacementResult::OutOfBounds);
    assert!(!system.can_place_building(&grid, BuildingType::Storage, Position::new(-1, 0)));
}

#[test]
fn technology_counts_items_and_keeps_locked_techs_locked() {
    let mut technology = TechnologyState::default();
    assert_eq!(technology.unlocked_count(), 0);
    let unlocked = technology.add_item(MissionItem::StructuralAlloy);
    assert!(!unlocked.contains(&TechId::StorageLattice));
    assert_eq!(technology.item_count(MissionItem::StructuralAlloy), 1);
    assert!(!technology.has(TechId::StorageLattice));
    let again = technology.add_item(MissionItem::MedicinalGel);
    assert_eq!(again, vec![TechId::FieldMedicine]);
    let twice = technology.add_item(MissionItem::MedicinalGel);
    assert!(twice.is_empty());
}

#[test]
fn building_found_at_a_cell_matches_the_map() {
    let mut grid = create_test_grid();
    let mut system = BuildingSystem::new();
    system.try_place_building(&mut grid, BuildingType::Habitat, Position::new(2, 3));
    system.try_place_building(&mut grid, BuildingType::Storage, Position::new(6, 6));

    for y in 0..20 {
        for x in 0..20 {
            let pos = Position::new(x, y);
            assert_eq!(system.get_building_at(pos).map(|b| b.id), grid.get_building_at(pos));
        }
    }
    assert_eq!(system.get_building_at(Position::new(3, 4)).map(|b| b.id), Some(1));
    assert!(system.get_building_at(Position::new(-1, 0)).is_none());
}
