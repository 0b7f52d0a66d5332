use simple_particle_sim::cell::{Cell, NEUTRAL_NOISE};
use simple_particle_sim::grid::{Grid, GridError};
use simple_particle_sim::material::{Color, MaterialDefinition, Phase};
use simple_particle_sim::registry::MaterialRegistry;

fn plain(id: u8, level: u8, rigid: bool, melting: u32, boiling: u32) -> MaterialDefinition {
    let color = Color { r: level, g: level, b: level, a: 255 };
    MaterialDefinition {
        id,
        vapor_color: color,
        liquid_color: color,
        solid_color: color,
        rigid,
        gas_density: 1_000,
        liquid_density: 1_000_000,
        melting_temperature: melting,
        boiling_temperature: boiling,
        heat_capacity: 700,
        heat_resistance: 5,
    }
}

fn registry() -> MaterialRegistry {
    let mut registry = MaterialRegistry::new();
    assert_eq!(registry.register(plain(0, 0, true, 60, 79)), Ok(0));
    assert_eq!(registry.register(plain(1, 180, false, 2000, 5000)), Ok(1));
    assert_eq!(registry.register(plain(4, 80, true, 4000, 50000)), Ok(4));
    registry
}

fn air() -> Cell {
    Cell::new(0, 300, NEUTRAL_NOISE)
}

#[test]
fn new_grid_is_filled_with_the_default_cell() {
    let grid = Grid::new(registry(), 7, 3, air()).unwrap();
    assert_eq!(grid.width(), 7);
    assert_eq!(grid.height(), 3);
    for y in 0..3 {
        for x in 0..7 {
            assert_eq!(grid.cell_at(x, y), Ok(air()));
        }
    }
    assert!(grid.registry().contains(1));
    assert!(!grid.registry().contains(2));
}

#[test]
fn new_grid_refuses_an_unknown_material() {
    let result = Grid::new(registry(), 4, 4, Cell::new(9, 300, NEUTRAL_NOISE));
    assert!(matches!(result, Err(GridError::UnknownMaterial)));
}

#[test]
fn new_grid_refuses_an_overflowing_size() {
    let result = Grid::new(registry(), usize::MAX, 2, air());
    assert!(matches!(result, Err(GridError::TooLarge)));
    let result = Grid::new(registry(), usize::MAX, 2, Cell::new(9, 300, NEUTRAL_NOISE));
    assert!(matches!(result, Err(GridError::UnknownMaterial)));
}

#[test]
fn empty_grid_has_no_positions() {
    let mut grid = Grid::new(registry(), 0, 5, air()).unwrap();
    assert!(!grid.cell_exists(0, 0));
    assert_eq!(grid.cell_at(0, 0), Err(GridError::OutOfBounds));
    assert_eq!(grid.render().len(), 0);
    grid.diffuse_heat(0);
    grid.diffuse_heat_simplified(0);
    grid.solve_powder(0);
    grid.solve_liquids(0);
    grid.solve_gas(0);
    assert_eq!(grid.render().len(), 0);
    let mut grid = Grid::new(registry(), 5, 0, air()).unwrap();
    assert!(!grid.cell_exists(0, 0));
    grid.solve_powder(0);
    assert_eq!(grid.width(), 5);
    assert_eq!(grid.height(), 0);
}

#[test]
fn cell_exists_exactly_inside_the_bounds() {
    let grid = Grid::new(registry(), 4, 3, air()).unwrap();
    assert!(grid.cell_exists(0, 0));
    assert!(grid.cell_exists(3, 2));
    assert!(!grid.cell_exists(4, 0));
    assert!(!grid.cell_exists(0, 3));
    assert!(!grid.cell_exists(4, 3));
    assert!(!grid.cell_exists(usize::MAX, 0));
    assert!(!grid.cell_exists(0, usize::MAX));
    assert!(!grid.cell_exists(usize::MAX, usize::MAX));
}

#[test]
fn set_cell_overwrites_one_position() {
    let mut grid = Grid::new(registry(), 4, 3, air()).unwrap();
    let sand = Cell::new(1, 290, 17);
    assert_eq!(grid.set_cell(2, 1, sand), Ok(()));
    for y in 0..3 {
        for x in 0..4 {
            let expected = if (x, y) == (2, 1) { sand } else { air() };
            assert_eq!(grid.cell_at(x, y), Ok(expected));
        }
    }
}

#[test]
fn out_of_bounds_access_is_reported_and_changes_nothing() {
    let mut grid = Grid::new(registry(), 4, 3, air()).unwrap();
    let sand = Cell::new(1, 290, 17);
    let before = grid.render();
    assert_eq!(grid.set_cell(4, 0, sand), Err(GridError::OutOfBounds));
    assert_eq!(grid.set_cell(0, 3, sand), Err(GridError::OutOfBounds));
    assert_eq!(grid.set_cell(usize::MAX, usize::MAX, sand), Err(GridError::OutOfBounds));
    assert_eq!(grid.cell_at(4, 0), Err(GridError::OutOfBounds));
    assert_eq!(grid.cell_at(0, 3), Err(GridError::OutOfBounds));
    assert_eq!(grid.phase_at(4, 2), Err(GridError::OutOfBounds));
    assert!(!grid.paint(4, 0, sand));
    assert!(!grid.paint(0, 3, sand));
    assert_eq!(grid.render(), before);
    for y in 0..3 {
        for x in 0..4 {
            assert_eq!(grid.cell_at(x, y), Ok(air()));
        }
    }
}

#[test]
fn bounds_are_checked_before_the_material() {
    let mut grid = Grid::new(registry(), 4, 3, air()).unwrap();
    let unknown = Cell::new(9, 290, 17);
    assert_eq!(grid.set_cell(4, 0, unknown), Err(GridError::OutOfBounds));
    assert_eq!(grid.set_cell(3, 0, unknown), Err(GridError::UnknownMaterial));
    assert!(!grid.paint(3, 0, unknown));
    assert_eq!(grid.cell_at(3, 0), Ok(air()));
}

#[test]
fn paint_applies_inside_the_grid() {
    let mut grid = Grid::new(registry(), 4, 3, air()).unwrap();
    let sand = Cell::new(1, 290, 17);
    assert!(grid.paint(3, 2, sand));
    assert_eq!(grid.cell_at(3, 2), Ok(sand));
    assert_eq!(grid.cell_at(2, 2), Ok(air()));
}

#[test]
fn phase_is_derived_from_the_current_temperature() {
    let mut grid = Grid::new(registry(), 2, 2, air()).unwrap();
    assert_eq!(grid.phase_at(0, 0), Ok(Phase::Vapor));
    grid.set_cell(0, 0, Cell::new(0, 59, NEUTRAL_NOISE)).unwrap();
    assert_eq!(grid.phase_at(0, 0), Ok(Phase::Solid));
    grid.set_cell(0, 0, Cell::new(0, 60, NEUTRAL_NOISE)).unwrap();
    assert_eq!(grid.phase_at(0, 0), Ok(Phase::Liquid));
    grid.set_cell(1, 1, Cell::new(1, 1999, NEUTRAL_NOISE)).unwrap();
    assert_eq!(grid.phase_at(1, 1), Ok(Phase::Solid));
    let registry = registry();
    assert_eq!(Cell::new(1, 2000, 0).phase(&registry), Some(Phase::Liquid));
    assert_eq!(Cell::new(1, 5000, 0).phase(&registry), Some(Phase::Vapor));
    assert_eq!(Cell::new(7, 5000, 0).phase(&registry), None);
}

#[test]
fn unreachable_boiling_point_never_reports_vapor_in_a_grid() {
    let mut grid = Grid::new(registry(), 3, 1, air()).unwrap();
    for temperature in (0..20000u32).step_by(250) {
        grid.set_cell(1, 0, Cell::new(4, temperature, NEUTRAL_NOISE)).unwrap();
        assert_ne!(grid.phase_at(1, 0), Ok(Phase::Vapor));
    }
}

#[test]
fn cell_new_keeps_its_arguments() {
    let cell = Cell::new(3, 290, 200);
    assert_eq!(cell.material, 3);
    assert_eq!(cell.temperature, 290);
    assert_eq!(cell.noise, 200);
    assert_eq!(cell, Cell { material: 3, temperature: 290, noise: 200 });
    assert_eq!(NEUTRAL_NOISE, 128);
}
