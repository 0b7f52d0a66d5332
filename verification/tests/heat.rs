use simple_particle_sim::cell::{Cell, NEUTRAL_NOISE};
use simple_particle_sim::grid::Grid;
use simple_particle_sim::material::{Color, MaterialDefinition};
use simple_particle_sim::registry::MaterialRegistry;

const STONE: u8 = 0;
const WATER: u8 = 1;
const VOID: u8 = 2;
const HEAVY: u8 = 3;

fn material(id: u8, heat_capacity: i32, heat_resistance: i32) -> MaterialDefinition {
    let color = Color { r: 1, g: 2, b: 3, a: 4 };
    MaterialDefinition {
        id,
        vapor_color: color,
        liquid_color: color,
        solid_color: color,
        rigid: true,
        gas_density: 1,
        liquid_density: 1,
        melting_temperature: u32::MAX - 1,
        boiling_temperature: u32::MAX,
        heat_capacity,
        heat_resistance,
    }
}

fn registry() -> MaterialRegistry {
    let mut registry = MaterialRegistry::new();
    registry.register(material(STONE, 700, 5)).unwrap();
    registry.register(material(WATER, 4184, 2)).unwrap();
    registry.register(material(VOID, 0, 0)).unwrap();
    registry.register(material(HEAVY, i32::MAX, 0)).unwrap();
    registry
}

fn stone(temperature: u32) -> Cell {
    Cell::new(STONE, temperature, NEUTRAL_NOISE)
}

fn temperatures(grid: &Grid) -> Vec<u32> {
    let mut all = Vec::new();
    for y in 0..grid.height() {
        for x in 0..grid.width() {
            all.push(grid.cell_at(x, y).unwrap().temperature);
        }
    }
    all
}

fn energy(grid: &Grid) -> i128 {
    let mut total: i128 = 0;
    for y in 0..grid.height() {
        for x in 0..grid.width() {
            let cell = grid.cell_at(x, y).unwrap();
            let def = grid.registry().get(cell.material).unwrap();
            total += def.heat_capacity as i128 * cell.temperature as i128;
        }
    }
    total
}

fn capacity(grid: &Grid) -> i128 {
    let mut total: i128 = 0;
    for y in 0..grid.height() {
        for x in 0..grid.width() {
            let cell = grid.cell_at(x, y).unwrap();
            total += grid.registry().get(cell.material).unwrap().heat_capacity as i128;
        }
    }
    total
}

#[test]
fn two_cells_exchange_the_stated_energy() {
    let mut grid = Grid::new(registry(), 2, 1, stone(0)).unwrap();
    grid.set_cell(0, 0, stone(100)).unwrap();
    grid.diffuse_heat(0);
    assert_eq!(temperatures(&grid), vec![93, 7]);
    let mut grid = Grid::new(registry(), 1, 2, stone(0)).unwrap();
    grid.set_cell(0, 1, stone(100)).unwrap();
    grid.diffuse_heat(0);
    assert_eq!(temperatures(&grid), vec![7, 93]);
}

#[test]
fn exchange_uses_the_smaller_capacity_and_both_resistances() {
    let mut grid = Grid::new(registry(), 2, 1, stone(500)).unwrap();
    grid.set_cell(1, 0, Cell::new(WATER, 300, 9)).unwrap();
    grid.diffuse_heat(3);
    assert_eq!(temperatures(&grid), vec![482, 303]);
    assert_eq!(grid.cell_at(1, 0), Ok(Cell::new(WATER, 303, 9)));
    assert_eq!(grid.cell_at(0, 0), Ok(Cell::new(STONE, 482, NEUTRAL_NOISE)));
}

#[test]
fn hot_centre_gives_to_all_four_sides() {
    let mut grid = Grid::new(registry(), 3, 3, stone(300)).unwrap();
    grid.set_cell(1, 1, stone(1000)).unwrap();
    grid.diffuse_heat(0);
    assert_eq!(temperatures(&grid), vec![300, 350, 300, 350, 800, 350, 300, 350, 300]);
}

#[test]
fn hot_corner_gives_to_its_two_neighbours() {
    let mut grid = Grid::new(registry(), 3, 3, stone(300)).unwrap();
    grid.set_cell(2, 2, stone(1000)).unwrap();
    grid.diffuse_heat(0);
    assert_eq!(temperatures(&grid), vec![300, 300, 300, 300, 300, 350, 300, 350, 900]);
}

#[test]
fn rows_do_not_exchange_across_the_edge() {
    let mut grid = Grid::new(registry(), 3, 2, stone(300)).unwrap();
    grid.set_cell(2, 0, stone(1000)).unwrap();
    grid.diffuse_heat(0);
    assert_eq!(temperatures(&grid), vec![300, 350, 900, 300, 300, 350]);
}

#[test]
fn diffusion_reads_the_temperatures_of_the_start_of_the_tick() {
    let mut grid = Grid::new(registry(), 5, 1, stone(0)).unwrap();
    grid.set_cell(2, 0, stone(1400)).unwrap();
    grid.diffuse_heat(0);
    let after = temperatures(&grid);
    assert_eq!(after, vec![0, 100, 1200, 100, 0]);
    grid.diffuse_heat(1);
    let after = temperatures(&grid);
    assert_eq!(after[0], after[4]);
    assert_eq!(after[1], after[3]);
}

#[test]
fn uniform_grid_keeps_its_temperature() {
    let mut grid = Grid::new(registry(), 6, 4, stone(321)).unwrap();
    for tick in 0..5u64 {
        grid.diffuse_heat(tick);
        assert!(temperatures(&grid).iter().all(|t| *t == 321));
        grid.diffuse_heat_simplified(tick);
        assert!(temperatures(&grid).iter().all(|t| *t == 321));
    }
}

#[test]
fn cell_without_heat_capacity_keeps_its_temperature() {
    let mut grid = Grid::new(registry(), 3, 1, stone(1000)).unwrap();
    grid.set_cell(1, 0, Cell::new(VOID, 5, 0)).unwrap();
    for tick in 0..4u64 {
        grid.diffuse_heat(tick);
        assert_eq!(temperatures(&grid), vec![1000, 5, 1000]);
    }
}

#[test]
fn extreme_values_do_not_overflow() {
    let mut grid = Grid::new(registry(), 2, 1, Cell::new(HEAVY, 0, 0)).unwrap();
    grid.set_cell(0, 0, Cell::new(HEAVY, u32::MAX, 0)).unwrap();
    grid.diffuse_heat(0);
    assert_eq!(temperatures(&grid), vec![3221225471, 1073741824]);
    let mut grid = Grid::new(registry(), 3, 3, Cell::new(HEAVY, u32::MAX, 0)).unwrap();
    grid.diffuse_heat(0);
    assert!(temperatures(&grid).iter().all(|t| *t == u32::MAX));
    grid.diffuse_heat_simplified(0);
    assert!(temperatures(&grid).iter().all(|t| *t == u32::MAX));
    grid.set_cell(1, 1, Cell::new(HEAVY, 0, 0)).unwrap();
    grid.diffuse_heat(1);
    assert_eq!(grid.cell_at(1, 1).unwrap().temperature, u32::MAX);
}

#[test]
fn diffusion_stays_between_the_coldest_and_the_hottest_cell() {
    let mut grid = Grid::new(registry(), 7, 5, stone(300)).unwrap();
    grid.set_cell(3, 2, Cell::new(WATER, 5000, 0)).unwrap();
    grid.set_cell(0, 0, Cell::new(WATER, 2, 0)).unwrap();
    grid.set_cell(6, 4, Cell::new(VOID, 40, 0)).unwrap();
    for tick in 0..200u64 {
        let before = temperatures(&grid);
        grid.diffuse_heat(tick);
        let after = temperatures(&grid);
        for y in 0..5usize {
            for x in 0..7usize {
                let mut lo = before[y * 7 + x];
                let mut hi = lo;
                let mut around = Vec::new();
                if x > 0 {
                    around.push(before[y * 7 + x - 1]);
                }
                if x < 6 {
                    around.push(before[y * 7 + x + 1]);
                }
                if y > 0 {
                    around.push(before[(y - 1) * 7 + x]);
                }
                if y < 4 {
                    around.push(before[(y + 1) * 7 + x]);
                }
                for t in around {
                    lo = lo.min(t);
                    hi = hi.max(t);
                }
                assert!(lo <= after[y * 7 + x] && after[y * 7 + x] <= hi);
            }
        }
    }
}

#[test]
fn diffusion_conserves_energy_up_to_rounding() {
    let mut grid = Grid::new(registry(), 8, 6, stone(300)).unwrap();
    grid.set_cell(3, 2, Cell::new(WATER, 5000, 0)).unwrap();
    grid.set_cell(4, 2, Cell::new(WATER, 4000, 0)).unwrap();
    grid.set_cell(0, 5, stone(9000)).unwrap();
    grid.set_cell(7, 0, Cell::new(HEAVY, 1, 0)).unwrap();
    let half = capacity(&grid);
    for tick in 0..100u64 {
        let before = energy(&grid);
        grid.diffuse_heat(tick);
        let after = energy(&grid);
        assert!(2 * (after - before).abs() <= half);
    }
}

#[test]
fn equal_capacities_conserve_energy_exactly_where_nothing_rounds() {
    let mut grid = Grid::new(registry(), 2, 1, stone(0)).unwrap();
    grid.set_cell(0, 0, stone(1400)).unwrap();
    let before = energy(&grid);
    grid.diffuse_heat(0);
    assert_eq!(temperatures(&grid), vec![1300, 100]);
    assert_eq!(energy(&grid), before);
}

#[test]
fn diffusion_changes_temperatures_only() {
    let mut grid = Grid::new(registry(), 3, 1, stone(300)).unwrap();
    grid.set_cell(1, 0, Cell::new(WATER, 900, 77)).unwrap();
    grid.diffuse_heat(0);
    for x in 0..3 {
        let cell = grid.cell_at(x, 0).unwrap();
        assert_eq!(cell.material, if x == 1 { WATER } else { STONE });
        assert_eq!(cell.noise, if x == 1 { 77 } else { NEUTRAL_NOISE });
    }
    grid.diffuse_heat_simplified(0);
    for x in 0..3 {
        let cell = grid.cell_at(x, 0).unwrap();
        assert_eq!(cell.material, if x == 1 { WATER } else { STONE });
        assert_eq!(cell.noise, if x == 1 { 77 } else { NEUTRAL_NOISE });
    }
}

#[test]
fn simplified_diffusion_averages_with_the_surroundings() {
    let mut grid = Grid::new(registry(), 2, 1, stone(0)).unwrap();
    grid.set_cell(0, 0, stone(100)).unwrap();
    grid.diffuse_heat_simplified(0);
    assert_eq!(temperatures(&grid), vec![87, 12]);
    let mut grid = Grid::new(registry(), 3, 3, stone(0)).unwrap();
    grid.set_cell(1, 1, stone(800)).unwrap();
    grid.diffuse_heat_simplified(0);
    assert_eq!(temperatures(&grid), vec![0, 100, 0, 100, 400, 100, 0, 100, 0]);
}

#[test]
fn simplified_diffusion_ignores_the_materials() {
    let mut grid = Grid::new(registry(), 2, 1, Cell::new(VOID, 0, 0)).unwrap();
    grid.set_cell(0, 0, Cell::new(HEAVY, 100, 0)).unwrap();
    grid.diffuse_heat_simplified(0);
    assert_eq!(temperatures(&grid), vec![87, 12]);
}

#[test]
fn simplified_diffusion_stays_in_range() {
    let mut grid = Grid::new(registry(), 6, 6, stone(300)).unwrap();
    grid.set_cell(2, 2, stone(u32::MAX)).unwrap();
    grid.set_cell(3, 3, stone(0)).unwrap();
    for tick in 0..50u64 {
        let before = temperatures(&grid);
        let lo = *before.iter().min().unwrap();
        let hi = *before.iter().max().unwrap();
        grid.diffuse_heat_simplified(tick);
        assert!(temperatures(&grid).iter().all(|t| lo <= *t && *t <= hi));
    }
}

#[test]
fn whole_tick_conserves_energy_up_to_rounding() {
    let mut registry = registry();
    let mut grain = material(7, 835, 5);
    grain.rigid = false;
    grain.melting_temperature = 2000;
    grain.boiling_temperature = 5000;
    registry.register(grain).unwrap();
    let mut fluid = material(8, 4184, 2);
    fluid.melting_temperature = 273;
    fluid.boiling_temperature = 100_000;
    registry.register(fluid).unwrap();
    let mut grid = Grid::new(registry, 6, 6, Cell::new(VOID, 300, 0)).unwrap();
    for x in 0..6 {
        grid.set_cell(x, 0, Cell::new(7, 1500, x as u8)).unwrap();
        grid.set_cell(x, 2, Cell::new(8, 400 + 100 * x as u32, x as u8)).unwrap();
        grid.set_cell(x, 5, stone(50)).unwrap();
    }
    let half = capacity(&grid);
    for tick in 0..40u64 {
        let before = energy(&grid);
        grid.advance(tick, false, true);
        assert_eq!(capacity(&grid), half);
        assert!(2 * (energy(&grid) - before).abs() <= half);
    }
}
