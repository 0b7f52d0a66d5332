use simple_particle_sim::cell::{Cell, NEUTRAL_NOISE};
use simple_particle_sim::grid::Grid;
use simple_particle_sim::material::{Color, MaterialDefinition};
use simple_particle_sim::registry::MaterialRegistry;
use simple_particle_sim::render::{shade, shade_channel};

fn water() -> MaterialDefinition {
    MaterialDefinition {
        id: 3,
        vapor_color: Color { r: 35, g: 137, b: 218, a: 55 },
        liquid_color: Color { r: 36, g: 138, b: 219, a: 105 },
        solid_color: Color { r: 37, g: 139, b: 220, a: 255 },
        rigid: true,
        gas_density: 600_000,
        liquid_density: 1_000_000,
        melting_temperature: 273,
        boiling_temperature: 373,
        heat_capacity: 4184,
        heat_resistance: 2,
    }
}

fn sand() -> MaterialDefinition {
    let color = Color { r: 194, g: 178, b: 128, a: 255 };
    MaterialDefinition {
        id: 1,
        vapor_color: color,
        liquid_color: color,
        solid_color: color,
        rigid: false,
        gas_density: 1_000_000,
        liquid_density: 10_520_000,
        melting_temperature: 2000,
        boiling_temperature: 5000,
        heat_capacity: 835,
        heat_resistance: 5,
    }
}

fn registry() -> MaterialRegistry {
    let mut registry = MaterialRegistry::new();
    registry.register(water()).unwrap();
    registry.register(sand()).unwrap();
    registry
}

#[test]
fn neutral_noise_keeps_the_colour() {
    for base in 0..=255u8 {
        assert_eq!(shade_channel(base, NEUTRAL_NOISE), base);
    }
}

#[test]
fn noise_offsets_a_channel_around_the_midpoint() {
    assert_eq!(shade_channel(200, 0), 72);
    assert_eq!(shade_channel(200, 100), 172);
    assert_eq!(shade_channel(200, 129), 201);
    assert_eq!(shade_channel(100, 255), 227);
    assert_eq!(shade_channel(128, 127), 127);
}

#[test]
fn shaded_channel_is_clamped_at_both_ends() {
    assert_eq!(shade_channel(200, 255), 255);
    assert_eq!(shade_channel(255, 255), 255);
    assert_eq!(shade_channel(128, 255), 255);
    assert_eq!(shade_channel(129, 255), 255);
    assert_eq!(shade_channel(127, 255), 254);
    assert_eq!(shade_channel(10, 0), 0);
    assert_eq!(shade_channel(0, 0), 0);
    assert_eq!(shade_channel(128, 0), 0);
    assert_eq!(shade_channel(129, 0), 1);
    assert_eq!(shade_channel(0, 128), 0);
    assert_eq!(shade_channel(0, 127), 0);
}

#[test]
fn shade_moves_red_green_and_blue_and_keeps_alpha() {
    let base = Color { r: 10, g: 120, b: 250, a: 55 };
    assert_eq!(shade(base, NEUTRAL_NOISE), base);
    assert_eq!(shade(base, 138), Color { r: 20, g: 130, b: 255, a: 55 });
    assert_eq!(shade(base, 108), Color { r: 0, g: 100, b: 230, a: 55 });
}

#[test]
fn render_picks_the_colour_of_the_phase() {
    let mut grid = Grid::new(registry(), 3, 1, Cell::new(3, 400, NEUTRAL_NOISE)).unwrap();
    grid.set_cell(1, 0, Cell::new(3, 300, NEUTRAL_NOISE)).unwrap();
    grid.set_cell(2, 0, Cell::new(3, 200, NEUTRAL_NOISE)).unwrap();
    let buffer = grid.render();
    assert_eq!(buffer, vec![water().vapor_color, water().liquid_color, water().solid_color]);
}

#[test]
fn render_applies_the_noise_of_each_cell() {
    let mut grid = Grid::new(registry(), 2, 2, Cell::new(1, 290, NEUTRAL_NOISE)).unwrap();
    grid.set_cell(1, 0, Cell::new(1, 290, 0)).unwrap();
    grid.set_cell(0, 1, Cell::new(1, 290, 255)).unwrap();
    grid.set_cell(1, 1, Cell::new(3, 290, 118)).unwrap();
    let buffer = grid.render();
    assert_eq!(buffer.len(), 4);
    assert_eq!(buffer[0], Color { r: 194, g: 178, b: 128, a: 255 });
    assert_eq!(buffer[1], Color { r: 66, g: 50, b: 0, a: 255 });
    assert_eq!(buffer[2], Color { r: 255, g: 255, b: 255, a: 255 });
    assert_eq!(buffer[3], Color { r: 26, g: 128, b: 209, a: 105 });
}

#[test]
fn render_is_row_major() {
    let mut grid = Grid::new(registry(), 3, 2, Cell::new(3, 290, NEUTRAL_NOISE)).unwrap();
    grid.set_cell(2, 0, Cell::new(1, 290, NEUTRAL_NOISE)).unwrap();
    let buffer = grid.render();
    assert_eq!(buffer.len(), 6);
    for (i, color) in buffer.iter().enumerate() {
        let expected = if i == 2 { sand().solid_color } else { water().liquid_color };
        assert_eq!(*color, expected);
    }
}

#[test]
fn render_twice_gives_the_same_buffer() {
    let mut grid = Grid::new(registry(), 5, 4, Cell::new(3, 290, 7)).unwrap();
    grid.set_cell(2, 1, Cell::new(1, 290, 200)).unwrap();
    grid.set_cell(4, 3, Cell::new(3, 500, 90)).unwrap();
    let first = grid.render();
    let second = grid.render();
    assert_eq!(first, second);
    assert_eq!(first.len(), 20);
    assert_eq!(grid.cell_at(2, 1), Ok(Cell::new(1, 290, 200)));
    assert_eq!(grid.cell_at(4, 3), Ok(Cell::new(3, 500, 90)));
    assert_eq!(grid.cell_at(0, 0), Ok(Cell::new(3, 290, 7)));
}

#[test]
fn render_follows_a_change_of_temperature() {
    let mut grid = Grid::new(registry(), 1, 1, Cell::new(3, 372, NEUTRAL_NOISE)).unwrap();
    assert_eq!(grid.render(), vec![water().liquid_color]);
    grid.set_cell(0, 0, Cell::new(3, 373, NEUTRAL_NOISE)).unwrap();
    assert_eq!(grid.render(), vec![water().vapor_color]);
}
