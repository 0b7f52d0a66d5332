//! The tick and the driver: one whole step of the simulation, and the
//! decisions of an interactive session as a function from state and event
//! to next state and action.
//!
//! A step runs to its end inside one call, on a grid borrowed exclusively:
//! no two steps overlap, and no paint operation falls inside a step.

use vstd::prelude::*;
use crate::cell::Cell;
use crate::grid::Grid;
use crate::heat::{diffused, diffused_simplified};
use crate::material::{Color, MaterialId};
use crate::model::GridView;
use crate::motion::{pass, Solver};
use crate::render::rendered;

verus! {

/// The buffer after one whole tick: heat diffusion, then the powder pass,
/// the liquid pass and, where it is enabled, the gas pass.
pub open spec fn advanced(
    v: GridView,
    tick: u64,
    simplified_heat: bool,
    gas_enabled: bool,
) -> Seq<Cell> {
    let heated = v.with_cells(
        if simplified_heat {
            diffused_simplified(v)
        } else {
            diffused(v)
        },
    );
    let piled = heated.with_cells(pass(heated, Solver::Powder, tick));
    let flowed = piled.with_cells(pass(piled, Solver::Liquid, tick));
    if gas_enabled {
        pass(flowed, Solver::Gas, tick)
    } else {
        flowed.cells
    }
}

impl Grid {
    /// One whole tick, in the order heat, powder, liquid, gas.
    pub fn advance(&mut self, tick_index: u64, simplified_heat: bool, gas_enabled: bool)
        requires
            old(self).wf(),
        ensures
            final(self).wf(),
            final(self)@.same_frame(old(self)@),
            final(self)@.cells == advanced(old(self)@, tick_index, simplified_heat, gas_enabled),
    {
        if simplified_heat {
            self.diffuse_heat_simplified(tick_index);
        } else {
            self.diffuse_heat(tick_index);
        }
        self.solve_powder(tick_index);
        self.solve_liquids(tick_index);
        if gas_enabled {
            self.solve_gas(tick_index);
        }
    }
}

/// How a session is set up.
#[derive(Clone, Copy, Debug, PartialEq, Eq, Structural)]
pub struct Settings {
    /// Side of a cell on the display, in pixels.
    pub pixel_size: u32,
    /// Colour of the display outside the grid.
    pub background: Color,
    /// Material that the pointer paints.
    pub brush_material: MaterialId,
    /// Temperature of a painted cell.
    pub brush_temperature: u32,
    /// Whether a tick uses the simplified diffusion.
    pub simplified_heat: bool,
    /// Whether a tick runs the gas pass.
    pub gas_enabled: bool,
}

/// What reaches a session from outside.
#[derive(Clone, Copy, Debug, PartialEq, Eq, Structural)]
pub enum Event {
    /// A pointer button went down or up; only the primary one counts.
    PointerButton { primary: bool, pressed: bool },
    /// The pointer moved to a display pixel; `noise` is the noise byte for
    /// a cell painted there.
    PointerMoved { x: u32, y: u32, noise: u8 },
    /// The tick timer ran out; `noise` is the noise byte for a cell
    /// painted under the resting pointer.
    TimerElapsed { noise: u8 },
    /// The user asked to close the session.
    CloseRequested,
}

/// What the caller is to do after an event.
#[derive(Clone, Copy, Debug, PartialEq, Eq, Structural)]
pub enum Action {
    Nothing,
    /// Show the grid again.
    Redraw,
    /// End the session.
    Exit,
}

/// An interactive session: a grid, the tick count and the pointer.
pub struct Simulation {
    grid: Grid,
    settings: Settings,
    tick: u64,
    pointer_x: u32,
    pointer_y: u32,
    pressed: bool,
}

/// A session as mathematical values.
pub struct SimulationView {
    pub grid: GridView,
    pub settings: Settings,
    pub tick: u64,
    pub pointer_x: u32,
    pub pointer_y: u32,
    pub pressed: bool,
}

/// The buffer after the pointer has painted: with the button down over a
/// cell of the grid, that cell is the brush's; else nothing changes.
pub open spec fn painted(
    v: GridView,
    settings: Settings,
    pointer_x: u32,
    pointer_y: u32,
    pressed: bool,
    noise: u8,
) -> Seq<Cell> {
    let x = pointer_x as int / settings.pixel_size as int;
    let y = pointer_y as int / settings.pixel_size as int;
    if pressed && v.in_bounds(x, y) && v.materials.contains_key(settings.brush_material) {
        v.cells.update(
            v.index(x, y),
            Cell {
                material: settings.brush_material,
                temperature: settings.brush_temperature,
                noise,
            },
        )
    } else {
        v.cells
    }
}

/// The session after an event.
pub open spec fn after(s: SimulationView, event: Event) -> SimulationView {
    match event {
        Event::PointerButton { primary, pressed } => if primary {
            SimulationView { pressed, ..s }
        } else {
            s
        },
        Event::PointerMoved { x, y, noise } => SimulationView {
            grid: s.grid.with_cells(painted(s.grid, s.settings, x, y, s.pressed, noise)),
            pointer_x: x,
            pointer_y: y,
            ..s
        },
        Event::TimerElapsed { noise } => {
            let touched = s.grid.with_cells(
                painted(s.grid, s.settings, s.pointer_x, s.pointer_y, s.pressed, noise),
            );
            SimulationView {
                grid: touched.with_cells(
                    advanced(
                        touched,
                        s.tick,
                        s.settings.simplified_heat,
                        s.settings.gas_enabled,
                    ),
                ),
                tick: s.tick.wrapping_add(1),
                ..s
            }
        },
        Event::CloseRequested => s,
    }
}

/// What an event asks the caller to do: to show the grid after a tick, to
/// end after a request to close.
pub open spec fn response(event: Event) -> Action {
    match event {
        Event::TimerElapsed { .. } => Action::Redraw,
        Event::CloseRequested => Action::Exit,
        _ => Action::Nothing,
    }
}

/// A colour as one display word: red, green and blue in the three low
/// bytes, red highest.
pub open spec fn packed(c: Color) -> u32 {
    (c.b as u32) | ((c.g as u32) << 8u32) | ((c.r as u32) << 16u32)
}

/// The display word at place `i` of a frame `width` pixels wide: the colour
/// of the cell that covers the pixel, or the background outside the grid.
pub open spec fn frame_pixel(s: SimulationView, width: int, i: int) -> u32 {
    let x = (i % width) / (s.settings.pixel_size as int);
    let y = (i / width) / (s.settings.pixel_size as int);
    if s.grid.in_bounds(x, y) {
        packed(rendered(s.grid)[s.grid.index(x, y)])
    } else {
        packed(s.settings.background)
    }
}

/// Packs a colour into a display word.
pub fn pack(c: Color) -> (word: u32)
    ensures
        word == packed(c),
        word == c.b + 256 * c.g + 65536 * c.r,
{
    let (r, g, b) = (c.r as u32, c.g as u32, c.b as u32);
    assert((b | (g << 8u32) | (r << 16u32)) == b + 256 * g + 65536 * r) by (bit_vector)
        requires
            r < 256,
            g < 256,
            b < 256,
    ;
    b | (g << 8) | (r << 16)
}

impl Simulation {
    /// The session as mathematical values.
    pub closed spec fn view(&self) -> SimulationView {
        SimulationView {
            grid: self.grid@,
            settings: self.settings,
            tick: self.tick,
            pointer_x: self.pointer_x,
            pointer_y: self.pointer_y,
            pressed: self.pressed,
        }
    }

    /// The grid is well formed and a cell has a size on the display.
    pub open spec fn wf(&self) -> bool {
        self@.grid.wf() && self@.settings.pixel_size > 0
    }

    /// A session at tick 0 with the pointer up at the origin; `None` where
    /// the pixel size is 0.
    pub fn new(grid: Grid, settings: Settings) -> (r: Option<Simulation>)
        requires
            grid.wf(),
        ensures
            r is Some <==> settings.pixel_size > 0,
            r matches Some(s) ==> s.wf() && s@ == (SimulationView {
                grid: grid@,
                settings,
                tick: 0,
                pointer_x: 0,
                pointer_y: 0,
                pressed: false,
            }),
    {
        if settings.pixel_size == 0 {
            None
        } else {
            Some(Simulation { grid, settings, tick: 0, pointer_x: 0, pointer_y: 0, pressed: false })
        }
    }

    /// The grid of the session.
    pub fn grid(&self) -> (grid: &Grid)
        ensures
            grid@ == self@.grid,
    {
        &self.grid
    }

    /// Number of ticks done.
    pub fn tick(&self) -> (tick: u64)
        ensures
            tick == self@.tick,
    {
        self.tick
    }

    /// Whether the primary pointer button is down.
    pub fn pressed(&self) -> (pressed: bool)
        ensures
            pressed == self@.pressed,
    {
        self.pressed
    }

    /// The position under a display pixel, which may lie outside the grid.
    pub fn cell_under(&self, x: u32, y: u32) -> (at: (usize, usize))
        requires
            self.wf(),
        ensures
            at.0 == x as int / self@.settings.pixel_size as int,
            at.1 == y as int / self@.settings.pixel_size as int,
    {
        ((x / self.settings.pixel_size) as usize, (y / self.settings.pixel_size) as usize)
    }

    /// The position under the pointer.
    pub fn pointer_cell(&self) -> (at: (usize, usize))
        requires
            self.wf(),
        ensures
            at.0 == self@.pointer_x as int / self@.settings.pixel_size as int,
            at.1 == self@.pointer_y as int / self@.settings.pixel_size as int,
    {
        self.cell_under(self.pointer_x, self.pointer_y)
    }

    /// Paints the brush on the cell under a display pixel, where the primary
    /// button is down, the cell exists and the brush's material is known;
    /// else nothing changes.
    pub fn handle_mouse(&mut self, x: u32, y: u32, noise: u8)
        requires
            old(self).wf(),
        ensures
            final(self).wf(),
            final(self)@ == (SimulationView {
                grid: old(self)@.grid.with_cells(
                    painted(old(self)@.grid, old(self)@.settings, x, y, old(self)@.pressed, noise),
                ),
                ..old(self)@
            }),
    {
        if self.pressed {
            let at = self.cell_under(x, y);
            let cell = Cell::new(
                self.settings.brush_material,
                self.settings.brush_temperature,
                noise,
            );
            self.grid.paint(at.0, at.1, cell);
        }
        assert(self@.grid == old(self)@.grid.with_cells(
            painted(old(self)@.grid, old(self)@.settings, x, y, old(self)@.pressed, noise),
        ));
    }

    /// Takes one event and says what the caller is to do. A pointer event
    /// paints under the pointer while the primary button is down; a timer
    /// event paints, runs one whole tick and asks for a redraw.
    pub fn handle(&mut self, event: Event) -> (action: Action)
        requires
            old(self).wf(),
        ensures
            final(self).wf(),
            final(self)@ == after(old(self)@, event),
            action == response(event),
    {
        match event {
            Event::PointerButton { primary, pressed } => {
                if primary {
                    self.pressed = pressed;
                }
                Action::Nothing
            },
            Event::PointerMoved { x, y, noise } => {
                self.pointer_x = x;
                self.pointer_y = y;
                self.handle_mouse(x, y, noise);
                Action::Nothing
            },
            Event::TimerElapsed { noise } => {
                self.handle_mouse(self.pointer_x, self.pointer_y, noise);
                self.grid.advance(
                    self.tick,
                    self.settings.simplified_heat,
                    self.settings.gas_enabled,
                );
                self.tick = self.tick.wrapping_add(1);
                Action::Redraw
            },
            Event::CloseRequested => Action::Exit,
        }
    }

    /// The grid as a frame of `width` by `height` display words, every cell
    /// a square of `pixel_size` pixels, the background around the grid;
    /// `None` where the number of pixels overflows.
    pub fn frame(&self, width: usize, height: usize) -> (r: Option<Vec<u32>>)
        requires
            self.wf(),
        ensures
            r is Some <==> width * height <= usize::MAX,
            r matches Some(words) ==> {
                &&& words@.len() == width * height
                &&& forall|i: int|
                    0 <= i < words@.len() ==> #[trigger] words@[i] == frame_pixel(
                        self@,
                        width as int,
                        i,
                    )
            },
    {
        let count: usize = match width.checked_mul(height) {
            Some(count) => count,
            None => {
                return None;
            },
        };
        let colors = self.grid.render();
        let background = pack(self.settings.background);
        let size = self.settings.pixel_size as usize;
        let mut words: Vec<u32> = Vec::new();
        let mut i: usize = 0;
        while i < count
            invariant
                self.wf(),
                count == width * height,
                i <= count,
                size == self@.settings.pixel_size,
                size > 0,
                background == packed(self@.settings.background),
                colors@ == rendered(self@.grid),
                words@.len() == i,
                forall|j: int|
                    0 <= j < i ==> #[trigger] words@[j] == frame_pixel(self@, width as int, j),
            decreases count - i,
        {
            assert(width > 0) by (nonlinear_arith)
                requires
                    i < width * height,
            ;
            let x = i % width / size;
            let y = i / width / size;
            let word = if self.grid.cell_exists(x, y) {
                let place = self.grid.place(x, y);
                pack(colors[place])
            } else {
                background
            };
            words.push(word);
            i = i + 1;
        }
        Some(words)
    }
}

} // verus!
