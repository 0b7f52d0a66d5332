//! The renderer: one colour per cell, from the colour of its material in
//! its phase and its noise byte.

use vstd::prelude::*;
use crate::cell::{phase_of, Cell};
use crate::grid::Grid;
use crate::material::{Color, MaterialDefinition, MaterialId};
use crate::model::GridView;

verus! {

/// A colour channel moved by `noise - 128` and kept from 0 to 255.
pub open spec fn shaded_channel(base: u8, noise: u8) -> u8 {
    let moved = base + noise - 128;
    if moved < 0 {
        0u8
    } else if moved > 255 {
        255u8
    } else {
        moved as u8
    }
}

/// A colour with its red, green and blue moved by the noise; its alpha
/// stays.
pub open spec fn shaded(base: Color, noise: u8) -> Color {
    Color {
        r: shaded_channel(base.r, noise),
        g: shaded_channel(base.g, noise),
        b: shaded_channel(base.b, noise),
        a: base.a,
    }
}

/// The colour of a cell: that of its material in its phase, shaded by its
/// noise.
pub open spec fn cell_color(materials: Map<MaterialId, MaterialDefinition>, cell: Cell) -> Color {
    shaded(materials[cell.material].base_color(phase_of(materials, cell)), cell.noise)
}

/// Whether `buffer` shows the grid: one colour per cell, row by row.
pub open spec fn is_rendering(v: GridView, buffer: Seq<Color>) -> bool {
    &&& buffer.len() == v.cells.len()
    &&& forall|i: int|
        0 <= i < buffer.len() ==> #[trigger] buffer[i] == cell_color(v.materials, v.cells[i])
}

/// The buffer that shows the grid.
pub open spec fn rendered(v: GridView) -> Seq<Color> {
    Seq::new(v.cells.len(), |i: int| cell_color(v.materials, v.cells[i]))
}

/// Moves a colour channel by `noise - 128` and keeps it from 0 to 255.
pub fn shade_channel(base: u8, noise: u8) -> (c: u8)
    ensures
        c == shaded_channel(base, noise),
{
    let sum: u16 = base as u16 + noise as u16;
    if sum < 128 {
        0
    } else if sum > 128 + 255 {
        255
    } else {
        (sum - 128) as u8
    }
}

/// Shades a colour by a noise byte.
pub fn shade(base: Color, noise: u8) -> (c: Color)
    ensures
        c == shaded(base, noise),
{
    Color {
        r: shade_channel(base.r, noise),
        g: shade_channel(base.g, noise),
        b: shade_channel(base.b, noise),
        a: base.a,
    }
}

impl Grid {
    /// One colour per cell, row by row. The grid is only read.
    pub fn render(&self) -> (buffer: Vec<Color>)
        requires
            self.wf(),
        ensures
            buffer@ == rendered(self@),
            is_rendering(self@, buffer@),
            buffer@.len() == self@.width * self@.height,
    {
        let count = self.cells.len();
        let mut buffer: Vec<Color> = Vec::new();
        let mut i: usize = 0;
        while i < count
            invariant
                self.wf(),
                count == self@.cells.len(),
                i <= count,
                buffer@.len() == i,
                forall|j: int|
                    0 <= j < i ==> #[trigger] buffer@[j] == cell_color(
                        self@.materials,
                        self@.cells[j],
                    ),
            decreases count - i,
        {
            let cell = self.cells[i];
            let def = self.definition(cell);
            buffer.push(shade(def.color_in(def.phase(cell.temperature)), cell.noise));
            i = i + 1;
        }
        buffer
    }
}

/// Rendering is a function of the grid: two buffers that show the same
/// grid are the same buffer.
pub proof fn lemma_render_idempotent(v: GridView, first: Seq<Color>, second: Seq<Color>)
    requires
        is_rendering(v, first),
        is_rendering(v, second),
    ensures
        first == second,
        first == rendered(v),
{
}

} // verus!
