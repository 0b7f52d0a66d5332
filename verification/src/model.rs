//! The mathematical model of a grid: a catalogue, two dimensions and a
//! row-major sequence of cells. Row 0 is the top row; gravity points to
//! higher rows.

use vstd::prelude::*;
use crate::cell::{phase_of, Cell};
use crate::material::{MaterialDefinition, MaterialId, Phase};
use crate::registry::catalogue_valid;

verus! {

/// What a grid is, as plain mathematical values.
pub struct GridView {
    pub materials: Map<MaterialId, MaterialDefinition>,
    pub width: nat,
    pub height: nat,
    pub cells: Seq<Cell>,
}

impl GridView {
    /// The catalogue is valid, the buffer has one cell per position, and
    /// every cell's material is in the catalogue.
    pub open spec fn wf(self) -> bool {
        &&& catalogue_valid(self.materials)
        &&& self.cells.len() == self.width * self.height
        &&& forall|i: int|
            0 <= i < self.cells.len() ==> self.materials.contains_key(
                (#[trigger] self.cells[i]).material,
            )
    }

    pub open spec fn in_bounds(self, x: int, y: int) -> bool {
        0 <= x < self.width && 0 <= y < self.height
    }

    /// Place of position (x, y) in the row-major buffer.
    pub open spec fn index(self, x: int, y: int) -> int {
        y * self.width + x
    }

    pub open spec fn at(self, x: int, y: int) -> Cell {
        self.cells[self.index(x, y)]
    }

    /// Definition of the material of the cell at buffer place `i`.
    pub open spec fn def(self, i: int) -> MaterialDefinition {
        self.materials[self.cells[i].material]
    }

    /// Phase of the cell at buffer place `i`.
    pub open spec fn phase(self, i: int) -> Phase {
        phase_of(self.materials, self.cells[i])
    }

    /// The same grid with another buffer.
    pub open spec fn with_cells(self, cells: Seq<Cell>) -> GridView {
        GridView { cells, ..self }
    }

    /// The same catalogue and dimensions.
    pub open spec fn same_frame(self, other: GridView) -> bool {
        &&& self.materials == other.materials
        &&& self.width == other.width
        &&& self.height == other.height
    }
}

/// The buffer with the cells at places `a` and `b` exchanged.
pub open spec fn swapped(cells: Seq<Cell>, a: int, b: int) -> Seq<Cell> {
    cells.update(a, cells[b]).update(b, cells[a])
}

/// A position inside the grid has a place inside the buffer, and the place
/// gives the position back.
pub proof fn lemma_index_bounds(width: nat, height: nat, x: int, y: int)
    requires
        0 <= x < width,
        0 <= y < height,
    ensures
        0 <= y * width + x < width * height,
        (y * width + x) % (width as int) == x,
        (y * width + x) / (width as int) == y,
{
    let w = width as int;
    assert(y * w + x < width * height) by (nonlinear_arith)
        requires
            0 <= x < w,
            0 <= y < height,
            w == width,
    ;
    assert(0 <= y * w) by (nonlinear_arith)
        requires
            0 <= y,
            0 < w,
    ;
    vstd::arithmetic::div_mod::lemma_fundamental_div_mod_converse(y * w + x, w, y, x);
}

/// A place inside the buffer lies in a row and a column of the grid.
pub proof fn lemma_place_bounds(width: nat, height: nat, place: int)
    requires
        0 <= place < width * height,
    ensures
        width > 0,
        0 <= place % (width as int) < width,
        0 <= place / (width as int) < height,
        place == (place / (width as int)) * width + place % (width as int),
{
    let w = width as int;
    assert(width > 0) by (nonlinear_arith)
        requires
            0 <= place < width * height,
    ;
    vstd::arithmetic::div_mod::lemma_fundamental_div_mod(place, w);
    vstd::arithmetic::div_mod::lemma_mod_bound(place, w);
    let q = place / w;
    let r = place % w;
    assert(q >= 0 && q < height) by (nonlinear_arith)
        requires
            0 <= place < w * height,
            place == w * q + r,
            0 <= r < w,
    ;
    assert(w * q == q * w) by (nonlinear_arith);
}

} // verus!
