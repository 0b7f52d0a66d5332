//! The simulation state: a catalogue of materials and a fixed-size buffer
//! of cells, with bounds-checked access.

use vstd::prelude::*;
use crate::cell::{phase_of, Cell};
use crate::material::{MaterialDefinition, Phase};
use crate::model::{lemma_index_bounds, GridView};
use crate::registry::MaterialRegistry;

verus! {

/// What a grid operation reports instead of doing its work.
#[derive(Clone, Copy, Debug, PartialEq, Eq, Structural)]
pub enum GridError {
    /// The coordinate lies outside the grid.
    OutOfBounds,
    /// The cell's material is not in the grid's registry.
    UnknownMaterial,
    /// The number of cells does not fit the machine's address range.
    TooLarge,
}

/// A rectangular grid of cells. Its dimensions are fixed for its lifetime;
/// cells are only ever overwritten in place.
pub struct Grid {
    pub(crate) registry: MaterialRegistry,
    pub(crate) width: usize,
    pub(crate) height: usize,
    pub(crate) cells: Vec<Cell>,
}

impl Grid {
    /// The grid as mathematical values.
    pub open(crate) spec fn view(&self) -> GridView {
        GridView {
            materials: self.registry@,
            width: self.width as nat,
            height: self.height as nat,
            cells: self.cells@,
        }
    }

    /// The grid's invariant: see `GridView::wf`.
    pub open spec fn wf(&self) -> bool {
        self@.wf()
    }

    /// A grid of `width` by `height` cells, each a copy of `default_cell`.
    /// Refused where the cell's material is not registered, or where the
    /// number of cells overflows.
    pub fn new(registry: MaterialRegistry, width: usize, height: usize, default_cell: Cell) -> (r:
        Result<Grid, GridError>)
        requires
            registry.wf(),
        ensures
            r is Ok <==> registry@.contains_key(default_cell.material) && width * height
                <= usize::MAX,
            r matches Ok(grid) ==> grid.wf() && grid@ == (GridView {
                materials: registry@,
                width: width as nat,
                height: height as nat,
                cells: Seq::new((width * height) as nat, |i: int| default_cell),
            }),
            r matches Err(e) ==> e == (if !registry@.contains_key(default_cell.material) {
                GridError::UnknownMaterial
            } else {
                GridError::TooLarge
            }),
    {
        if !registry.contains(default_cell.material) {
            return Err(GridError::UnknownMaterial);
        }
        let count: usize = match width.checked_mul(height) {
            Some(count) => count,
            None => {
                return Err(GridError::TooLarge);
            },
        };
        let mut cells: Vec<Cell> = Vec::new();
        let mut filled: usize = 0;
        while filled < count
            invariant
                filled <= count,
                cells@ == Seq::new(filled as nat, |i: int| default_cell),
            decreases count - filled,
        {
            cells.push(default_cell);
            filled = filled + 1;
        }
        Ok(Grid { registry, width, height, cells })
    }

    /// Number of columns.
    pub fn width(&self) -> (w: usize)
        ensures
            w == self@.width,
    {
        self.width
    }

    /// Number of rows.
    pub fn height(&self) -> (h: usize)
        ensures
            h == self@.height,
    {
        self.height
    }

    /// The catalogue that the grid's cells refer to.
    pub fn registry(&self) -> (registry: &MaterialRegistry)
        ensures
            registry@ == self@.materials,
            self.wf() ==> registry.wf(),
    {
        &self.registry
    }

    /// Whether (x, y) is a position of the grid.
    pub fn cell_exists(&self, x: usize, y: usize) -> (inside: bool)
        ensures
            inside == self@.in_bounds(x as int, y as int),
    {
        x < self.width && y < self.height
    }

    /// The definition of a cell's material.
    pub(crate) fn definition(&self, cell: Cell) -> (def: MaterialDefinition)
        requires
            self@.materials.contains_key(cell.material),
        ensures
            def == self@.materials[cell.material],
    {
        self.registry.get(cell.material).unwrap()
    }

    /// Place of an inside position in the buffer.
    pub(crate) fn place(&self, x: usize, y: usize) -> (i: usize)
        requires
            self.wf(),
            self@.in_bounds(x as int, y as int),
        ensures
            i == self@.index(x as int, y as int),
            i < self.cells@.len(),
    {
        proof {
            lemma_index_bounds(self@.width, self@.height, x as int, y as int);
            assert(self.cells.len() == self.cells@.len());
            assert(y * self.width >= 0 && y * self.width <= y * self.width + x)
                by (nonlinear_arith)
                requires
                    y >= 0,
                    self.width >= 0,
                    x >= 0,
            ;
        }
        y * self.width + x
    }

    /// The cell at (x, y), or `OutOfBounds`.
    pub fn cell_at(&self, x: usize, y: usize) -> (r: Result<Cell, GridError>)
        requires
            self.wf(),
        ensures
            r == (if self@.in_bounds(x as int, y as int) {
                Ok::<Cell, GridError>(self@.at(x as int, y as int))
            } else {
                Err(GridError::OutOfBounds)
            }),
    {
        if !self.cell_exists(x, y) {
            return Err(GridError::OutOfBounds);
        }
        let i = self.place(x, y);
        Ok(self.cells[i])
    }

    /// The phase of the cell at (x, y), or `OutOfBounds`.
    pub fn phase_at(&self, x: usize, y: usize) -> (r: Result<Phase, GridError>)
        requires
            self.wf(),
        ensures
            r == (if self@.in_bounds(x as int, y as int) {
                Ok::<Phase, GridError>(phase_of(self@.materials, self@.at(x as int, y as int)))
            } else {
                Err(GridError::OutOfBounds)
            }),
    {
        if !self.cell_exists(x, y) {
            return Err(GridError::OutOfBounds);
        }
        let i = self.place(x, y);
        let cell = self.cells[i];
        Ok(self.definition(cell).phase(cell.temperature))
    }

    /// Overwrites the cell at (x, y). The bounds are checked first: outside
    /// the grid the call reports `OutOfBounds`, for a material that the
    /// registry lacks `UnknownMaterial`, and either way changes nothing.
    pub fn set_cell(&mut self, x: usize, y: usize, cell: Cell) -> (r: Result<(), GridError>)
        requires
            old(self).wf(),
        ensures
            final(self).wf(),
            final(self)@.same_frame(old(self)@),
            r == (if !old(self)@.in_bounds(x as int, y as int) {
                Err::<(), GridError>(GridError::OutOfBounds)
            } else if !old(self)@.materials.contains_key(cell.material) {
                Err(GridError::UnknownMaterial)
            } else {
                Ok(())
            }),
            r is Ok ==> final(self)@.cells == old(self)@.cells.update(
                old(self)@.index(x as int, y as int),
                cell,
            ),
            r is Err ==> final(self)@ == old(self)@,
    {
        if !self.cell_exists(x, y) {
            return Err(GridError::OutOfBounds);
        }
        if !self.registry.contains(cell.material) {
            return Err(GridError::UnknownMaterial);
        }
        let i = self.place(x, y);
        self.cells.set(i, cell);
        Ok(())
    }

    /// The guarded write for input from outside: applies `set_cell` where
    /// (x, y) exists and the material is known, and says whether it did.
    /// Where it did not, the grid is unchanged.
    pub fn paint(&mut self, x: usize, y: usize, cell: Cell) -> (applied: bool)
        requires
            old(self).wf(),
        ensures
            final(self).wf(),
            final(self)@.same_frame(old(self)@),
            applied == (old(self)@.in_bounds(x as int, y as int) && old(
                self,
            )@.materials.contains_key(cell.material)),
            applied ==> final(self)@.cells == old(self)@.cells.update(
                old(self)@.index(x as int, y as int),
                cell,
            ),
            !applied ==> final(self)@ == old(self)@,
    {
        match self.set_cell(x, y, cell) {
            Ok(()) => true,
            Err(_) => false,
        }
    }
}

} // verus!
