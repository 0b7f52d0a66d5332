//! The movement rules: which cells act in a pass, which neighbour an acting
//! cell moves to, and the sweep that applies the rule to every place once.
//!
//! Every movement is an exchange of two cells with all their contents. A
//! powder or a liquid sinks into vapor and into lighter liquid; a vapor rises
//! or drifts into heavier vapor. A cell that has moved in a sweep does not act
//! again in it.

use vstd::prelude::*;
use crate::cell::{is_granular, is_rigid_solid, phase_of, Cell};
use crate::material::{MaterialDefinition, MaterialId, Phase};
use crate::model::{lemma_place_bounds, swapped, GridView};

verus! {

/// The three movement passes.
#[derive(Clone, Copy, Debug, PartialEq, Eq, Structural)]
pub enum Solver {
    Powder,
    Liquid,
    Gas,
}

/// The direction that a vapor cell tries in one tick.
#[derive(Clone, Copy, Debug, PartialEq, Eq, Structural)]
pub enum Drift {
    Up,
    Left,
    Right,
}

/// How many cells a liquid can flow sideways in one tick.
pub const FLOW_LIMIT: usize = 4;

/// Whether `kind` moves this cell: the powder pass granular cells, the
/// liquid pass liquid cells, the gas pass vapor cells.
pub open spec fn acts(
    materials: Map<MaterialId, MaterialDefinition>,
    kind: Solver,
    cell: Cell,
) -> bool {
    match kind {
        Solver::Powder => is_granular(materials, cell),
        Solver::Liquid => phase_of(materials, cell) == Phase::Liquid,
        Solver::Gas => phase_of(materials, cell) == Phase::Vapor,
    }
}

/// A powder or a liquid sinks into vapor, which counts as empty, and into
/// liquid of lower density; never into a solid.
pub open spec fn sinks_into(
    materials: Map<MaterialId, MaterialDefinition>,
    mover: Cell,
    target: Cell,
) -> bool {
    match phase_of(materials, target) {
        Phase::Vapor => true,
        Phase::Liquid => materials[target.material].liquid_density
            < materials[mover.material].liquid_density,
        Phase::Solid => false,
    }
}

/// A vapor rises or drifts into vapor of higher gas density, and into
/// nothing else.
pub open spec fn rises_into(
    materials: Map<MaterialId, MaterialDefinition>,
    mover: Cell,
    target: Cell,
) -> bool {
    phase_of(materials, target) == Phase::Vapor && materials[target.material].gas_density
        > materials[mover.material].gas_density
}

/// Whether `mover`, acting in `kind`, may exchange places with `target`.
pub open spec fn displaces(
    materials: Map<MaterialId, MaterialDefinition>,
    kind: Solver,
    mover: Cell,
    target: Cell,
) -> bool {
    match kind {
        Solver::Gas => rises_into(materials, mover, target),
        _ => sinks_into(materials, mover, target),
    }
}

/// The tie-break between left and right: it alternates from place to place
/// and from tick to tick.
pub open spec fn prefers_left(tick: u64, place: int) -> bool {
    (tick + place) % 2 == 0
}

/// A reproducible scramble of a tick and a place.
#[verifier::opaque]
pub open spec fn scramble(tick: u64, place: u64) -> u64 {
    let a = tick.wrapping_mul(0x9E37_79B9_7F4A_7C15u64).wrapping_add(
        place.wrapping_mul(0xD6E8_FEB8_6659_FD93u64),
    );
    let b = (a ^ (a >> 30u64)).wrapping_mul(0xBF58_476D_1CE4_E5B9u64);
    let c = (b ^ (b >> 27u64)).wrapping_mul(0x94D0_49BB_1331_11EBu64);
    c ^ (c >> 31u64)
}

/// The direction that the vapor at `place` tries in `tick`: up in half of
/// the cases, left and right in a quarter each.
pub open spec fn drift_of(tick: u64, place: int) -> Drift {
    let r = scramble(tick, place as u64) % 4;
    if r < 2 {
        Drift::Up
    } else if r == 2 {
        Drift::Left
    } else {
        Drift::Right
    }
}

/// Number of cells in a row, next to `from` and onward in one direction,
/// that `mover` sinks into without a gap, counted up to `limit`. `column` is
/// the column of `from`.
pub open spec fn run_length(
    v: GridView,
    mover: Cell,
    from: int,
    column: int,
    leftward: bool,
    limit: nat,
) -> nat
    decreases limit,
{
    if limit == 0 {
        0
    } else if leftward {
        if column > 0 && sinks_into(v.materials, mover, v.cells[from - 1]) {
            1 + run_length(v, mover, from - 1, column - 1, true, (limit - 1) as nat)
        } else {
            0
        }
    } else {
        if column < v.width - 1 && sinks_into(v.materials, mover, v.cells[from + 1]) {
            1 + run_length(v, mover, from + 1, column + 1, false, (limit - 1) as nat)
        } else {
            0
        }
    }
}

/// Where the granular cell at `place` falls: straight down where it sinks
/// into the cell below; else diagonally down, to the preferred side where
/// both are open; nowhere on the floor or where all three are closed.
pub open spec fn powder_target(v: GridView, tick: u64, place: int) -> Option<int> {
    let w = v.width as int;
    let column = place % w;
    let mover = v.cells[place];
    let below = place + w;
    if below >= v.cells.len() {
        None
    } else if sinks_into(v.materials, mover, v.cells[below]) {
        Some(below)
    } else {
        let left = column > 0 && sinks_into(v.materials, mover, v.cells[below - 1]);
        let right = column < w - 1 && sinks_into(v.materials, mover, v.cells[below + 1]);
        if left && (!right || prefers_left(tick, place)) {
            Some(below - 1)
        } else if right {
            Some(below + 1)
        } else {
            None
        }
    }
}

/// Where the liquid cell at `place` flows: straight down where it sinks
/// into the cell below; else sideways along its row, over cells that it
/// sinks into, as far as they go without a gap and at most `FLOW_LIMIT`
/// cells, to the preferred side where both are open.
pub open spec fn liquid_target(v: GridView, tick: u64, place: int) -> Option<int> {
    let w = v.width as int;
    let column = place % w;
    let mover = v.cells[place];
    let below = place + w;
    if below < v.cells.len() && sinks_into(v.materials, mover, v.cells[below]) {
        Some(below)
    } else {
        let left = run_length(v, mover, place, column, true, FLOW_LIMIT as nat);
        let right = run_length(v, mover, place, column, false, FLOW_LIMIT as nat);
        if left > 0 && (right == 0 || prefers_left(tick, place)) {
            Some(place - left)
        } else if right > 0 {
            Some(place + right)
        } else {
            None
        }
    }
}

/// Where the vapor cell at `place` goes: to the neighbour in the direction
/// of its drift, where there is one and the cell rises into it.
pub open spec fn gas_target(v: GridView, tick: u64, place: int) -> Option<int> {
    let w = v.width as int;
    let column = place % w;
    let mover = v.cells[place];
    match drift_of(tick, place) {
        Drift::Up => if place >= w && rises_into(v.materials, mover, v.cells[place - w]) {
            Some(place - w)
        } else {
            None
        },
        Drift::Left => if column > 0 && rises_into(v.materials, mover, v.cells[place - 1]) {
            Some(place - 1)
        } else {
            None
        },
        Drift::Right => if column < w - 1 && rises_into(
            v.materials,
            mover,
            v.cells[place + 1],
        ) {
            Some(place + 1)
        } else {
            None
        },
    }
}

/// Where the acting cell at `place` moves in a pass of `kind`.
pub open spec fn target(v: GridView, kind: Solver, tick: u64, place: int) -> Option<int> {
    match kind {
        Solver::Powder => powder_target(v, tick, place),
        Solver::Liquid => liquid_target(v, tick, place),
        Solver::Gas => gas_target(v, tick, place),
    }
}

/// The place that a sweep of `kind` visits at its `i`-th step: powder and
/// liquid go from the last place to the first, so from the bottom row up;
/// gas goes from the first to the last, so from the top row down.
pub open spec fn scan_place(kind: Solver, count: int, i: int) -> int {
    match kind {
        Solver::Gas => i,
        _ => count - 1 - i,
    }
}

/// A sweep in progress: the grid so far, and the places whose cell has moved
/// there in this sweep.
pub struct Sweep {
    pub grid: GridView,
    pub moved: Seq<bool>,
}

impl Sweep {
    /// The sweep before its first step.
    pub open spec fn start(v: GridView) -> Sweep {
        Sweep { grid: v, moved: Seq::new(v.cells.len(), |i: int| false) }
    }

    pub open spec fn wf(self) -> bool {
        self.grid.wf() && self.moved.len() == self.grid.cells.len()
    }

    /// One step: the cell at `place`, if it acts, has not moved yet and has
    /// a target, changes places with the target and is marked as moved.
    pub open spec fn step(self, kind: Solver, tick: u64, place: int) -> Sweep {
        if self.moved[place] || !acts(self.grid.materials, kind, self.grid.cells[place]) {
            self
        } else {
            match target(self.grid, kind, tick, place) {
                None => self,
                Some(t) => Sweep {
                    grid: self.grid.with_cells(swapped(self.grid.cells, place, t)),
                    moved: self.moved.update(t, true),
                },
            }
        }
    }

    /// The sweep after the `i`-th step of a pass, taken alone.
    pub open spec fn nth(self, kind: Solver, tick: u64, i: int) -> Sweep {
        self.step(kind, tick, scan_place(kind, self.grid.cells.len() as int, i))
    }

    /// Whether the `i`-th step of a pass changes nothing here.
    pub open spec fn idle_at(self, kind: Solver, tick: u64, i: int) -> bool {
        self.nth(kind, tick, i) == self
    }

    /// The steps `from` up to `to` of a sweep, in order.
    pub open spec fn run(self, kind: Solver, tick: u64, from: nat, to: nat) -> Sweep
        decreases to,
    {
        if to <= from {
            self
        } else {
            self.run(kind, tick, from, (to - 1) as nat).step(
                kind,
                tick,
                scan_place(kind, self.grid.cells.len() as int, to - 1),
            )
        }
    }
}

/// The buffer after a whole pass of `kind` over the grid.
pub open spec fn pass(v: GridView, kind: Solver, tick: u64) -> Seq<Cell> {
    Sweep::start(v).run(kind, tick, 0, v.cells.len()).grid.cells
}

/// The row of a place lies whole inside the buffer, and so does the row
/// below it where the place is not on the floor.
pub proof fn lemma_row_span(width: nat, height: nat, place: int)
    requires
        0 <= place < width * height,
    ensures
        width > 0,
        0 <= place % (width as int) < width,
        0 <= place - place % (width as int),
        place - place % (width as int) + width <= width * height,
        place + width < width * height ==> place - place % (width as int) + 2 * width <= width
            * height,
{
    lemma_place_bounds(width, height, place);
    let w = width as int;
    let q = place / w;
    let c = place % w;
    assert((q + 1) * w <= width * height && (q + 1) * w == q * w + w) by (nonlinear_arith)
        requires
            0 <= q < height,
            w == width,
            w > 0,
    ;
    if place + width < width * height {
        assert(q + 1 < height) by (nonlinear_arith)
            requires
                q * w + c + w < w * height,
                0 <= c,
                w > 0,
                0 <= q < height,
        ;
        assert((q + 2) * w <= width * height && (q + 2) * w == q * w + 2 * w) by (nonlinear_arith)
            requires
                0 <= q,
                q + 1 < height,
                w == width,
                w > 0,
        ;
    }
}

/// A run stays inside its row and within its limit, and the mover sinks
/// into the cell at its end.
pub proof fn lemma_run_length_bounds(
    v: GridView,
    mover: Cell,
    from: int,
    column: int,
    leftward: bool,
    limit: nat,
)
    requires
        0 <= column < v.width,
    ensures
        run_length(v, mover, from, column, leftward, limit) <= limit,
        leftward ==> run_length(v, mover, from, column, leftward, limit) <= column,
        !leftward ==> run_length(v, mover, from, column, leftward, limit) <= v.width - 1 - column,
        run_length(v, mover, from, column, leftward, limit) > 0 ==> sinks_into(
            v.materials,
            mover,
            v.cells[if leftward {
                from - run_length(v, mover, from, column, leftward, limit)
            } else {
                from + run_length(v, mover, from, column, leftward, limit)
            }],
        ),
    decreases limit,
{
    if limit > 0 {
        if leftward {
            if column > 0 && sinks_into(v.materials, mover, v.cells[from - 1]) {
                lemma_run_length_bounds(v, mover, from - 1, column - 1, true, (limit - 1) as nat);
            }
        } else {
            if column < v.width - 1 && sinks_into(v.materials, mover, v.cells[from + 1]) {
                lemma_run_length_bounds(v, mover, from + 1, column + 1, false, (limit - 1) as nat);
            }
        }
    }
}

/// Whether `t` is within the reach of a cell at `place` in one pass: for a
/// powder the three places under it in the next row, for a liquid the place
/// under it and the places of its own row at most `FLOW_LIMIT` away, for a
/// vapor the place over it and the two beside it in its own row.
pub open spec fn within_reach(v: GridView, kind: Solver, place: int, t: int) -> bool {
    let w = v.width as int;
    let row = place - place % w;
    match kind {
        Solver::Powder => row + w <= t < row + 2 * w && place + w - 1 <= t <= place + w + 1,
        Solver::Liquid => t == place + w || (row <= t < row + w && place - FLOW_LIMIT <= t
            <= place + FLOW_LIMIT),
        Solver::Gas => t == place - w || (row <= t < row + w && place - 1 <= t <= place + 1),
    }
}

/// A target is another place of the buffer, within the reach of the mover,
/// and the mover displaces the cell there.
pub proof fn lemma_target_valid(v: GridView, kind: Solver, tick: u64, place: int)
    requires
        v.wf(),
        0 <= place < v.cells.len(),
    ensures
        match target(v, kind, tick, place) {
            Some(t) => {
                &&& 0 <= t < v.cells.len()
                &&& t != place
                &&& within_reach(v, kind, place, t)
                &&& displaces(v.materials, kind, v.cells[place], v.cells[t])
            },
            None => true,
        },
{
    lemma_row_span(v.width, v.height, place);
    let column = place % (v.width as int);
    if kind == Solver::Liquid {
        lemma_run_length_bounds(v, v.cells[place], place, column, true, FLOW_LIMIT as nat);
        lemma_run_length_bounds(v, v.cells[place], place, column, false, FLOW_LIMIT as nat);
    }
}

/// What every step of a sweep over `v` keeps: the frame, the cells as a
/// multiset, and every rigid solid cell in its place.
pub open spec fn keeps(v: GridView, s: Sweep) -> bool {
    &&& s.wf()
    &&& s.grid.same_frame(v)
    &&& s.grid.cells.len() == v.cells.len()
    &&& s.grid.cells.to_multiset() == v.cells.to_multiset()
    &&& forall|i: int|
        0 <= i < v.cells.len() && is_rigid_solid(v.materials, #[trigger] v.cells[i])
            ==> s.grid.cells[i] == v.cells[i]
}

/// Exchanging two cells of a buffer keeps its multiset.
pub proof fn lemma_swapped_multiset(cells: Seq<Cell>, a: int, b: int)
    requires
        0 <= a < cells.len(),
        0 <= b < cells.len(),
    ensures
        swapped(cells, a, b).to_multiset() == cells.to_multiset(),
        swapped(cells, a, b).len() == cells.len(),
{
    broadcast use vstd::multiset::group_multiset_axioms;

    let first = cells.update(a, cells[b]);
    vstd::seq_lib::to_multiset_update(cells, a, cells[b]);
    vstd::seq_lib::to_multiset_update(first, b, cells[a]);
    if a != b {
        vstd::seq_lib::to_multiset_contains(cells, cells[a]);
        vstd::seq_lib::to_multiset_contains(cells, cells[b]);
    }
}

/// A step keeps what a sweep keeps.
pub proof fn lemma_step_keeps(v: GridView, s: Sweep, kind: Solver, tick: u64, place: int)
    requires
        v.wf(),
        keeps(v, s),
        0 <= place < v.cells.len(),
    ensures
        keeps(v, s.step(kind, tick, place)),
{
    let next = s.step(kind, tick, place);
    if next != s {
        lemma_target_valid(s.grid, kind, tick, place);
        let t = target(s.grid, kind, tick, place).unwrap();
        lemma_swapped_multiset(s.grid.cells, place, t);
    }
}

/// Every prefix of a sweep keeps what a sweep keeps.
pub proof fn lemma_run_keeps(v: GridView, kind: Solver, tick: u64, to: nat)
    requires
        v.wf(),
        to <= v.cells.len(),
    ensures
        keeps(v, Sweep::start(v).run(kind, tick, 0, to)),
    decreases to,
{
    if to > 0 {
        lemma_run_keeps(v, kind, tick, (to - 1) as nat);
        let before = Sweep::start(v).run(kind, tick, 0, (to - 1) as nat);
        lemma_step_keeps(v, before, kind, tick, scan_place(kind, v.cells.len() as int, to - 1));
    }
}

/// A pass rearranges the cells and nothing more: the buffer keeps its
/// length and its cells as a multiset, the grid stays well formed, and no
/// rigid solid cell leaves its place.
pub proof fn lemma_pass_rearranges(v: GridView, kind: Solver, tick: u64)
    requires
        v.wf(),
    ensures
        pass(v, kind, tick).len() == v.cells.len(),
        pass(v, kind, tick).to_multiset() == v.cells.to_multiset(),
        v.with_cells(pass(v, kind, tick)).wf(),
        forall|i: int|
            0 <= i < v.cells.len() && is_rigid_solid(v.materials, #[trigger] v.cells[i]) ==> pass(
                v,
                kind,
                tick,
            )[i] == v.cells[i],
{
    lemma_run_keeps(v, kind, tick, v.cells.len());
}

} // verus!
