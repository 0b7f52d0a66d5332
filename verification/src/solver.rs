//! The three movement passes over a grid.

use vstd::prelude::*;
use crate::cell::{is_rigid_solid, Cell};
use crate::grid::Grid;
use crate::material::Phase;
use crate::model::swapped;
use crate::motion::{
    acts, drift_of, gas_target, lemma_pass_rearranges, lemma_row_span, lemma_run_keeps,
    lemma_target_valid, liquid_target, pass, powder_target, prefers_left, rises_into, run_length,
    scan_place, scramble, sinks_into, Drift, Solver, Sweep, FLOW_LIMIT,
};

verus! {

/// The tie-break between left and right at a place in a tick.
pub fn left_first(tick: u64, place: usize) -> (left: bool)
    ensures
        left == prefers_left(tick, place as int),
{
    (tick % 2 == 0) == (place % 2 == 0)
}

/// The direction that a vapor at a place tries in a tick.
pub fn drift(tick: u64, place: usize) -> (d: Drift)
    ensures
        d == drift_of(tick, place as int),
{
    reveal(scramble);
    let a = tick.wrapping_mul(0x9E37_79B9_7F4A_7C15u64).wrapping_add(
        (place as u64).wrapping_mul(0xD6E8_FEB8_6659_FD93u64),
    );
    let b = (a ^ (a >> 30u64)).wrapping_mul(0xBF58_476D_1CE4_E5B9u64);
    let c = (b ^ (b >> 27u64)).wrapping_mul(0x94D0_49BB_1331_11EBu64);
    let r = (c ^ (c >> 31u64)) % 4;
    if r < 2 {
        Drift::Up
    } else if r == 2 {
        Drift::Left
    } else {
        Drift::Right
    }
}

impl Grid {
    /// Whether `mover`, a powder or a liquid, sinks into `other`.
    fn sinks(&self, mover: Cell, other: Cell) -> (r: bool)
        requires
            self@.materials.contains_key(mover.material),
            self@.materials.contains_key(other.material),
        ensures
            r == sinks_into(self@.materials, mover, other),
    {
        let def = self.definition(other);
        match def.phase(other.temperature) {
            Phase::Vapor => true,
            Phase::Liquid => def.liquid_density < self.definition(mover).liquid_density,
            Phase::Solid => false,
        }
    }

    /// Whether `mover`, a vapor, rises or drifts into `other`.
    fn rises(&self, mover: Cell, other: Cell) -> (r: bool)
        requires
            self@.materials.contains_key(mover.material),
            self@.materials.contains_key(other.material),
        ensures
            r == rises_into(self@.materials, mover, other),
    {
        let def = self.definition(other);
        match def.phase(other.temperature) {
            Phase::Vapor => def.gas_density > self.definition(mover).gas_density,
            _ => false,
        }
    }

    /// Whether a pass of `kind` moves `cell`.
    fn moves_in(&self, kind: Solver, cell: Cell) -> (r: bool)
        requires
            self@.materials.contains_key(cell.material),
        ensures
            r == acts(self@.materials, kind, cell),
    {
        let def = self.definition(cell);
        let phase = def.phase(cell.temperature);
        match kind {
            Solver::Powder => phase == Phase::Solid && !def.rigid,
            Solver::Liquid => phase == Phase::Liquid,
            Solver::Gas => phase == Phase::Vapor,
        }
    }

    /// Length of the run of cells beside `place` that `mover` can flow over.
    fn flow_run(&self, mover: Cell, place: usize, leftward: bool) -> (r: usize)
        requires
            self.wf(),
            place < self@.cells.len(),
            self@.materials.contains_key(mover.material),
        ensures
            r == run_length(
                self@,
                mover,
                place as int,
                place as int % (self@.width as int),
                leftward,
                FLOW_LIMIT as nat,
            ),
            r <= FLOW_LIMIT,
            leftward ==> r <= place,
            !leftward ==> place + r < self@.cells.len(),
    {
        proof {
            lemma_row_span(self@.width, self@.height, place as int);
        }
        let column: usize = place % self.width;
        assert(self.cells.len() == self@.cells.len());
        let ghost whole = run_length(
            self@,
            mover,
            place as int,
            column as int,
            leftward,
            FLOW_LIMIT as nat,
        );
        let mut r: usize = 0;
        while r < FLOW_LIMIT
            invariant
                self.wf(),
                place < self@.cells.len(),
                self@.materials.contains_key(mover.material),
                column == place as int % (self@.width as int),
                0 <= place - column,
                place - column + self@.width <= self@.cells.len(),
                self@.cells.len() <= usize::MAX,
                r <= FLOW_LIMIT,
                leftward ==> r <= column,
                !leftward ==> column + r < self@.width,
                whole == r + run_length(
                    self@,
                    mover,
                    if leftward {
                        place - r
                    } else {
                        place + r
                    },
                    if leftward {
                        column - r
                    } else {
                        column + r
                    },
                    leftward,
                    (FLOW_LIMIT - r) as nat,
                ),
            ensures
                whole == r,
                r <= FLOW_LIMIT,
                leftward ==> r <= column,
                !leftward ==> column + r < self@.width,
            decreases FLOW_LIMIT - r,
        {
            if leftward {
                if column - r == 0 {
                    break ;
                }
                let next = self.cells[place - r - 1];
                if !self.sinks(mover, next) {
                    break ;
                }
            } else {
                if column + r == self.width - 1 {
                    break ;
                }
                let next = self.cells[place + r + 1];
                if !self.sinks(mover, next) {
                    break ;
                }
            }
            r = r + 1;
        }
        r
    }

    /// Where the granular cell at `place` falls.
    fn powder_move(&self, tick: u64, place: usize) -> (t: Option<usize>)
        requires
            self.wf(),
            place < self@.cells.len(),
        ensures
            t == match powder_target(self@, tick, place as int) {
                Some(i) => Some(i as usize),
                None => None,
            },
            powder_target(self@, tick, place as int) matches Some(i) ==> 0 <= i
                < self@.cells.len(),
    {
        proof {
            lemma_row_span(self@.width, self@.height, place as int);
            lemma_target_valid(self@, Solver::Powder, tick, place as int);
        }
        let count = self.cells.len();
        let width = self.width;
        if count - place <= width {
            return None;
        }
        let column: usize = place % width;
        let mover = self.cells[place];
        let below: usize = place + width;
        if self.sinks(mover, self.cells[below]) {
            return Some(below);
        }
        let left = column > 0 && self.sinks(mover, self.cells[below - 1]);
        let right = column < width - 1 && self.sinks(mover, self.cells[below + 1]);
        if left && (!right || left_first(tick, place)) {
            Some(below - 1)
        } else if right {
            Some(below + 1)
        } else {
            None
        }
    }

    /// Where the liquid cell at `place` flows.
    fn liquid_move(&self, tick: u64, place: usize) -> (t: Option<usize>)
        requires
            self.wf(),
            place < self@.cells.len(),
        ensures
            t == match liquid_target(self@, tick, place as int) {
                Some(i) => Some(i as usize),
                None => None,
            },
            liquid_target(self@, tick, place as int) matches Some(i) ==> 0 <= i
                < self@.cells.len(),
    {
        proof {
            lemma_row_span(self@.width, self@.height, place as int);
            lemma_target_valid(self@, Solver::Liquid, tick, place as int);
        }
        let count = self.cells.len();
        let width = self.width;
        let mover = self.cells[place];
        if count - place > width {
            let below: usize = place + width;
            if self.sinks(mover, self.cells[below]) {
                return Some(below);
            }
        }
        let left = self.flow_run(mover, place, true);
        let right = self.flow_run(mover, place, false);
        if left > 0 && (right == 0 || left_first(tick, place)) {
            Some(place - left)
        } else if right > 0 {
            Some(place + right)
        } else {
            None
        }
    }

    /// Where the vapor cell at `place` goes.
    fn gas_move(&self, tick: u64, place: usize) -> (t: Option<usize>)
        requires
            self.wf(),
            place < self@.cells.len(),
        ensures
            t == match gas_target(self@, tick, place as int) {
                Some(i) => Some(i as usize),
                None => None,
            },
            gas_target(self@, tick, place as int) matches Some(i) ==> 0 <= i
                < self@.cells.len(),
    {
        proof {
            lemma_row_span(self@.width, self@.height, place as int);
            lemma_target_valid(self@, Solver::Gas, tick, place as int);
        }
        assert(self.cells.len() == self@.cells.len());
        let width = self.width;
        let column: usize = place % width;
        let mover = self.cells[place];
        match drift(tick, place) {
            Drift::Up => {
                if place >= width && self.rises(mover, self.cells[place - width]) {
                    Some(place - width)
                } else {
                    None
                }
            },
            Drift::Left => {
                if column > 0 && self.rises(mover, self.cells[place - 1]) {
                    Some(place - 1)
                } else {
                    None
                }
            },
            Drift::Right => {
                if column < width - 1 && self.rises(mover, self.cells[place + 1]) {
                    Some(place + 1)
                } else {
                    None
                }
            },
        }
    }

    /// One sweep of `kind` over all places.
    fn sweep(&mut self, kind: Solver, tick: u64)
        requires
            old(self).wf(),
        ensures
            final(self).wf(),
            final(self)@.same_frame(old(self)@),
            final(self)@.cells == pass(old(self)@, kind, tick),
    {
        let ghost before = self@;
        let count = self.cells.len();
        let mut moved: Vec<bool> = Vec::new();
        let mut filled: usize = 0;
        while filled < count
            invariant
                filled <= count,
                moved@ == Seq::new(filled as nat, |i: int| false),
            decreases count - filled,
        {
            moved.push(false);
            filled = filled + 1;
        }
        let mut i: usize = 0;
        while i < count
            invariant
                before.wf(),
                count == before.cells.len(),
                i <= count,
                self.wf(),
                self@.same_frame(before),
                (Sweep { grid: self@, moved: moved@ }) == Sweep::start(before).run(
                    kind,
                    tick,
                    0,
                    i as nat,
                ),
            decreases count - i,
        {
            proof {
                lemma_run_keeps(before, kind, tick, i as nat);
            }
            let place: usize = match kind {
                Solver::Gas => i,
                _ => count - 1 - i,
            };
            if !moved[place] {
                let cell = self.cells[place];
                if self.moves_in(kind, cell) {
                    let goal = match kind {
                        Solver::Powder => self.powder_move(tick, place),
                        Solver::Liquid => self.liquid_move(tick, place),
                        Solver::Gas => self.gas_move(tick, place),
                    };
                    match goal {
                        Some(t) => {
                            let other = self.cells[t];
                            self.cells.set(place, other);
                            self.cells.set(t, cell);
                            moved.set(t, true);
                        },
                        None => {},
                    }
                }
            }
            proof {
                lemma_run_keeps(before, kind, tick, (i + 1) as nat);
            }
            i = i + 1;
        }
    }

    /// The powder pass: every granular cell that can fall moves one row
    /// down, straight or diagonally.
    pub fn solve_powder(&mut self, tick_index: u64)
        requires
            old(self).wf(),
        ensures
            final(self).wf(),
            final(self)@.same_frame(old(self)@),
            final(self)@.cells == pass(old(self)@, Solver::Powder, tick_index),
            final(self)@.cells.to_multiset() == old(self)@.cells.to_multiset(),
            forall|i: int|
                0 <= i < old(self)@.cells.len() && is_rigid_solid(
                    old(self)@.materials,
                    #[trigger] old(self)@.cells[i],
                ) ==> final(self)@.cells[i] == old(self)@.cells[i],
    {
        proof {
            lemma_pass_rearranges(self@, Solver::Powder, tick_index);
        }
        self.sweep(Solver::Powder, tick_index);
    }

    /// The liquid pass: every liquid cell that can sink moves one row down,
    /// and one that cannot flows sideways.
    pub fn solve_liquids(&mut self, tick_index: u64)
        requires
            old(self).wf(),
        ensures
            final(self).wf(),
            final(self)@.same_frame(old(self)@),
            final(self)@.cells == pass(old(self)@, Solver::Liquid, tick_index),
            final(self)@.cells.to_multiset() == old(self)@.cells.to_multiset(),
            forall|i: int|
                0 <= i < old(self)@.cells.len() && is_rigid_solid(
                    old(self)@.materials,
                    #[trigger] old(self)@.cells[i],
                ) ==> final(self)@.cells[i] == old(self)@.cells[i],
    {
        proof {
            lemma_pass_rearranges(self@, Solver::Liquid, tick_index);
        }
        self.sweep(Solver::Liquid, tick_index);
    }

    /// The gas pass: every vapor cell tries one direction, up or sideways,
    /// and moves where a heavier vapor is in the way.
    pub fn solve_gas(&mut self, tick_index: u64)
        requires
            old(self).wf(),
        ensures
            final(self).wf(),
            final(self)@.same_frame(old(self)@),
            final(self)@.cells == pass(old(self)@, Solver::Gas, tick_index),
            final(self)@.cells.to_multiset() == old(self)@.cells.to_multiset(),
            forall|i: int|
                0 <= i < old(self)@.cells.len() && is_rigid_solid(
                    old(self)@.materials,
                    #[trigger] old(self)@.cells[i],
                ) ==> final(self)@.cells[i] == old(self)@.cells[i],
    {
        proof {
            lemma_pass_rearranges(self@, Solver::Gas, tick_index);
        }
        self.sweep(Solver::Gas, tick_index);
    }
}

} // verus!
