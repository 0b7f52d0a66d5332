//! Heat diffusion: each pair of neighbouring cells exchanges energy in
//! proportion to the difference of their temperatures.
//!
//! The energy that passes between two neighbours is
//! `gap * min(capacity) / (4 + resistance + resistance)`, from the hotter
//! cell to the cooler one, computed for all pairs from the temperatures at
//! the start of the tick. A cell's energy is its heat capacity times its
//! temperature; its new temperature is its new energy divided by its heat
//! capacity, rounded to the nearest Kelvin.

use vstd::prelude::*;
use crate::cell::Cell;
use crate::grid::Grid;
use crate::material::{MaterialDefinition, MaterialId};
use crate::model::GridView;
use crate::motion::lemma_row_span;

verus! {

/// The four sides on which a cell has a neighbour.
#[derive(Clone, Copy, Debug, PartialEq, Eq, Structural)]
pub enum Side {
    Left,
    Right,
    Up,
    Down,
}

/// No exchange between two cells exceeds this much energy.
pub const EXCHANGE_LIMIT: u64 = 2305843007603081216;

/// The place next to `place` on `side`, where the grid has one.
pub open spec fn neighbour(v: GridView, place: int, side: Side) -> Option<int> {
    let w = v.width as int;
    match side {
        Side::Left => if place % w > 0 {
            Some(place - 1)
        } else {
            None
        },
        Side::Right => if place % w < w - 1 {
            Some(place + 1)
        } else {
            None
        },
        Side::Up => if place >= w {
            Some(place - w)
        } else {
            None
        },
        Side::Down => if place + w < v.cells.len() {
            Some(place + w)
        } else {
            None
        },
    }
}

/// Energy that passes between two neighbouring cells in one tick, from the
/// hotter to the cooler.
pub open spec fn exchange(materials: Map<MaterialId, MaterialDefinition>, a: Cell, b: Cell) -> int {
    let da = materials[a.material];
    let db = materials[b.material];
    let gap = if a.temperature >= b.temperature {
        a.temperature - b.temperature
    } else {
        b.temperature - a.temperature
    };
    let capacity = if da.heat_capacity <= db.heat_capacity {
        da.heat_capacity
    } else {
        db.heat_capacity
    };
    (gap * capacity) / (4 + da.heat_resistance + db.heat_resistance)
}

/// Energy that `cell` receives from `other`: the exchange where `other` is
/// hotter, nothing where it is not.
pub open spec fn gain_from(
    materials: Map<MaterialId, MaterialDefinition>,
    cell: Cell,
    other: Cell,
) -> int {
    if other.temperature > cell.temperature {
        exchange(materials, cell, other)
    } else {
        0
    }
}

/// Energy that `cell` gives to `other`: the exchange where `other` is
/// cooler, nothing where it is not.
pub open spec fn loss_to(
    materials: Map<MaterialId, MaterialDefinition>,
    cell: Cell,
    other: Cell,
) -> int {
    if other.temperature < cell.temperature {
        exchange(materials, cell, other)
    } else {
        0
    }
}

/// Energy that the cell at `place` receives from its neighbour on `side`.
pub open spec fn gain_on(v: GridView, place: int, side: Side) -> int {
    match neighbour(v, place, side) {
        Some(j) => gain_from(v.materials, v.cells[place], v.cells[j]),
        None => 0,
    }
}

/// Energy that the cell at `place` gives to its neighbour on `side`.
pub open spec fn loss_on(v: GridView, place: int, side: Side) -> int {
    match neighbour(v, place, side) {
        Some(j) => loss_to(v.materials, v.cells[place], v.cells[j]),
        None => 0,
    }
}

/// Energy that the cell at `place` receives in one tick.
pub open spec fn gain(v: GridView, place: int) -> int {
    gain_on(v, place, Side::Left) + gain_on(v, place, Side::Right) + gain_on(v, place, Side::Up)
        + gain_on(v, place, Side::Down)
}

/// Energy that the cell at `place` gives away in one tick.
pub open spec fn loss(v: GridView, place: int) -> int {
    loss_on(v, place, Side::Left) + loss_on(v, place, Side::Right) + loss_on(v, place, Side::Up)
        + loss_on(v, place, Side::Down)
}

/// Thermal energy of the cell at `place`: heat capacity times temperature.
pub open spec fn energy(v: GridView, place: int) -> int {
    v.def(place).heat_capacity * v.cells[place].temperature
}

/// The temperature that an amount of energy gives a cell of heat capacity
/// `capacity`, rounded to the nearest Kelvin and kept inside the range of a
/// temperature.
pub open spec fn temperature_for(amount: int, capacity: int) -> int {
    let kept = if amount < 0 {
        0
    } else {
        amount
    };
    let t = (kept + capacity / 2) / capacity;
    if t > u32::MAX {
        u32::MAX as int
    } else {
        t
    }
}

/// Temperature of the cell at `place` after one tick of diffusion. A cell
/// without heat capacity exchanges nothing and keeps its temperature.
pub open spec fn next_temperature(v: GridView, place: int) -> int {
    let capacity = v.def(place).heat_capacity as int;
    if capacity == 0 {
        v.cells[place].temperature as int
    } else {
        temperature_for(energy(v, place) + gain(v, place) - loss(v, place), capacity)
    }
}

/// The buffer after one tick of diffusion: every cell with its next
/// temperature, all computed from the temperatures before the tick.
pub open spec fn diffused(v: GridView) -> Seq<Cell> {
    Seq::new(
        v.cells.len(),
        |i: int| Cell { temperature: next_temperature(v, i) as u32, ..v.cells[i] },
    )
}

/// Sum of the temperatures of the neighbours of `place` and of as many
/// copies of its own temperature as it lacks neighbours.
pub open spec fn surroundings(v: GridView, place: int) -> int {
    share_on(v, place, Side::Left) + share_on(v, place, Side::Right) + share_on(
        v,
        place,
        Side::Up,
    ) + share_on(v, place, Side::Down)
}

/// Temperature of the neighbour on `side`, or the cell's own where it has
/// none there.
pub open spec fn share_on(v: GridView, place: int, side: Side) -> int {
    match neighbour(v, place, side) {
        Some(j) => v.cells[j].temperature as int,
        None => v.cells[place].temperature as int,
    }
}

/// Temperature of the cell at `place` after one tick of the simplified
/// diffusion: one half its own temperature, one half the mean of its
/// surroundings, rounded down.
pub open spec fn next_temperature_simplified(v: GridView, place: int) -> int {
    (4 * v.cells[place].temperature + surroundings(v, place)) / 8
}

/// The buffer after one tick of the simplified diffusion.
pub open spec fn diffused_simplified(v: GridView) -> Seq<Cell> {
    Seq::new(
        v.cells.len(),
        |i: int| Cell { temperature: next_temperature_simplified(v, i) as u32, ..v.cells[i] },
    )
}

/// An exchange moves at most a quarter of what would level the two cells,
/// measured by either cell's heat capacity.
pub proof fn lemma_exchange_bound(materials: Map<MaterialId, MaterialDefinition>, a: Cell, b: Cell)
    requires
        materials[a.material].valid(),
        materials[b.material].valid(),
    ensures
        0 <= exchange(materials, a, b) <= EXCHANGE_LIMIT,
        exchange(materials, a, b) == exchange(materials, b, a),
        a.temperature >= b.temperature ==> 4 * exchange(materials, a, b) <= (a.temperature
            - b.temperature) * materials[a.material].heat_capacity,
        a.temperature >= b.temperature ==> 4 * exchange(materials, a, b) <= (a.temperature
            - b.temperature) * materials[b.material].heat_capacity,
        a.temperature <= b.temperature ==> 4 * exchange(materials, a, b) <= (b.temperature
            - a.temperature) * materials[a.material].heat_capacity,
        a.temperature <= b.temperature ==> 4 * exchange(materials, a, b) <= (b.temperature
            - a.temperature) * materials[b.material].heat_capacity,
{
    let da = materials[a.material];
    let db = materials[b.material];
    let gap: int = if a.temperature >= b.temperature {
        a.temperature - b.temperature
    } else {
        b.temperature - a.temperature
    };
    let capacity: int = if da.heat_capacity <= db.heat_capacity {
        da.heat_capacity as int
    } else {
        db.heat_capacity as int
    };
    let d: int = 4 + da.heat_resistance + db.heat_resistance;
    let x = gap * capacity;
    assert(0 <= x <= 0xFFFF_FFFF * 0x7FFF_FFFF && x <= gap * da.heat_capacity && x <= gap
        * db.heat_capacity) by (nonlinear_arith)
        requires
            x == gap * capacity,
            0 <= gap <= 0xFFFF_FFFF,
            0 <= capacity <= 0x7FFF_FFFF,
            capacity <= da.heat_capacity,
            capacity <= db.heat_capacity,
    ;
    vstd::arithmetic::div_mod::lemma_div_is_ordered_by_denominator(x, 4, d);
    vstd::arithmetic::div_mod::lemma_div_pos_is_pos(x, d);
}

impl Grid {
    /// Energy exchanged between two cells in one tick.
    fn exchanged(&self, a: Cell, b: Cell) -> (q: u64)
        requires
            self.wf(),
            self@.materials.contains_key(a.material),
            self@.materials.contains_key(b.material),
        ensures
            q == exchange(self@.materials, a, b),
            q <= EXCHANGE_LIMIT,
    {
        let da = self.definition(a);
        let db = self.definition(b);
        proof {
            lemma_exchange_bound(self@.materials, a, b);
        }
        let gap: u64 = if a.temperature >= b.temperature {
            (a.temperature - b.temperature) as u64
        } else {
            (b.temperature - a.temperature) as u64
        };
        let capacity: u64 = if da.heat_capacity <= db.heat_capacity {
            da.heat_capacity as u64
        } else {
            db.heat_capacity as u64
        };
        let divisor: u64 = 4 + da.heat_resistance as u64 + db.heat_resistance as u64;
        assert(gap * capacity <= 0xFFFF_FFFF * 0x7FFF_FFFF) by (nonlinear_arith)
            requires
                0 <= gap <= 0xFFFF_FFFF,
                0 <= capacity <= 0x7FFF_FFFF,
        ;
        (gap * capacity) / divisor
    }

    /// The place next to `place` on `side`, where the grid has one.
    pub(crate) fn beside(&self, place: usize, side: Side) -> (r: Option<usize>)
        requires
            self.wf(),
            place < self@.cells.len(),
        ensures
            match neighbour(self@, place as int, side) {
                Some(j) => 0 <= j < self@.cells.len() <= usize::MAX && r == Some(j as usize),
                None => r is None,
            },
    {
        proof {
            lemma_row_span(self@.width, self@.height, place as int);
        }
        assert(self.cells.len() == self@.cells.len());
        match side {
            Side::Left => if place % self.width > 0 {
                Some(place - 1)
            } else {
                None
            },
            Side::Right => if place % self.width < self.width - 1 {
                Some(place + 1)
            } else {
                None
            },
            Side::Up => if place >= self.width {
                Some(place - self.width)
            } else {
                None
            },
            Side::Down => if self.cells.len() - place > self.width {
                Some(place + self.width)
            } else {
                None
            },
        }
    }

    /// What the cell at `place` receives from and gives to one side.
    fn flows_on(&self, place: usize, side: Side) -> (r: (u64, u64))
        requires
            self.wf(),
            place < self@.cells.len(),
        ensures
            r.0 == gain_on(self@, place as int, side),
            r.1 == loss_on(self@, place as int, side),
            r.0 <= EXCHANGE_LIMIT,
            r.1 <= EXCHANGE_LIMIT,
    {
        match self.beside(place, side) {
            Some(j) => {
                let cell = self.cells[place];
                let other = self.cells[j];
                let q = self.exchanged(cell, other);
                if other.temperature > cell.temperature {
                    (q, 0)
                } else if other.temperature < cell.temperature {
                    (0, q)
                } else {
                    (0, 0)
                }
            },
            None => (0, 0),
        }
    }

    /// The next temperature of the cell at `place`.
    fn next_temperature_at(&self, place: usize) -> (t: u32)
        requires
            self.wf(),
            place < self@.cells.len(),
        ensures
            t == next_temperature(self@, place as int),
    {
        let cell = self.cells[place];
        let def = self.definition(cell);
        let capacity: u64 = def.heat_capacity as u64;
        if capacity == 0 {
            return cell.temperature;
        }
        let left = self.flows_on(place, Side::Left);
        let right = self.flows_on(place, Side::Right);
        let up = self.flows_on(place, Side::Up);
        let down = self.flows_on(place, Side::Down);
        let gained: u64 = left.0 + right.0 + up.0 + down.0;
        let lost: u64 = left.1 + right.1 + up.1 + down.1;
        assert(capacity * cell.temperature <= 0x7FFF_FFFF * 0xFFFF_FFFF) by (nonlinear_arith)
            requires
                0 <= capacity <= 0x7FFF_FFFF,
                0 <= cell.temperature <= 0xFFFF_FFFF,
        ;
        let held: u64 = capacity * (cell.temperature as u64) + gained;
        let kept: u64 = if lost > held {
            0
        } else {
            held - lost
        };
        let t: u64 = (kept + capacity / 2) / capacity;
        if t > u32::MAX as u64 {
            u32::MAX
        } else {
            t as u32
        }
    }

    /// What the cell at `place` counts for one side in the simplified
    /// diffusion.
    fn share_at(&self, place: usize, side: Side) -> (t: u64)
        requires
            self.wf(),
            place < self@.cells.len(),
        ensures
            t == share_on(self@, place as int, side),
    {
        match self.beside(place, side) {
            Some(j) => self.cells[j].temperature as u64,
            None => self.cells[place].temperature as u64,
        }
    }

    /// The next temperature of the cell at `place` in the simplified
    /// diffusion.
    fn next_temperature_simplified_at(&self, place: usize) -> (t: u32)
        requires
            self.wf(),
            place < self@.cells.len(),
        ensures
            t == next_temperature_simplified(self@, place as int),
    {
        let own: u64 = self.cells[place].temperature as u64;
        let around: u64 = self.share_at(place, Side::Left) + self.share_at(place, Side::Right)
            + self.share_at(place, Side::Up) + self.share_at(place, Side::Down);
        ((4 * own + around) / 8) as u32
    }

    /// Writes a temperature into every cell.
    fn set_temperatures(&mut self, next: &Vec<u32>)
        requires
            old(self).wf(),
            next@.len() == old(self)@.cells.len(),
        ensures
            final(self).wf(),
            final(self)@.same_frame(old(self)@),
            final(self)@.cells == Seq::new(
                old(self)@.cells.len(),
                |i: int| Cell { temperature: next@[i], ..old(self)@.cells[i] },
            ),
    {
        let ghost before = self@;
        let count = self.cells.len();
        let mut i: usize = 0;
        while i < count
            invariant
                before.wf(),
                self@.same_frame(before),
                count == before.cells.len(),
                next@.len() == count,
                self@.cells.len() == count,
                i <= count,
                forall|j: int|
                    0 <= j < i ==> #[trigger] self@.cells[j] == (Cell {
                        temperature: next@[j],
                        ..before.cells[j]
                    }),
                forall|j: int| i <= j < count ==> #[trigger] self@.cells[j] == before.cells[j],
            decreases count - i,
        {
            let cell = self.cells[i];
            self.cells.set(
                i,
                Cell { material: cell.material, temperature: next[i], noise: cell.noise },
            );
            i = i + 1;
        }
        assert(self@.cells =~= Seq::new(
            before.cells.len(),
            |i: int| Cell { temperature: next@[i], ..before.cells[i] },
        ));
    }

    /// One tick of heat diffusion. Every cell's new temperature is computed
    /// from the temperatures that all cells had before the call; materials
    /// and noise stay as they are. Diffusion has no tie to break, so the
    /// tick index takes no part in it.
    pub fn diffuse_heat(&mut self, _tick_index: u64)
        requires
            old(self).wf(),
        ensures
            final(self).wf(),
            final(self)@.same_frame(old(self)@),
            final(self)@.cells == diffused(old(self)@),
    {
        let count = self.cells.len();
        let mut next: Vec<u32> = Vec::new();
        let mut i: usize = 0;
        while i < count
            invariant
                self.wf(),
                count == self@.cells.len(),
                i <= count,
                next@.len() == i,
                forall|j: int| 0 <= j < i ==> #[trigger] next@[j] == next_temperature(self@, j),
            decreases count - i,
        {
            let t = self.next_temperature_at(i);
            next.push(t);
            i = i + 1;
        }
        self.set_temperatures(&next);
    }

    /// One tick of the simplified diffusion, which ignores the materials:
    /// every cell moves half of the way to the mean temperature of its
    /// surroundings, all computed from the temperatures before the call. The
    /// tick index takes no part in it.
    pub fn diffuse_heat_simplified(&mut self, _tick_index: u64)
        requires
            old(self).wf(),
        ensures
            final(self).wf(),
            final(self)@.same_frame(old(self)@),
            final(self)@.cells == diffused_simplified(old(self)@),
    {
        let count = self.cells.len();
        let mut next: Vec<u32> = Vec::new();
        let mut i: usize = 0;
        while i < count
            invariant
                self.wf(),
                count == self@.cells.len(),
                i <= count,
                next@.len() == i,
                forall|j: int|
                    0 <= j < i ==> #[trigger] next@[j] == next_temperature_simplified(self@, j),
            decreases count - i,
        {
            let t = self.next_temperature_simplified_at(i);
            next.push(t);
            i = i + 1;
        }
        self.set_temperatures(&next);
    }
}

} // verus!
