//! What a whole tick keeps: movement carries every cell's energy with it,
//! so that the thermal energy of the grid changes by the rounding of the
//! diffusion only.

use vstd::prelude::*;
use crate::cell::Cell;
use crate::heat::{diffused, energy};
use crate::heat_laws::{
    capacity_sum, energy_sum, lemma_diffused_wf, lemma_diffusion_conserves_energy,
    thermal_energy, total_capacity,
};
use crate::model::{swapped, GridView};
use crate::motion::{
    keeps, lemma_pass_rearranges, lemma_run_keeps, lemma_target_valid, pass, scan_place, target,
    Solver, Sweep,
};
use crate::simulation::advanced;

verus! {

/// Overwriting one cell changes the energy and the heat capacity of a
/// prefix of the buffer by what that cell gains, where it lies in the
/// prefix.
proof fn lemma_sums_after_update(v: GridView, place: int, cell: Cell, k: nat)
    requires
        0 <= place < v.cells.len(),
        k <= v.cells.len(),
    ensures
        energy_sum(v.with_cells(v.cells.update(place, cell)), k) == energy_sum(v, k) + (if place
            < k {
            v.materials[cell.material].heat_capacity * cell.temperature - energy(v, place)
        } else {
            0
        }),
        capacity_sum(v.with_cells(v.cells.update(place, cell)), k) == capacity_sum(v, k) + (
        if place < k {
            v.materials[cell.material].heat_capacity - v.def(place).heat_capacity
        } else {
            0
        }),
    decreases k,
{
    if k > 0 {
        lemma_sums_after_update(v, place, cell, (k - 1) as nat);
    }
}

/// Exchanging two cells keeps the thermal energy and the heat capacity of
/// the grid.
pub proof fn lemma_swap_keeps_energy(v: GridView, a: int, b: int)
    requires
        0 <= a < v.cells.len(),
        0 <= b < v.cells.len(),
    ensures
        thermal_energy(v.with_cells(swapped(v.cells, a, b))) == thermal_energy(v),
        total_capacity(v.with_cells(swapped(v.cells, a, b))) == total_capacity(v),
{
    let n = v.cells.len();
    let half = v.with_cells(v.cells.update(a, v.cells[b]));
    lemma_sums_after_update(v, a, v.cells[b], n);
    lemma_sums_after_update(half, b, v.cells[a], n);
    assert(half.with_cells(half.cells.update(b, v.cells[a])) == v.with_cells(
        swapped(v.cells, a, b),
    ));
}

/// Every prefix of a sweep keeps the thermal energy and the heat capacity
/// of the grid.
proof fn lemma_run_keeps_energy(v: GridView, kind: Solver, tick: u64, to: nat)
    requires
        v.wf(),
        to <= v.cells.len(),
    ensures
        thermal_energy(Sweep::start(v).run(kind, tick, 0, to).grid) == thermal_energy(v),
        total_capacity(Sweep::start(v).run(kind, tick, 0, to).grid) == total_capacity(v),
    decreases to,
{
    if to > 0 {
        lemma_run_keeps_energy(v, kind, tick, (to - 1) as nat);
        lemma_run_keeps(v, kind, tick, (to - 1) as nat);
        let before = Sweep::start(v).run(kind, tick, 0, (to - 1) as nat);
        let place = scan_place(kind, v.cells.len() as int, to - 1);
        let next = before.step(kind, tick, place);
        if next != before {
            lemma_target_valid(before.grid, kind, tick, place);
            lemma_swap_keeps_energy(
                before.grid,
                place,
                target(before.grid, kind, tick, place).unwrap(),
            );
        }
    }
}

/// A movement pass carries every cell's energy with it: the thermal energy
/// and the heat capacity of the grid stay as they are.
pub proof fn lemma_pass_keeps_energy(v: GridView, kind: Solver, tick: u64)
    requires
        v.wf(),
    ensures
        thermal_energy(v.with_cells(pass(v, kind, tick))) == thermal_energy(v),
        total_capacity(v.with_cells(pass(v, kind, tick))) == total_capacity(v),
{
    lemma_run_keeps_energy(v, kind, tick, v.cells.len());
    lemma_run_keeps(v, kind, tick, v.cells.len());
}

/// Diffusion leaves every material where it is, and with it the heat
/// capacity of every prefix of the buffer.
proof fn lemma_diffusion_keeps_capacity(v: GridView, k: nat)
    requires
        k <= v.cells.len(),
    ensures
        capacity_sum(v.with_cells(diffused(v)), k) == capacity_sum(v, k),
    decreases k,
{
    if k > 0 {
        lemma_diffusion_keeps_capacity(v, (k - 1) as nat);
    }
}

/// A whole tick conserves the thermal energy of the grid up to rounding:
/// with the diffusion that exchanges energy, and with or without the gas
/// pass, the sum of heat capacity times temperature changes over the tick
/// by at most half the heat capacity of the grid.
pub proof fn lemma_tick_conserves_energy(v: GridView, tick: u64, gas_enabled: bool)
    requires
        v.wf(),
    ensures
        -total_capacity(v) <= 2 * (thermal_energy(
            v.with_cells(advanced(v, tick, false, gas_enabled)),
        ) - thermal_energy(v)) <= total_capacity(v),
{
    let heated = v.with_cells(diffused(v));
    lemma_diffusion_conserves_energy(v);
    lemma_diffusion_keeps_capacity(v, v.cells.len());
    lemma_diffused_wf(v);
    let piled = heated.with_cells(pass(heated, Solver::Powder, tick));
    lemma_pass_keeps_energy(heated, Solver::Powder, tick);
    lemma_pass_rearranges(heated, Solver::Powder, tick);
    let flowed = piled.with_cells(pass(piled, Solver::Liquid, tick));
    lemma_pass_keeps_energy(piled, Solver::Liquid, tick);
    lemma_pass_rearranges(piled, Solver::Liquid, tick);
    if gas_enabled {
        lemma_pass_keeps_energy(flowed, Solver::Gas, tick);
        assert(flowed.with_cells(pass(flowed, Solver::Gas, tick)) == v.with_cells(
            advanced(v, tick, false, gas_enabled),
        ));
    }
}

} // verus!
