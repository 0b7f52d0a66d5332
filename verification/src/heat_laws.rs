//! What heat diffusion keeps: every new temperature lies between the
//! coldest and the hottest of the cells that took part, and the thermal
//! energy of the grid changes by rounding only.

use vstd::prelude::*;
use crate::heat::{
    diffused, diffused_simplified, energy, gain, gain_on, lemma_exchange_bound, loss, loss_on,
    neighbour, next_temperature, next_temperature_simplified, share_on, surroundings,
    temperature_for, Side,
};
use crate::model::GridView;
use crate::motion::lemma_row_span;

verus! {

/// Every cell next to `place` has a temperature from `lo` to `hi`.
pub open spec fn neighbours_within(v: GridView, place: int, lo: int, hi: int) -> bool {
    forall|side: Side|
        (#[trigger] neighbour(v, place, side)) matches Some(j) ==> lo <= v.cells[j].temperature
            <= hi
}

/// A neighbour is a place of the buffer.
pub proof fn lemma_neighbour_inside(v: GridView, place: int, side: Side)
    requires
        v.wf(),
        0 <= place < v.cells.len(),
    ensures
        neighbour(v, place, side) matches Some(j) ==> 0 <= j < v.cells.len() && j != place,
{
    lemma_row_span(v.width, v.height, place);
}

/// What a cell receives from one side is at most a quarter of what would
/// lift it to `hi`, and what it gives at most a quarter of what would lower
/// it to `lo`.
proof fn lemma_side_bound(v: GridView, place: int, side: Side, lo: int, hi: int)
    requires
        v.wf(),
        0 <= place < v.cells.len(),
        lo <= v.cells[place].temperature <= hi,
        neighbours_within(v, place, lo, hi),
    ensures
        0 <= 4 * gain_on(v, place, side) <= (hi - v.cells[place].temperature) * v.def(
            place,
        ).heat_capacity,
        0 <= 4 * loss_on(v, place, side) <= (v.cells[place].temperature - lo) * v.def(
            place,
        ).heat_capacity,
{
    let t = v.cells[place].temperature as int;
    let c = v.def(place).heat_capacity as int;
    assert(0 <= (hi - t) * c && 0 <= (t - lo) * c) by (nonlinear_arith)
        requires
            lo <= t <= hi,
            0 <= c,
    ;
    lemma_neighbour_inside(v, place, side);
    match neighbour(v, place, side) {
        Some(j) => {
            let u = v.cells[j].temperature as int;
            lemma_exchange_bound(v.materials, v.cells[place], v.cells[j]);
            if u > t {
                assert((u - t) * c <= (hi - t) * c) by (nonlinear_arith)
                    requires
                        u <= hi,
                        0 <= c,
                ;
            } else if u < t {
                assert((t - u) * c <= (t - lo) * c) by (nonlinear_arith)
                    requires
                        lo <= u,
                        0 <= c,
                ;
            }
        },
        None => {},
    }
}

/// The energy of a cell after the exchanges is what a temperature from `lo`
/// to `hi` would give it.
pub proof fn lemma_energy_after_bounded(v: GridView, place: int, lo: int, hi: int)
    requires
        v.wf(),
        0 <= place < v.cells.len(),
        lo <= v.cells[place].temperature <= hi,
        neighbours_within(v, place, lo, hi),
    ensures
        v.def(place).heat_capacity * lo <= energy(v, place) + gain(v, place) - loss(v, place)
            <= v.def(place).heat_capacity * hi,
{
    let t = v.cells[place].temperature as int;
    let c = v.def(place).heat_capacity as int;
    lemma_side_bound(v, place, Side::Left, lo, hi);
    lemma_side_bound(v, place, Side::Right, lo, hi);
    lemma_side_bound(v, place, Side::Up, lo, hi);
    lemma_side_bound(v, place, Side::Down, lo, hi);
    assert(c * t + (hi - t) * c == c * hi && c * t - (t - lo) * c == c * lo) by (nonlinear_arith);
}

/// Rounding an energy to a temperature changes the energy by at most half
/// the heat capacity, and keeps a temperature between two bounds between
/// them.
pub proof fn lemma_rounding(amount: int, capacity: int, lo: int, hi: int)
    requires
        capacity > 0,
        0 <= lo <= hi <= u32::MAX,
        capacity * lo <= amount <= capacity * hi,
    ensures
        lo <= temperature_for(amount, capacity) <= hi,
        -capacity <= 2 * (capacity * temperature_for(amount, capacity) - amount) <= capacity,
{
    assert(0 <= capacity * lo) by (nonlinear_arith)
        requires
            capacity > 0,
            0 <= lo,
    ;
    let x = amount + capacity / 2;
    let t = x / capacity;
    vstd::arithmetic::div_mod::lemma_fundamental_div_mod(x, capacity);
    vstd::arithmetic::div_mod::lemma_mod_bound(x, capacity);
    let r = x % capacity;
    assert(lo <= t <= hi) by (nonlinear_arith)
        requires
            capacity > 0,
            x == capacity * t + r,
            0 <= r < capacity,
            capacity * lo <= x < capacity * hi + capacity,
    ;
}

/// No new temperature leaves the range of the temperatures that took part:
/// where the cell and its neighbours lie from `lo` to `hi` before the tick,
/// the cell lies from `lo` to `hi` after it. In particular no temperature
/// turns negative or passes the hottest of the cells around it.
pub proof fn lemma_next_temperature_bounded(v: GridView, place: int, lo: int, hi: int)
    requires
        v.wf(),
        0 <= place < v.cells.len(),
        0 <= lo <= v.cells[place].temperature <= hi <= u32::MAX,
        neighbours_within(v, place, lo, hi),
    ensures
        lo <= next_temperature(v, place) <= hi,
{
    let c = v.def(place).heat_capacity as int;
    if c != 0 {
        lemma_energy_after_bounded(v, place, lo, hi);
        lemma_rounding(energy(v, place) + gain(v, place) - loss(v, place), c, lo, hi);
    }
}

/// The simplified diffusion keeps every temperature in the range of the
/// temperatures that took part.
pub proof fn lemma_next_temperature_simplified_bounded(v: GridView, place: int, lo: int, hi: int)
    requires
        v.wf(),
        0 <= place < v.cells.len(),
        0 <= lo <= v.cells[place].temperature <= hi <= u32::MAX,
        neighbours_within(v, place, lo, hi),
    ensures
        lo <= next_temperature_simplified(v, place) <= hi,
{
}

/// Diffusion leaves the grid well formed: it changes temperatures only.
pub proof fn lemma_diffused_wf(v: GridView)
    requires
        v.wf(),
    ensures
        v.with_cells(diffused(v)).wf(),
        v.with_cells(diffused_simplified(v)).wf(),
{
}

/// A tick of diffusion keeps the whole grid in the range of temperatures
/// that it started in.
pub proof fn lemma_diffusion_bounded(v: GridView, lo: int, hi: int)
    requires
        v.wf(),
        0 <= lo <= hi <= u32::MAX,
        forall|i: int| 0 <= i < v.cells.len() ==> lo <= (#[trigger] v.cells[i]).temperature <= hi,
    ensures
        forall|i: int|
            0 <= i < v.cells.len() ==> lo <= (#[trigger] diffused(v)[i]).temperature <= hi,
        forall|i: int|
            0 <= i < v.cells.len() ==> lo <= (#[trigger] diffused_simplified(v)[i]).temperature
                <= hi,
{
    assert forall|i: int| 0 <= i < v.cells.len() implies neighbours_within(v, i, lo, hi) by {
        assert forall|side: Side|
            (#[trigger] neighbour(v, i, side)) matches Some(j) ==> lo <= v.cells[j].temperature
                <= hi by {
            lemma_neighbour_inside(v, i, side);
        }
    }
    assert forall|i: int| 0 <= i < v.cells.len() implies lo <= (#[trigger] diffused(
        v,
    )[i]).temperature <= hi by {
        lemma_next_temperature_bounded(v, i, lo, hi);
    }
    assert forall|i: int| 0 <= i < v.cells.len() implies lo <= (#[trigger] diffused_simplified(
        v,
    )[i]).temperature <= hi by {
        lemma_next_temperature_simplified_bounded(v, i, lo, hi);
    }
}

/// The simplified diffusion moves a cell toward the mean temperature of its
/// surroundings and never past it.
pub proof fn lemma_simplified_stops_at_mean(v: GridView, place: int)
    requires
        v.wf(),
        0 <= place < v.cells.len(),
    ensures
        v.cells[place].temperature <= surroundings(v, place) / 4
            ==> v.cells[place].temperature <= next_temperature_simplified(v, place)
            <= surroundings(v, place) / 4,
        v.cells[place].temperature >= surroundings(v, place) / 4 ==> surroundings(v, place) / 4
            <= next_temperature_simplified(v, place) <= v.cells[place].temperature,
{
}

/// What a cell receives from one side is at most a quarter of what would
/// lift it to that neighbour's temperature, and likewise what it gives.
proof fn lemma_side_share(v: GridView, place: int, side: Side)
    requires
        v.wf(),
        0 <= place < v.cells.len(),
    ensures
        share_on(v, place, side) >= v.cells[place].temperature ==> loss_on(v, place, side) == 0
            && 0 <= 4 * gain_on(v, place, side) <= (share_on(v, place, side)
            - v.cells[place].temperature) * v.def(place).heat_capacity,
        share_on(v, place, side) <= v.cells[place].temperature ==> gain_on(v, place, side) == 0
            && 0 <= 4 * loss_on(v, place, side) <= (v.cells[place].temperature - share_on(
            v,
            place,
            side,
        )) * v.def(place).heat_capacity,
{
    lemma_neighbour_inside(v, place, side);
    match neighbour(v, place, side) {
        Some(j) => {
            lemma_exchange_bound(v.materials, v.cells[place], v.cells[j]);
        },
        None => {},
    }
}

/// The differences between a cell and its four shares, each times the
/// cell's heat capacity, add up to the difference between the surroundings
/// and four times the cell, times the heat capacity.
proof fn lemma_shares_times_capacity(v: GridView, place: int)
    ensures
        (share_on(v, place, Side::Left) - v.cells[place].temperature) * v.def(place).heat_capacity
            + (share_on(v, place, Side::Right) - v.cells[place].temperature) * v.def(
            place,
        ).heat_capacity + (share_on(v, place, Side::Up) - v.cells[place].temperature) * v.def(
            place,
        ).heat_capacity + (share_on(v, place, Side::Down) - v.cells[place].temperature) * v.def(
            place,
        ).heat_capacity == surroundings(v, place) * v.def(place).heat_capacity - 4 * energy(
            v,
            place,
        ),
        (v.cells[place].temperature - share_on(v, place, Side::Left)) * v.def(place).heat_capacity
            + (v.cells[place].temperature - share_on(v, place, Side::Right)) * v.def(
            place,
        ).heat_capacity + (v.cells[place].temperature - share_on(v, place, Side::Up)) * v.def(
            place,
        ).heat_capacity + (v.cells[place].temperature - share_on(v, place, Side::Down)) * v.def(
            place,
        ).heat_capacity == 4 * energy(v, place) - surroundings(v, place) * v.def(
            place,
        ).heat_capacity,
{
    let t = v.cells[place].temperature as int;
    let c = v.def(place).heat_capacity as int;
    let a = share_on(v, place, Side::Left);
    let b = share_on(v, place, Side::Right);
    let d = share_on(v, place, Side::Up);
    let e = share_on(v, place, Side::Down);
    assert((a - t) * c + (b - t) * c + (d - t) * c + (e - t) * c == (a + b + d + e) * c - 4 * (c
        * t)) by (nonlinear_arith);
    assert((t - a) * c + (t - b) * c + (t - d) * c + (t - e) * c == 4 * (c * t) - (a + b + d + e)
        * c) by (nonlinear_arith);
}

/// A cell that is no hotter than any of its neighbours warms toward the
/// mean temperature of its surroundings and, up to the rounding of half a
/// Kelvin, not past it.
pub proof fn lemma_coldest_stops_at_mean(v: GridView, place: int)
    requires
        v.wf(),
        0 <= place < v.cells.len(),
        neighbours_within(v, place, v.cells[place].temperature as int, u32::MAX as int),
    ensures
        v.cells[place].temperature <= next_temperature(v, place),
        4 * next_temperature(v, place) <= surroundings(v, place) + 2,
{
    let t = v.cells[place].temperature as int;
    let c = v.def(place).heat_capacity as int;
    let s = surroundings(v, place);
    lemma_next_temperature_bounded(v, place, t, u32::MAX as int);
    lemma_side_share(v, place, Side::Left);
    lemma_side_share(v, place, Side::Right);
    lemma_side_share(v, place, Side::Up);
    lemma_side_share(v, place, Side::Down);
    if c != 0 {
        let amount = energy(v, place) + gain(v, place) - loss(v, place);
        lemma_energy_after_bounded(v, place, t, u32::MAX as int);
        lemma_rounding(amount, c, t, u32::MAX as int);
        let next = next_temperature(v, place);
        lemma_shares_times_capacity(v, place);
        assert(4 * next <= s + 2) by (nonlinear_arith)
            requires
                c > 0,
                2 * (c * next - amount) <= c,
                4 * amount <= s * c,
        ;
    }
}

/// A cell that is no colder than any of its neighbours cools toward the
/// mean temperature of its surroundings and, up to the rounding of half a
/// Kelvin, not past it.
pub proof fn lemma_hottest_stops_at_mean(v: GridView, place: int)
    requires
        v.wf(),
        0 <= place < v.cells.len(),
        neighbours_within(v, place, 0, v.cells[place].temperature as int),
    ensures
        next_temperature(v, place) <= v.cells[place].temperature,
        surroundings(v, place) <= 4 * next_temperature(v, place) + 2,
{
    let t = v.cells[place].temperature as int;
    let c = v.def(place).heat_capacity as int;
    let s = surroundings(v, place);
    lemma_next_temperature_bounded(v, place, 0, t);
    lemma_side_share(v, place, Side::Left);
    lemma_side_share(v, place, Side::Right);
    lemma_side_share(v, place, Side::Up);
    lemma_side_share(v, place, Side::Down);
    if c != 0 {
        let amount = energy(v, place) + gain(v, place) - loss(v, place);
        lemma_energy_after_bounded(v, place, 0, t);
        lemma_rounding(amount, c, 0, t);
        let next = next_temperature(v, place);
        lemma_shares_times_capacity(v, place);
        assert(s <= 4 * next + 2) by (nonlinear_arith)
            requires
                c > 0,
                -c <= 2 * (c * next - amount),
                4 * amount >= s * c,
        ;
    }
}

/// Thermal energy of the first `k` cells of the buffer.
pub open spec fn energy_sum(v: GridView, k: nat) -> int
    decreases k,
{
    if k == 0 {
        0
    } else {
        energy_sum(v, (k - 1) as nat) + energy(v, k - 1)
    }
}

/// Thermal energy of the grid: the sum over its cells of heat capacity
/// times temperature.
pub open spec fn thermal_energy(v: GridView) -> int {
    energy_sum(v, v.cells.len())
}

/// Heat capacity of the first `k` cells of the buffer.
pub open spec fn capacity_sum(v: GridView, k: nat) -> int
    decreases k,
{
    if k == 0 {
        0
    } else {
        capacity_sum(v, (k - 1) as nat) + v.def(k - 1).heat_capacity
    }
}

/// Heat capacity of the grid: the sum of the heat capacities of its cells.
pub open spec fn total_capacity(v: GridView) -> int {
    capacity_sum(v, v.cells.len())
}

/// Energy that the cell at `place` receives from one side, negative where
/// it gives.
pub open spec fn flow_on(v: GridView, place: int, side: Side) -> int {
    gain_on(v, place, side) - loss_on(v, place, side)
}

/// Energy that the first `k` cells receive from one side.
pub open spec fn side_sum(v: GridView, side: Side, k: nat) -> int
    decreases k,
{
    if k == 0 {
        0
    } else {
        side_sum(v, side, (k - 1) as nat) + flow_on(v, k - 1, side)
    }
}

/// Energy that the first `k` cells receive from all sides.
pub open spec fn net_sum(v: GridView, k: nat) -> int
    decreases k,
{
    if k == 0 {
        0
    } else {
        net_sum(v, (k - 1) as nat) + gain(v, k - 1) - loss(v, k - 1)
    }
}

/// The column of the next place: one further, or the first column after
/// the last.
proof fn lemma_next_column(width: int, place: int)
    requires
        width > 0,
        0 <= place,
    ensures
        (place + 1) % width == if place % width == width - 1 {
            0
        } else {
            place % width + 1
        },
{
    vstd::arithmetic::div_mod::lemma_fundamental_div_mod(place, width);
    vstd::arithmetic::div_mod::lemma_mod_bound(place, width);
    let q = place / width;
    let c = place % width;
    if c == width - 1 {
        assert(place + 1 == (q + 1) * width + 0) by (nonlinear_arith)
            requires
                place == width * q + c,
                c == width - 1,
        ;
        vstd::arithmetic::div_mod::lemma_fundamental_div_mod_converse(place + 1, width, q + 1, 0);
    } else {
        assert(place + 1 == q * width + (c + 1)) by (nonlinear_arith)
            requires
                place == width * q + c,
        ;
        vstd::arithmetic::div_mod::lemma_fundamental_div_mod_converse(place + 1, width, q, c + 1);
    }
}

/// What a cell receives from its right neighbour, that neighbour gives to
/// its left one.
proof fn lemma_flow_across(v: GridView, place: int)
    requires
        v.wf(),
        0 <= place,
        place + 1 < v.cells.len(),
    ensures
        flow_on(v, place, Side::Right) == -flow_on(v, place + 1, Side::Left),
{
    lemma_row_span(v.width, v.height, place);
    lemma_next_column(v.width as int, place);
    if place % (v.width as int) < v.width - 1 {
        lemma_exchange_bound(v.materials, v.cells[place], v.cells[place + 1]);
    }
}

/// What a cell receives from the neighbour below it, that neighbour gives
/// to the one above it.
proof fn lemma_flow_down(v: GridView, place: int)
    requires
        v.wf(),
        0 <= place,
        place + v.width < v.cells.len(),
    ensures
        flow_on(v, place, Side::Down) == -flow_on(v, place + v.width, Side::Up),
{
    lemma_exchange_bound(v.materials, v.cells[place], v.cells[place + v.width]);
}

/// Along the rows the flows cancel pair by pair: what the first `k` cells
/// receive from left and right together is what the last of them receives
/// from its right.
proof fn lemma_row_flows_cancel(v: GridView, k: nat)
    requires
        v.wf(),
        1 <= k <= v.cells.len(),
    ensures
        side_sum(v, Side::Left, k) + side_sum(v, Side::Right, k) == flow_on(
            v,
            k - 1,
            Side::Right,
        ),
    decreases k,
{
    if k == 1 {
        assert(side_sum(v, Side::Left, 0) == 0);
        assert(side_sum(v, Side::Right, 0) == 0);
        lemma_row_span(v.width, v.height, 0);
        assert(0int % (v.width as int) == 0) by {
            vstd::arithmetic::div_mod::lemma_small_mod(0, v.width);
        }
    } else {
        lemma_row_flows_cancel(v, (k - 1) as nat);
        lemma_flow_across(v, k - 2);
    }
}

/// What the first `k` cells receive from above, the cells above them give
/// down.
proof fn lemma_up_flows_mirror(v: GridView, k: nat)
    requires
        v.wf(),
        k <= v.cells.len(),
    ensures
        side_sum(v, Side::Up, k) == if k <= v.width {
            0
        } else {
            -side_sum(v, Side::Down, (k - v.width) as nat)
        },
    decreases k,
{
    if k > 0 {
        lemma_up_flows_mirror(v, (k - 1) as nat);
        if k - 1 >= v.width {
            lemma_flow_down(v, k - 1 - v.width);
            assert(side_sum(v, Side::Down, (k - v.width) as nat) == side_sum(
                v,
                Side::Down,
                (k - 1 - v.width) as nat,
            ) + flow_on(v, k - 1 - v.width, Side::Down));
        }
    }
}

/// The cells of the last row give nothing down.
proof fn lemma_floor_gives_nothing(v: GridView, k: nat)
    requires
        v.wf(),
        v.width <= v.cells.len(),
        v.cells.len() - v.width <= k <= v.cells.len(),
    ensures
        side_sum(v, Side::Down, k) == side_sum(v, Side::Down, (v.cells.len() - v.width) as nat),
    decreases k,
{
    if k > v.cells.len() - v.width {
        lemma_floor_gives_nothing(v, (k - 1) as nat);
    }
}

/// What the first `k` cells receive in all is what they receive from the
/// four sides.
proof fn lemma_net_by_side(v: GridView, k: nat)
    ensures
        net_sum(v, k) == side_sum(v, Side::Left, k) + side_sum(v, Side::Right, k) + side_sum(
            v,
            Side::Up,
            k,
        ) + side_sum(v, Side::Down, k),
    decreases k,
{
    if k > 0 {
        lemma_net_by_side(v, (k - 1) as nat);
    }
}

/// The exchanges of a tick cancel: what one cell receives another gives, so
/// that the cells of the grid together receive nothing.
pub proof fn lemma_exchanges_cancel(v: GridView)
    requires
        v.wf(),
    ensures
        net_sum(v, v.cells.len()) == 0,
{
    // Along a row what each cell receives from its right its neighbour
    // gives to its left, and the last cell of the buffer has no right. Down
    // the columns what the first cells receive from above mirrors what the
    // cells a row higher give down, and the last row gives nothing down.
    let n = v.cells.len();
    lemma_net_by_side(v, n);
    if n > 0 {
        lemma_row_span(v.width, v.height, n - 1);
        lemma_row_flows_cancel(v, n);
        lemma_up_flows_mirror(v, n);
        lemma_floor_gives_nothing(v, n);
    }
}

/// The energy of the first `k` cells after a tick is what they had and
/// received, up to the rounding of each cell's temperature.
proof fn lemma_energy_sum_close(v: GridView, k: nat)
    requires
        v.wf(),
        k <= v.cells.len(),
    ensures
        -capacity_sum(v, k) <= 2 * (energy_sum(v.with_cells(diffused(v)), k) - energy_sum(v, k)
            - net_sum(v, k)) <= capacity_sum(v, k),
    decreases k,
{
    if k > 0 {
        lemma_energy_sum_close(v, (k - 1) as nat);
        let i = k - 1;
        let after = v.with_cells(diffused(v));
        let c = v.def(i).heat_capacity as int;
        let t = v.cells[i].temperature as int;
        lemma_energy_after_bounded(v, i, 0, u32::MAX as int);
        let amount = energy(v, i) + gain(v, i) - loss(v, i);
        if c == 0 {
            assert(energy(after, i) == 0 && energy(v, i) == 0 && amount == 0) by (nonlinear_arith)
                requires
                    c == 0,
                    energy(after, i) == c * after.cells[i].temperature,
                    energy(v, i) == c * t,
                    c * 0 <= amount <= c * (u32::MAX as int),
            ;
        } else {
            lemma_rounding(amount, c, 0, u32::MAX as int);
        }
    }
}

/// Heat diffusion conserves the thermal energy of the grid up to rounding:
/// over one tick the sum of heat capacity times temperature changes by at
/// most half the heat capacity of the grid, which is half a Kelvin a cell.
pub proof fn lemma_diffusion_conserves_energy(v: GridView)
    requires
        v.wf(),
    ensures
        -total_capacity(v) <= 2 * (thermal_energy(v.with_cells(diffused(v))) - thermal_energy(v))
            <= total_capacity(v),
{
    lemma_energy_sum_close(v, v.cells.len());
    lemma_exchanges_cancel(v);
}

} // verus!
