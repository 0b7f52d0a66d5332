//! What the movement passes do on sparse grids: a lone acting cell takes
//! exactly one step per pass, and a denser liquid sinks below a lighter one.

use vstd::prelude::*;
use crate::cell::{is_granular, phase_of, Cell};
use crate::material::Phase;
use crate::model::{swapped, GridView};
use crate::motion::{
    acts, keeps, lemma_pass_rearranges, lemma_row_span, lemma_step_keeps, lemma_target_valid,
    pass, prefers_left, run_length, scan_place, sinks_into, target, Solver, Sweep, FLOW_LIMIT,
};

verus! {

/// Steps that change nothing add up to nothing.
pub proof fn lemma_run_idle(s: Sweep, kind: Solver, tick: u64, from: nat, to: nat)
    requires
        forall|i: int| from <= i < to ==> #[trigger] s.idle_at(kind, tick, i),
    ensures
        s.run(kind, tick, from, to) == s,
    decreases to,
{
    if to > from {
        lemma_run_idle(s, kind, tick, from, (to - 1) as nat);
        assert(s.idle_at(kind, tick, to - 1));
    }
}

/// A run keeps the sweep well formed and the buffer as long as it was.
pub proof fn lemma_run_wf(s: Sweep, kind: Solver, tick: u64, from: nat, to: nat)
    requires
        s.wf(),
        to <= s.grid.cells.len(),
    ensures
        keeps(s.grid, s.run(kind, tick, from, to)),
    decreases to,
{
    if to > from {
        lemma_run_wf(s, kind, tick, from, (to - 1) as nat);
        lemma_step_keeps(
            s.grid,
            s.run(kind, tick, from, (to - 1) as nat),
            kind,
            tick,
            scan_place(kind, s.grid.cells.len() as int, to - 1),
        );
    }
}

/// A run can be cut in two at any step.
pub proof fn lemma_run_compose(s: Sweep, kind: Solver, tick: u64, a: nat, b: nat, c: nat)
    requires
        s.wf(),
        a <= b <= c <= s.grid.cells.len(),
    ensures
        s.run(kind, tick, a, c) == s.run(kind, tick, a, b).run(kind, tick, b, c),
    decreases c,
{
    lemma_run_wf(s, kind, tick, a, b);
    if c > b {
        lemma_run_compose(s, kind, tick, a, b, (c - 1) as nat);
    }
}

/// Where every step of a pass but the `k`-th changes nothing, the pass is
/// that one step.
pub proof fn lemma_single_step_pass(v: GridView, kind: Solver, tick: u64, k: nat)
    requires
        v.wf(),
        k < v.cells.len(),
        forall|i: int| 0 <= i < k ==> #[trigger] Sweep::start(v).idle_at(kind, tick, i),
        forall|i: int|
            k < i < v.cells.len() ==> #[trigger] Sweep::start(v).nth(kind, tick, k as int).idle_at(
                kind,
                tick,
                i,
            ),
    ensures
        pass(v, kind, tick) == Sweep::start(v).nth(kind, tick, k as int).grid.cells,
{
    let s0 = Sweep::start(v);
    let n = v.cells.len();
    let s1 = s0.nth(kind, tick, k as int);
    lemma_run_idle(s0, kind, tick, 0, k);
    lemma_run_compose(s0, kind, tick, 0, (k + 1) as nat, n);
    lemma_step_keeps(v, s0, kind, tick, scan_place(kind, n as int, k as int));
    lemma_run_idle(s1, kind, tick, (k + 1) as nat, n);
}

/// Where no cell of the grid but the one at `place` acts in a pass, the pass
/// moves that cell to its target and the displaced cell to its place, and
/// changes nothing where the cell does not act or has no target.
pub proof fn lemma_lone_actor(v: GridView, kind: Solver, tick: u64, place: int)
    requires
        v.wf(),
        0 <= place < v.cells.len(),
        forall|q: int|
            0 <= q < v.cells.len() && q != place ==> !acts(v.materials, kind, #[trigger] v.cells[q]),
    ensures
        pass(v, kind, tick) == (if acts(v.materials, kind, v.cells[place]) {
            match target(v, kind, tick, place) {
                Some(t) => swapped(v.cells, place, t),
                None => v.cells,
            }
        } else {
            v.cells
        }),
{
    // The step at `place` is the only one that can change the sweep: no cell
    // visited before it acts, and of the cells visited after it the only one
    // that acts is the mover itself, at a place marked as moved.
    let n = v.cells.len() as int;
    let k = match kind {
        Solver::Gas => place,
        _ => n - 1 - place,
    };
    lemma_target_valid(v, kind, tick, place);
    lemma_single_step_pass(v, kind, tick, k as nat);
}

/// A lone grain over vapor falls exactly one row in a powder pass: it
/// changes places with the cell below it, and nothing else moves.
pub proof fn lemma_lone_grain_falls(v: GridView, tick: u64, place: int)
    requires
        v.wf(),
        0 <= place,
        place + v.width < v.cells.len(),
        is_granular(v.materials, v.cells[place]),
        phase_of(v.materials, v.cells[place + v.width]) == Phase::Vapor,
        forall|q: int|
            0 <= q < v.cells.len() && q != place ==> !is_granular(
                v.materials,
                #[trigger] v.cells[q],
            ),
    ensures
        pass(v, Solver::Powder, tick) == swapped(v.cells, place, place + v.width),
{
    lemma_lone_actor(v, Solver::Powder, tick, place);
}

/// A lone grain on the floor stays where it is.
pub proof fn lemma_lone_grain_rests(v: GridView, tick: u64, place: int)
    requires
        v.wf(),
        0 <= place < v.cells.len(),
        place + v.width >= v.cells.len(),
        forall|q: int|
            0 <= q < v.cells.len() && q != place ==> !is_granular(
                v.materials,
                #[trigger] v.cells[q],
            ),
    ensures
        pass(v, Solver::Powder, tick) == v.cells,
{
    lemma_lone_actor(v, Solver::Powder, tick, place);
}

/// Two liquids stacked with the denser above the lighter change places in
/// one liquid pass, where the lighter one has nowhere to go and no other
/// cell of the grid is liquid.
pub proof fn lemma_denser_liquid_sinks(v: GridView, tick: u64, upper: int)
    requires
        v.wf(),
        0 <= upper,
        upper + v.width < v.cells.len(),
        phase_of(v.materials, v.cells[upper]) == Phase::Liquid,
        phase_of(v.materials, v.cells[upper + v.width]) == Phase::Liquid,
        v.materials[v.cells[upper + v.width].material].liquid_density
            < v.materials[v.cells[upper].material].liquid_density,
        target(v, Solver::Liquid, tick, upper + v.width) is None,
        forall|q: int|
            0 <= q < v.cells.len() && q != upper && q != upper + v.width ==> phase_of(
                v.materials,
                #[trigger] v.cells[q],
            ) != Phase::Liquid,
    ensures
        pass(v, Solver::Liquid, tick) == swapped(v.cells, upper, upper + v.width),
{
    // The sweep comes to the lighter liquid first, which has no target; the
    // denser one then sinks into it; no cell visited before, between or
    // after them is liquid.
    let kind = Solver::Liquid;
    let n = v.cells.len() as int;
    let k = n - 1 - upper;
    lemma_single_step_pass(v, kind, tick, k as nat);
}

/// The buffer after one pass of `kind` for each tick of `ticks`, in order.
pub open spec fn passes(v: GridView, kind: Solver, ticks: Seq<u64>) -> Seq<Cell>
    decreases ticks.len(),
{
    if ticks.len() == 0 {
        v.cells
    } else {
        passes(v.with_cells(pass(v, kind, ticks[0])), kind, ticks.drop_first())
    }
}

/// The buffer after the cell at `place` has gone straight down by `rows`
/// rows, or to the floor where that is nearer, changing places with the
/// cell below it row by row.
pub open spec fn fallen(cells: Seq<Cell>, width: int, place: int, rows: nat) -> Seq<Cell>
    decreases rows,
{
    if rows == 0 || place + width >= cells.len() {
        cells
    } else {
        fallen(swapped(cells, place, place + width), width, place + width, (rows - 1) as nat)
    }
}

/// The place `rows` rows under `place`, or on the floor under it where that
/// is nearer.
pub open spec fn landing(count: int, width: int, place: int, rows: nat) -> int
    decreases rows,
{
    if rows == 0 || place + width >= count {
        place
    } else {
        landing(count, width, place + width, (rows - 1) as nat)
    }
}

/// The landing place lies as many rows under the place as were asked for,
/// or as there are.
pub proof fn lemma_landing(count: int, width: int, place: int, rows: nat)
    requires
        width > 0,
        0 <= place < count,
    ensures
        landing(count, width, place, rows) == place + width * (if rows <= (count - 1 - place)
            / width {
            rows as int
        } else {
            (count - 1 - place) / width
        }),
        place <= landing(count, width, place, rows) < count,
    decreases rows,
{
    let below = (count - 1 - place) / width;
    if rows == 0 {
        vstd::arithmetic::div_mod::lemma_div_pos_is_pos(count - 1 - place, width);
    } else if place + width >= count {
        vstd::arithmetic::div_mod::lemma_basic_div(count - 1 - place, width);
        assert(width * 0 == 0);
    } else {
        lemma_landing(count, width, place + width, (rows - 1) as nat);
        vstd::arithmetic::div_mod::lemma_div_minus_one(count - 1 - place, width);
        let least: int = if rows <= below {
            rows as int
        } else {
            below
        };
        assert(width + width * (least - 1) == width * least) by (nonlinear_arith);
    }
}

/// A lone grain among vapor falls exactly one row in every powder pass
/// until it lies on the floor, and stays there: after as many passes as
/// there are ticks it has gone down that many rows, or all the rows there
/// are, and the vapor that it fell through has gone up past it.
pub proof fn lemma_lone_grain_descends(v: GridView, ticks: Seq<u64>, place: int)
    requires
        v.wf(),
        0 <= place < v.cells.len(),
        is_granular(v.materials, v.cells[place]),
        forall|q: int|
            0 <= q < v.cells.len() && q != place ==> phase_of(v.materials, #[trigger] v.cells[q])
                == Phase::Vapor,
    ensures
        passes(v, Solver::Powder, ticks) == fallen(v.cells, v.width as int, place, ticks.len()),
        passes(v, Solver::Powder, ticks).len() == v.cells.len(),
        place <= landing(v.cells.len() as int, v.width as int, place, ticks.len())
            < v.cells.len(),
        passes(v, Solver::Powder, ticks)[landing(
            v.cells.len() as int,
            v.width as int,
            place,
            ticks.len(),
        )] == v.cells[place],
    decreases ticks.len(),
{
    let w = v.width as int;
    lemma_row_span(v.width, v.height, place);
    lemma_landing(v.cells.len() as int, w, place, ticks.len());
    if ticks.len() > 0 {
        let rest = ticks.drop_first();
        let next = v.with_cells(pass(v, Solver::Powder, ticks[0]));
        lemma_pass_rearranges(v, Solver::Powder, ticks[0]);
        if place + w >= v.cells.len() {
            lemma_lone_grain_rests(v, ticks[0], place);
            lemma_lone_grain_descends(v, rest, place);
        } else {
            lemma_lone_grain_falls(v, ticks[0], place);
            lemma_lone_grain_descends(next, rest, place + w);
        }
    }
}

/// Where every step of a pass but the `first`-th and the `second`-th changes
/// nothing, the pass is those two steps.
pub proof fn lemma_double_step_pass(v: GridView, kind: Solver, tick: u64, first: nat, second: nat)
    requires
        v.wf(),
        first < second < v.cells.len(),
        forall|i: int| 0 <= i < first ==> #[trigger] Sweep::start(v).idle_at(kind, tick, i),
        forall|i: int|
            first < i < second ==> #[trigger] Sweep::start(v).nth(
                kind,
                tick,
                first as int,
            ).idle_at(kind, tick, i),
        forall|i: int|
            second < i < v.cells.len() ==> #[trigger] Sweep::start(v).nth(
                kind,
                tick,
                first as int,
            ).nth(kind, tick, second as int).idle_at(kind, tick, i),
    ensures
        pass(v, kind, tick) == Sweep::start(v).nth(kind, tick, first as int).nth(
            kind,
            tick,
            second as int,
        ).grid.cells,
{
    let s0 = Sweep::start(v);
    let n = v.cells.len();
    let s1 = s0.nth(kind, tick, first as int);
    let s2 = s1.nth(kind, tick, second as int);
    lemma_run_idle(s0, kind, tick, 0, first);
    lemma_step_keeps(v, s0, kind, tick, scan_place(kind, n as int, first as int));
    lemma_step_keeps(v, s1, kind, tick, scan_place(kind, n as int, second as int));
    lemma_run_compose(s0, kind, tick, 0, (first + 1) as nat, n);
    lemma_run_idle(s1, kind, tick, (first + 1) as nat, second);
    lemma_run_compose(s1, kind, tick, (first + 1) as nat, (second + 1) as nat, n);
    lemma_run_idle(s2, kind, tick, (second + 1) as nat, n);
}

/// The buffer of a column one cell wide after a denser liquid at `upper`
/// and a lighter one under it have had `rounds` liquid passes among vapor:
/// in every pass both go down one row, the vapor under them going up past
/// both, until the lighter lies on the floor; the next pass exchanges the
/// two, and then they stay.
pub open spec fn stratified(cells: Seq<Cell>, upper: int, rounds: nat) -> Seq<Cell>
    decreases rounds,
{
    if rounds == 0 {
        cells
    } else if upper + 2 < cells.len() {
        stratified(
            swapped(swapped(cells, upper + 1, upper + 2), upper, upper + 1),
            upper + 1,
            (rounds - 1) as nat,
        )
    } else {
        swapped(cells, upper, upper + 1)
    }
}

/// In a column one cell wide a liquid lying on a denser liquid on the
/// floor, among vapor, stays where it is, and so does the denser one.
proof fn lemma_stratified_column_rests(v: GridView, tick: u64, lower: int)
    requires
        v.wf(),
        v.width == 1,
        1 <= lower,
        lower + 1 == v.cells.len(),
        phase_of(v.materials, v.cells[lower]) == Phase::Liquid,
        phase_of(v.materials, v.cells[lower - 1]) == Phase::Liquid,
        v.materials[v.cells[lower - 1].material].liquid_density
            < v.materials[v.cells[lower].material].liquid_density,
        forall|q: int|
            0 <= q < lower - 1 ==> phase_of(v.materials, #[trigger] v.cells[q]) == Phase::Vapor,
    ensures
        pass(v, Solver::Liquid, tick) == v.cells,
{
    // Neither liquid has a target: the denser one lies on the floor, the
    // lighter one on a liquid that it does not sink into, and a column has
    // no places beside them.
    let kind = Solver::Liquid;
    let n = v.cells.len() as int;
    let s0 = Sweep::start(v);
    lemma_run_idle(s0, kind, tick, 0, n as nat);
}

/// Stratification in a column: where a column one cell wide holds a denser
/// liquid directly above a lighter one and vapor everywhere else, every
/// liquid pass takes the two one row down until the lighter lies on the
/// floor, the next pass exchanges them, and from then on the lighter lies
/// directly above the denser on the floor. With more passes than there are
/// rows under the lighter liquid, the order is inverted.
pub proof fn lemma_column_stratifies(v: GridView, ticks: Seq<u64>, upper: int)
    requires
        v.wf(),
        v.width == 1,
        0 <= upper,
        upper + 1 < v.cells.len(),
        phase_of(v.materials, v.cells[upper]) == Phase::Liquid,
        phase_of(v.materials, v.cells[upper + 1]) == Phase::Liquid,
        v.materials[v.cells[upper + 1].material].liquid_density
            < v.materials[v.cells[upper].material].liquid_density,
        forall|q: int|
            0 <= q < v.cells.len() && q != upper && q != upper + 1 ==> phase_of(
                v.materials,
                #[trigger] v.cells[q],
            ) == Phase::Vapor,
    ensures
        passes(v, Solver::Liquid, ticks) == stratified(v.cells, upper, ticks.len()),
        passes(v, Solver::Liquid, ticks).len() == v.cells.len(),
        ticks.len() > v.cells.len() - 2 - upper ==> {
            &&& passes(v, Solver::Liquid, ticks)[v.cells.len() - 1] == v.cells[upper]
            &&& passes(v, Solver::Liquid, ticks)[v.cells.len() - 2] == v.cells[upper + 1]
        },
    decreases ticks.len(),
{
    let kind = Solver::Liquid;
    let n = v.cells.len() as int;
    let lower = upper + 1;
    if ticks.len() > 0 {
        let tick = ticks[0];
        let rest = ticks.drop_first();
        let next = v.with_cells(pass(v, kind, tick));
        lemma_pass_rearranges(v, kind, tick);
        if upper + 2 < n {
            // The lighter liquid falls into the vapor under it, then the
            // denser one into the vapor that took its place.
            let first = n - 1 - lower;
            let second = n - 1 - upper;
            lemma_double_step_pass(v, kind, tick, first as nat, second as nat);
            lemma_column_stratifies(next, rest, lower);
        } else {
            // The lighter liquid lies on the floor: the two change places,
            // and stay.
            lemma_denser_liquid_sinks(v, tick, upper);
            lemma_column_rests(next, rest, lower);
        }
    }
}

/// Once the lighter liquid lies on the denser one on the floor of a column,
/// no number of liquid passes changes the column.
proof fn lemma_column_rests(v: GridView, ticks: Seq<u64>, lower: int)
    requires
        v.wf(),
        v.width == 1,
        1 <= lower,
        lower + 1 == v.cells.len(),
        phase_of(v.materials, v.cells[lower]) == Phase::Liquid,
        phase_of(v.materials, v.cells[lower - 1]) == Phase::Liquid,
        v.materials[v.cells[lower - 1].material].liquid_density
            < v.materials[v.cells[lower].material].liquid_density,
        forall|q: int|
            0 <= q < lower - 1 ==> phase_of(v.materials, #[trigger] v.cells[q]) == Phase::Vapor,
    ensures
        passes(v, Solver::Liquid, ticks) == v.cells,
    decreases ticks.len(),
{
    if ticks.len() > 0 {
        lemma_stratified_column_rests(v, ticks[0], lower);
        lemma_column_rests(v, ticks.drop_first(), lower);
    }
}

/// A lone liquid cell over vapor falls exactly one row in a liquid pass.
pub proof fn lemma_lone_liquid_falls(v: GridView, tick: u64, place: int)
    requires
        v.wf(),
        0 <= place,
        place + v.width < v.cells.len(),
        phase_of(v.materials, v.cells[place]) == Phase::Liquid,
        phase_of(v.materials, v.cells[place + v.width]) == Phase::Vapor,
        forall|q: int|
            0 <= q < v.cells.len() && q != place ==> phase_of(v.materials, #[trigger] v.cells[q])
                != Phase::Liquid,
    ensures
        pass(v, Solver::Liquid, tick) == swapped(v.cells, place, place + v.width),
{
    lemma_lone_actor(v, Solver::Liquid, tick, place);
}

/// A lone liquid cell among vapor falls exactly one row in every liquid
/// pass for as long as there are rows under it.
pub proof fn lemma_lone_liquid_descends(v: GridView, ticks: Seq<u64>, place: int)
    requires
        v.wf(),
        0 <= place,
        place + v.width * ticks.len() < v.cells.len(),
        phase_of(v.materials, v.cells[place]) == Phase::Liquid,
        forall|q: int|
            0 <= q < v.cells.len() && q != place ==> phase_of(v.materials, #[trigger] v.cells[q])
                == Phase::Vapor,
    ensures
        passes(v, Solver::Liquid, ticks) == fallen(v.cells, v.width as int, place, ticks.len()),
        passes(v, Solver::Liquid, ticks).len() == v.cells.len(),
        passes(v, Solver::Liquid, ticks)[place + v.width * ticks.len()] == v.cells[place],
    decreases ticks.len(),
{
    let w = v.width as int;
    let k = ticks.len() as int;
    assert(0 <= w * k) by (nonlinear_arith)
        requires
            0 <= w,
            0 <= k,
    ;
    lemma_row_span(v.width, v.height, place);
    if ticks.len() > 0 {
        let rest = ticks.drop_first();
        let next = v.with_cells(pass(v, Solver::Liquid, ticks[0]));
        lemma_pass_rearranges(v, Solver::Liquid, ticks[0]);
        assert(w + w * (k - 1) == w * k && w * (k - 1) >= 0) by (nonlinear_arith)
            requires
                k >= 1,
                w >= 0,
        ;
        lemma_lone_liquid_falls(v, ticks[0], place);
        lemma_lone_liquid_descends(next, rest, place + w);
    }
}

/// Over vapor a run goes as far as its limit or the end of the row,
/// whichever is nearer.
proof fn lemma_run_over_vapor(
    v: GridView,
    mover: Cell,
    origin: int,
    from: int,
    column: int,
    leftward: bool,
    limit: nat,
)
    requires
        0 <= column < v.width,
        0 <= from - column,
        from - column + v.width <= v.cells.len(),
        leftward ==> from <= origin,
        !leftward ==> from >= origin,
        forall|q: int|
            0 <= q < v.cells.len() && q != origin ==> phase_of(v.materials, #[trigger] v.cells[q])
                == Phase::Vapor,
    ensures
        run_length(v, mover, from, column, leftward, limit) == (if leftward {
            if limit <= column {
                limit as int
            } else {
                column
            }
        } else {
            if limit <= v.width - 1 - column {
                limit as int
            } else {
                v.width - 1 - column
            }
        }),
    decreases limit,
{
    if limit > 0 {
        if leftward {
            if column > 0 {
                lemma_run_over_vapor(
                    v,
                    mover,
                    origin,
                    from - 1,
                    column - 1,
                    true,
                    (limit - 1) as nat,
                );
            }
        } else {
            if column < v.width - 1 {
                lemma_run_over_vapor(
                    v,
                    mover,
                    origin,
                    from + 1,
                    column + 1,
                    false,
                    (limit - 1) as nat,
                );
            }
        }
    }
}

/// How far a lone liquid flows along the floor in one pass: `FLOW_LIMIT`
/// cells or to the wall, whichever is nearer, on the side that it takes.
pub open spec fn spread(width: int, column: int, leftward: bool) -> int {
    let room = if leftward {
        column
    } else {
        width - 1 - column
    };
    if FLOW_LIMIT <= room {
        FLOW_LIMIT as int
    } else {
        room
    }
}

/// A lone liquid cell on the floor among vapor flows sideways along its row
/// in a liquid pass: by `FLOW_LIMIT` cells, or as far as the wall where
/// that is nearer; to the side that the tie-break prefers where both are
/// open; and never out of its row.
pub proof fn lemma_lone_liquid_spreads(v: GridView, tick: u64, place: int)
    requires
        v.wf(),
        0 <= place < v.cells.len(),
        place + v.width >= v.cells.len(),
        phase_of(v.materials, v.cells[place]) == Phase::Liquid,
        forall|q: int|
            0 <= q < v.cells.len() && q != place ==> phase_of(v.materials, #[trigger] v.cells[q])
                == Phase::Vapor,
    ensures
        pass(v, Solver::Liquid, tick) == ({
            let column = place % (v.width as int);
            let left = spread(v.width as int, column, true);
            let right = spread(v.width as int, column, false);
            if left > 0 && (right == 0 || prefers_left(tick, place)) {
                swapped(v.cells, place, place - left)
            } else if right > 0 {
                swapped(v.cells, place, place + right)
            } else {
                v.cells
            }
        }),
        0 <= place - spread(v.width as int, place % (v.width as int), true),
        place + spread(v.width as int, place % (v.width as int), false) < v.cells.len(),
{
    lemma_row_span(v.width, v.height, place);
    let column = place % (v.width as int);
    lemma_run_over_vapor(v, v.cells[place], place, place, column, true, FLOW_LIMIT as nat);
    lemma_run_over_vapor(v, v.cells[place], place, place, column, false, FLOW_LIMIT as nat);
    lemma_lone_actor(v, Solver::Liquid, tick, place);
}

} // verus!
