//! The mathematical model of the automaton.
//!
//! A generation is a sequence of rows, each row a sequence of cell states
//! (`true` for a live cell). Row `y`, column `x` is the cell `(x, y)`. Cells
//! outside the rectangle are dead and stay dead: the board has edges, it does
//! not wrap around.

use vstd::prelude::*;

verus! {

/// One generation: `g[y][x]` is the state of the cell in column `x` of row `y`.
pub type Generation = Seq<Seq<bool>>;

/// A generation is well formed when it has at least one row, at least one
/// column, and every row has the same number of cells.
pub open spec fn well_formed(g: Generation) -> bool {
    &&& g.len() > 0
    &&& g[0].len() > 0
    &&& forall|y: int| 0 <= y < g.len() ==> (#[trigger] g[y]).len() == g[0].len()
}

/// The number of columns.
pub open spec fn width_of(g: Generation) -> nat {
    if g.len() > 0 {
        g[0].len()
    } else {
        0
    }
}

/// The number of rows.
pub open spec fn height_of(g: Generation) -> nat {
    g.len()
}

/// Whether `(x, y)` names a cell of the generation.
pub open spec fn in_bounds(g: Generation, x: int, y: int) -> bool {
    0 <= y < g.len() && 0 <= x < g[y].len()
}

/// Whether the cell `(x, y)` is alive. Any coordinate off the board is dead.
pub open spec fn alive_at(g: Generation, x: int, y: int) -> bool {
    in_bounds(g, x, y) && g[y][x]
}

/// No cell of the generation is alive.
pub open spec fn all_dead(g: Generation) -> bool {
    forall|x: int, y: int| !alive_at(g, x, y)
}

/// Every cell of the generation is alive.
pub open spec fn all_alive(g: Generation) -> bool {
    forall|x: int, y: int| in_bounds(g, x, y) ==> alive_at(g, x, y)
}

/// One for a live cell, zero for a dead one.
pub open spec fn population(alive: bool) -> nat {
    if alive {
        1
    } else {
        0
    }
}

/// The number of live cells among the eight cells that touch `(x, y)`
/// horizontally, vertically or diagonally.
pub open spec fn live_neighbors(g: Generation, x: int, y: int) -> nat {
    population(alive_at(g, x - 1, y - 1)) + population(alive_at(g, x, y - 1)) + population(
        alive_at(g, x + 1, y - 1),
    ) + population(alive_at(g, x - 1, y)) + population(alive_at(g, x + 1, y)) + population(
        alive_at(g, x - 1, y + 1),
    ) + population(alive_at(g, x, y + 1)) + population(alive_at(g, x + 1, y + 1))
}

/// The rule of the game for one cell: a live cell survives with two or three
/// live neighbours, a dead cell comes to life with exactly three.
pub open spec fn lives_on(alive: bool, neighbors: nat) -> bool {
    if alive {
        neighbors == 2 || neighbors == 3
    } else {
        neighbors == 3
    }
}

/// Whether the cell `(x, y)` is alive in the generation that follows `g`.
/// A coordinate off the board is dead in every generation.
pub open spec fn alive_next(g: Generation, x: int, y: int) -> bool {
    in_bounds(g, x, y) && lives_on(alive_at(g, x, y), live_neighbors(g, x, y))
}

/// The generation that follows `g`: every cell is judged against `g` alone.
pub open spec fn step(g: Generation) -> Generation {
    Seq::new(g.len(), |y: int| Seq::new(g[y].len(), |x: int| alive_next(g, x, y)))
}

/// The rule has no memory and no chance in it: generations that are equal
/// have equal successors.
pub proof fn lemma_step_is_deterministic(a: Generation, b: Generation)
    requires
        a == b,
    ensures
        step(a) == step(b),
{
}

/// The rule never changes the shape of the board: the next generation has
/// the dimensions of the one it came from.
pub proof fn lemma_step_keeps_shape(g: Generation)
    requires
        well_formed(g),
    ensures
        well_formed(step(g)),
        width_of(step(g)) == width_of(g),
        height_of(step(g)) == height_of(g),
{
    assert forall|y: int| 0 <= y < step(g).len() implies (#[trigger] step(g)[y]).len() == step(
        g,
    )[0].len() by {
        assert(g[y].len() == g[0].len());
    }
}

/// The cells of the next generation are those that the rule lets live: to
/// look a cell up after a step is to judge it before the step.
pub proof fn lemma_alive_after_step(g: Generation, x: int, y: int)
    requires
        well_formed(g),
    ensures
        in_bounds(step(g), x, y) == in_bounds(g, x, y),
        alive_at(step(g), x, y) == alive_next(g, x, y),
{
}

/// Two consecutive generations are in equilibrium when they are identical.
pub open spec fn converged(previous: Generation, current: Generation) -> bool {
    previous == current
}

} // verus!
