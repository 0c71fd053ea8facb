//! What the rule does to a few well-known shapes.
//!
//! Every statement here is about [`step`], the function that
//! [`World::advance_round`](crate::world::World::advance_round) computes, and
//! about [`converged`], the test that
//! [`World::has_converged`](crate::world::World::has_converged) makes.

use vstd::prelude::*;
use crate::generation::{
    alive_at, all_dead, converged, height_of, lemma_alive_after_step, lemma_step_keeps_shape,
    step, well_formed, width_of, Generation,
};

verus! {

/// The live cells of `g` are exactly the four cells of the square whose
/// upper left corner is `(left, top)`.
pub open spec fn is_block(g: Generation, left: int, top: int) -> bool {
    &&& 0 <= left && left + 1 < width_of(g)
    &&& 0 <= top && top + 1 < height_of(g)
    &&& forall|x: int, y: int| #[trigger]
        alive_at(g, x, y) <==> left <= x <= left + 1 && top <= y <= top + 1
}

/// The live cells of `g` are exactly three cells in a row, side by side, with
/// `(x, y)` in the middle, and the middle cell does not lie on an edge of the
/// board.
pub open spec fn is_horizontal_blinker(g: Generation, x: int, y: int) -> bool {
    &&& 1 <= x && x + 1 < width_of(g)
    &&& 1 <= y && y + 1 < height_of(g)
    &&& forall|i: int, j: int| #[trigger] alive_at(g, i, j) <==> j == y && x - 1 <= i <= x + 1
}

/// The live cells of `g` are exactly three cells in a column, one above the
/// other, with `(x, y)` in the middle, and the middle cell does not lie on an
/// edge of the board.
pub open spec fn is_vertical_blinker(g: Generation, x: int, y: int) -> bool {
    &&& 1 <= x && x + 1 < width_of(g)
    &&& 1 <= y && y + 1 < height_of(g)
    &&& forall|i: int, j: int| #[trigger] alive_at(g, i, j) <==> i == x && y - 1 <= j <= y + 1
}

/// Two well-formed generations of the same dimensions are equal when they
/// agree on which cells are alive.
pub proof fn lemma_same_cells(a: Generation, b: Generation)
    requires
        well_formed(a),
        well_formed(b),
        width_of(a) == width_of(b),
        height_of(a) == height_of(b),
        forall|x: int, y: int| alive_at(a, x, y) == alive_at(b, x, y),
    ensures
        a == b,
{
    assert forall|y: int| 0 <= y < a.len() implies a[y] =~= b[y] by {
        assert(a[y].len() == a[0].len());
        assert(b[y].len() == b[0].len());
        assert forall|x: int| 0 <= x < a[y].len() implies a[y][x] == b[y][x] by {
            assert(alive_at(a, x, y) == alive_at(b, x, y));
        }
    }
    assert(a =~~= b);
}

/// Extinction: a board without a live cell has none in the next generation
/// either, whatever its dimensions. The next generation is the same board.
pub proof fn lemma_dead_board_stays_dead(g: Generation)
    requires
        well_formed(g),
        all_dead(g),
    ensures
        all_dead(step(g)),
        step(g) == g,
{
    lemma_step_keeps_shape(g);
    assert forall|x: int, y: int| alive_at(step(g), x, y) == alive_at(g, x, y) by {
        lemma_alive_after_step(g, x, y);
    }
    lemma_same_cells(step(g), g);
}

/// Still life: a board whose only live cells are a two by two square is left
/// unchanged by the rule, wherever the square lies. Each of its four cells has
/// the three others as live neighbours, and no dead cell has more than two.
pub proof fn lemma_block_is_still_life(g: Generation, left: int, top: int)
    requires
        well_formed(g),
        is_block(g, left, top),
    ensures
        step(g) == g,
{
    lemma_step_keeps_shape(g);
    assert forall|x: int, y: int| alive_at(step(g), x, y) == alive_at(g, x, y) by {
        lemma_alive_after_step(g, x, y);
    }
    lemma_same_cells(step(g), g);
}

/// One round turns a row of three into a column of three about the same
/// middle cell.
pub proof fn lemma_horizontal_blinker_turns(g: Generation, x: int, y: int)
    requires
        well_formed(g),
        is_horizontal_blinker(g, x, y),
    ensures
        is_vertical_blinker(step(g), x, y),
{
    lemma_step_keeps_shape(g);
    assert forall|i: int, j: int| #[trigger]
        alive_at(step(g), i, j) <==> i == x && y - 1 <= j <= y + 1 by {
        lemma_alive_after_step(g, i, j);
    }
}

/// One round turns a column of three into a row of three about the same
/// middle cell.
pub proof fn lemma_vertical_blinker_turns(g: Generation, x: int, y: int)
    requires
        well_formed(g),
        is_vertical_blinker(g, x, y),
    ensures
        is_horizontal_blinker(step(g), x, y),
{
    lemma_step_keeps_shape(g);
    assert forall|i: int, j: int| #[trigger]
        alive_at(step(g), i, j) <==> j == y && x - 1 <= i <= x + 1 by {
        lemma_alive_after_step(g, i, j);
    }
}

/// Oscillation: a row of three live cells away from the edges toggles
/// between two different generations. After two rounds the board is what it
/// was, after one round it is not, and so neither round is seen as
/// equilibrium: the test finds fixed points, not oscillators.
pub proof fn lemma_blinker_oscillates(g: Generation, x: int, y: int)
    requires
        well_formed(g),
        is_horizontal_blinker(g, x, y),
    ensures
        is_vertical_blinker(step(g), x, y),
        step(step(g)) == g,
        step(g) != g,
        !converged(g, step(g)),
        !converged(step(g), step(step(g))),
{
    lemma_step_keeps_shape(g);
    lemma_step_keeps_shape(step(g));
    lemma_horizontal_blinker_turns(g, x, y);
    lemma_vertical_blinker_turns(step(g), x, y);
    lemma_same_cells(step(step(g)), g);
    assert(alive_at(g, x - 1, y) && !alive_at(step(g), x - 1, y));
}

/// Equilibrium: once a generation is its own successor, every later round
/// is seen as converged, the first and the second alike.
pub proof fn lemma_fixed_point_converges(g: Generation)
    requires
        well_formed(g),
        step(g) == g,
    ensures
        converged(g, step(g)),
        converged(step(g), step(step(g))),
{
}

/// A board without a live cell is in equilibrium from the first round on.
pub proof fn lemma_dead_board_converges(g: Generation)
    requires
        well_formed(g),
        all_dead(g),
    ensures
        converged(g, step(g)),
        converged(step(g), step(step(g))),
{
    lemma_dead_board_stays_dead(g);
}

} // verus!
