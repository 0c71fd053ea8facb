//! The simulation engine: it owns the current generation and advances it.

use vstd::prelude::*;
use crate::generation::{
    alive_at, alive_next, converged, height_of, lemma_step_keeps_shape, live_neighbors, step,
    well_formed, width_of, Generation,
};
use crate::grid::{filled_at_random, Grid};

verus! {

/// Of [`CHANCES`] equally likely draws, this many make a cell of a new world
/// alive.
pub const LIVE_CHANCES: u32 = 1;

/// The number of equally likely draws for each cell of a new world.
pub const CHANCES: u32 = 5;

/// The character that stands for a cell in the text of a grid.
pub open spec fn cell_mark(alive: bool) -> char {
    if alive {
        'x'
    } else {
        '.'
    }
}

/// The text of row `y`: one character for each column, from left to right,
/// with nothing between them.
pub open spec fn row_text(g: Generation, y: int) -> Seq<char> {
    Seq::new(width_of(g), |x: int| cell_mark(alive_at(g, x, y)))
}

/// The engine. It holds exactly one grid, the latest generation.
pub struct World {
    grid: Grid,
}

impl View for World {
    type V = Generation;

    closed spec fn view(&self) -> Generation {
        self.grid@
    }
}

impl World {
    /// The current generation is always a rectangle with at least one cell.
    #[verifier::type_invariant]
    pub open spec fn wf(&self) -> bool {
        well_formed(self@)
    }

    /// An engine of `width` columns and `height` rows whose first generation
    /// is filled at random: every cell is alive with one chance in five,
    /// independently of the others.
    pub fn new(width: usize, height: usize) -> (world: World)
        requires
            width > 0,
            height > 0,
        ensures
            width_of(world@) == width,
            height_of(world@) == height,
            filled_at_random(world@, width as nat, height as nat, LIVE_CHANCES, CHANCES),
    {
        World::from_grid(Grid::create_random(width, height, LIVE_CHANCES, CHANCES))
    }

    /// An engine whose current generation is `grid`.
    pub fn from_grid(grid: Grid) -> (world: World)
        ensures
            world@ == grid@,
    {
        proof {
            use_type_invariant(&grid);
        }
        World { grid }
    }

    /// The latest generation.
    pub fn current_grid(&self) -> (grid: &Grid)
        ensures
            grid@ == self@,
    {
        &self.grid
    }

    /// Whether the cell `(x, y)` of the current generation is alive. A
    /// coordinate off the grid is dead.
    pub fn is_live_cell(&self, x: usize, y: usize) -> (alive: bool)
        ensures
            alive == alive_at(self@, x as int, y as int),
    {
        self.grid.is_alive(x, y)
    }

    /// The number of live cells among the eight neighbours of `(x, y)`. A
    /// cell on an edge or in a corner has fewer neighbours on the grid; the
    /// missing ones count as dead.
    pub fn count_neighbors(&self, x: usize, y: usize) -> (neighbors: u8)
        ensures
            neighbors == live_neighbors(self@, x as int, y as int),
            neighbors <= 8,
    {
        proof {
            use_type_invariant(self);
        }
        let (width, height): (usize, usize) = self.grid.dimensions();
        let mut num_neighbors: u8 = 0;

        if x > 0 && y > 0 {
            if self.is_live_cell(x - 1, y - 1) {
                num_neighbors = num_neighbors + 1;
            }
        }
        if y > 0 {
            if self.is_live_cell(x, y - 1) {
                num_neighbors = num_neighbors + 1;
            }
        }
        if x < width - 1 && y > 0 {
            if self.is_live_cell(x + 1, y - 1) {
                num_neighbors = num_neighbors + 1;
            }
        }
        if x > 0 {
            if self.is_live_cell(x - 1, y) {
                num_neighbors = num_neighbors + 1;
            }
        }
        if x < width - 1 {
            if self.is_live_cell(x + 1, y) {
                num_neighbors = num_neighbors + 1;
            }
        }
        if x > 0 && y < height - 1 {
            if self.is_live_cell(x - 1, y + 1) {
                num_neighbors = num_neighbors + 1;
            }
        }
        if y < height - 1 {
            if self.is_live_cell(x, y + 1) {
                num_neighbors = num_neighbors + 1;
            }
        }
        if x < width - 1 && y < height - 1 {
            if self.is_live_cell(x + 1, y + 1) {
                num_neighbors = num_neighbors + 1;
            }
        }
        num_neighbors
    }

    /// Whether the cell `(x, y)` is alive in the next generation: a live
    /// cell with two or three live neighbours survives, a dead cell with
    /// exactly three live neighbours comes to life, and every other cell is
    /// dead. A coordinate off the grid is dead in every generation.
    pub fn is_cell_alive_next_round(&self, x: usize, y: usize) -> (alive: bool)
        ensures
            alive == alive_next(self@, x as int, y as int),
    {
        proof {
            use_type_invariant(self);
        }
        let (width, height): (usize, usize) = self.grid.dimensions();
        if x >= width || y >= height {
            return false;
        }
        assert(self@[y as int].len() == width);
        let neighbors: u8 = self.count_neighbors(x, y);
        if self.is_live_cell(x, y) {
            neighbors == 2 || neighbors == 3
        } else {
            neighbors == 3
        }
    }

    /// The generation that follows the current one. Every cell is judged
    /// against the current generation alone, and the result is a new grid:
    /// the current one is left as it is.
    pub fn next_generation(&self) -> (next: Grid)
        ensures
            next@ == step(self@),
    {
        proof {
            use_type_invariant(self);
            lemma_step_keeps_shape(self@);
        }
        let (width, height): (usize, usize) = self.grid.dimensions();
        let mut new_cells: Vec<Vec<bool>> = Vec::new();
        let mut y: usize = 0;
        while y < height
            invariant
                well_formed(self@),
                width == self@[0].len(),
                height == self@.len(),
                y <= height,
                new_cells.len() == y,
                forall|j: int| 0 <= j < y ==> (#[trigger] new_cells[j])@ =~= step(self@)[j],
            decreases height - y,
        {
            let mut row: Vec<bool> = Vec::new();
            let mut x: usize = 0;
            while x < width
                invariant
                    well_formed(self@),
                    width == self@[0].len(),
                    y < height == self@.len(),
                    x <= width,
                    row.len() == x,
                    forall|i: int| 0 <= i < x ==> #[trigger] row[i] == alive_next(self@, i, y as int),
                decreases width - x,
            {
                row.push(self.is_cell_alive_next_round(x, y));
                x = x + 1;
            }
            assert(self@[y as int].len() == width);
            new_cells.push(row);
            y = y + 1;
        }
        assert(new_cells.deep_view() =~~= step(self@));
        Grid::from_rows(new_cells).unwrap()
    }

    /// Replaces the current generation by the one that follows it, and hands
    /// back the generation that was current before, so that the caller can
    /// compare the two. The new generation depends on the old one alone and
    /// has its dimensions.
    pub fn advance_round(&mut self) -> (previous: Grid)
        ensures
            final(self)@ == step(old(self)@),
            previous@ == old(self)@,
            width_of(final(self)@) == width_of(old(self)@),
            height_of(final(self)@) == height_of(old(self)@),
    {
        proof {
            use_type_invariant(&*self);
            lemma_step_keeps_shape(self@);
        }
        let mut next = World::from_grid(self.next_generation());
        std::mem::swap(self, &mut next);
        next.grid
    }

    /// Whether the automaton has come to rest: the two generations, one the
    /// successor of the other, are identical. This finds fixed points only,
    /// not patterns that repeat with a longer period.
    pub fn has_converged(previous: &Grid, current: &Grid) -> (same: bool)
        ensures
            same == converged(previous@, current@),
    {
        previous.equals(current)
    }

    /// The text of row `y` of the current generation: `x` for a live cell and
    /// `.` for a dead one.
    pub fn print_map_line(&self, y: usize) -> (line: String)
        ensures
            line@ == row_text(self@, y as int),
    {
        let (width, _): (usize, usize) = self.grid.dimensions();
        let mut line = String::new();
        let mut x: usize = 0;
        while x < width
            invariant
                width == width_of(self@),
                x <= width,
                line@.len() == x,
                forall|i: int|
                    0 <= i < x ==> #[trigger] line@[i] == cell_mark(
                        alive_at(self@, i, y as int),
                    ),
            decreases width - x,
        {
            proof {
                reveal_strlit("x");
                reveal_strlit(".");
            }
            if self.is_live_cell(x, y) {
                line.append("x");
            } else {
                line.append(".");
            }
            x = x + 1;
        }
        assert(line@ =~= row_text(self@, y as int));
        line
    }

    /// The text of the current generation, one line for each row, top row
    /// first.
    pub fn print(&self) -> (lines: Vec<String>)
        ensures
            lines.len() == height_of(self@),
            forall|y: int| 0 <= y < lines.len() ==> (#[trigger] lines[y])@ == row_text(self@, y),
    {
        let (_, height): (usize, usize) = self.grid.dimensions();
        let mut lines: Vec<String> = Vec::new();
        let mut y: usize = 0;
        while y < height
            invariant
                height == height_of(self@),
                y <= height,
                lines.len() == y,
                forall|j: int| 0 <= j < y ==> (#[trigger] lines[j])@ == row_text(self@, j),
            decreases height - y,
        {
            lines.push(self.print_map_line(y));
            y = y + 1;
        }
        lines
    }
}

} // verus!
