//! The executable grid: one generation held in memory.

use vstd::prelude::*;
use crate::generation::{
    alive_at, all_alive, all_dead, height_of, in_bounds, well_formed, width_of, Generation,
};
use crate::random::random_below;

verus! {

/// The generation read off a table of draws: the cell `(x, y)` is alive when
/// `draws[y][x]` is less than `live`.
pub open spec fn cells_from_draws(draws: Seq<Seq<u32>>, live: u32) -> Generation {
    Seq::new(draws.len(), |y: int| Seq::new(draws[y].len(), |x: int| draws[y][x] < live))
}

/// A table of `height` rows of `width` draws, each of them less than `out_of`.
pub open spec fn is_draw_table(draws: Seq<Seq<u32>>, width: nat, height: nat, out_of: u32) -> bool {
    &&& draws.len() == height
    &&& forall|y: int| 0 <= y < height ==> (#[trigger] draws[y]).len() == width
    &&& forall|x: int, y: int| 0 <= y < height && 0 <= x < width ==> #[trigger] draws[y][x] < out_of
}

/// What holds of a grid that was filled at random, whatever was drawn: it is
/// the generation read off some table of `width` by `height` draws below
/// `out_of`. Each cell had `live` chances in `out_of` to be alive.
pub open spec fn filled_at_random(
    g: Generation,
    width: nat,
    height: nat,
    live: u32,
    out_of: u32,
) -> bool {
    exists|draws: Seq<Seq<u32>>| #[trigger]
        is_draw_table(draws, width, height, out_of) && g == cells_from_draws(draws, live)
}

/// One generation of cells. A grid is a value: no operation changes its
/// dimensions or its cells.
pub struct Grid {
    rows: Vec<Vec<bool>>,
}

impl View for Grid {
    type V = Generation;

    closed spec fn view(&self) -> Generation {
        self.rows.deep_view()
    }
}

impl Grid {
    /// Every grid is a rectangle with at least one cell.
    #[verifier::type_invariant]
    pub open spec fn wf(&self) -> bool {
        well_formed(self@)
    }

    /// The grid whose row `y` is `rows[y]`, top row first. The rows have to
    /// form a rectangle with at least one cell: an empty list, an empty row
    /// or rows of different lengths give `None`.
    pub fn from_rows(rows: Vec<Vec<bool>>) -> (grid: Option<Grid>)
        ensures
            grid is Some <==> well_formed(rows.deep_view()),
            grid matches Some(g) ==> g@ == rows.deep_view(),
    {
        let height: usize = rows.len();
        if height == 0 {
            return None;
        }
        let width: usize = rows[0].len();
        if width == 0 {
            assert(rows.deep_view()[0].len() == 0);
            return None;
        }
        let mut y: usize = 1;
        while y < height
            invariant
                1 <= y <= height,
                height == rows.len(),
                width == rows[0].len(),
                forall|j: int| 0 <= j < y ==> (#[trigger] rows[j]).len() == width,
            decreases height - y,
        {
            if rows[y].len() != width {
                assert(rows.deep_view()[y as int].len() != rows.deep_view()[0].len());
                return None;
            }
            y = y + 1;
        }
        assert(well_formed(rows.deep_view())) by {
            assert forall|j: int| 0 <= j < rows.deep_view().len() implies (
            #[trigger] rows.deep_view()[j]).len() == rows.deep_view()[0].len() by {
                assert(rows[j].len() == width);
            }
        }
        Some(Grid { rows })
    }

    /// The grid read off a table of draws: the cell `(x, y)` is alive when
    /// `draws[y][x]` is less than `live`. The table has to be a rectangle with
    /// at least one entry, as the rows of [`Grid::from_rows`] have to be.
    pub fn from_draws(draws: &Vec<Vec<u32>>, live: u32) -> (grid: Option<Grid>)
        ensures
            grid is Some <==> well_formed(cells_from_draws(draws.deep_view(), live)),
            grid matches Some(g) ==> g@ == cells_from_draws(draws.deep_view(), live),
    {
        let mut rows: Vec<Vec<bool>> = Vec::new();
        let mut y: usize = 0;
        while y < draws.len()
            invariant
                y <= draws.len(),
                rows.len() == y,
                forall|j: int|
                    0 <= j < y ==> (#[trigger] rows[j])@ =~= cells_from_draws(
                        draws.deep_view(),
                        live,
                    )[j],
            decreases draws.len() - y,
        {
            let mut row: Vec<bool> = Vec::new();
            let mut x: usize = 0;
            while x < draws[y].len()
                invariant
                    y < draws.len(),
                    x <= draws[y as int].len(),
                    row.len() == x,
                    forall|i: int| 0 <= i < x ==> #[trigger] row[i] == (draws[y as int][i] < live),
                decreases draws[y as int].len() - x,
            {
                row.push(draws[y][x] < live);
                x = x + 1;
            }
            rows.push(row);
            y = y + 1;
        }
        assert(rows.deep_view() =~~= cells_from_draws(draws.deep_view(), live));
        Grid::from_rows(rows)
    }

    /// A grid of `width` columns and `height` rows in which every cell is
    /// alive with probability `live / out_of`, independently of the others:
    /// for each cell one number below `out_of` is drawn, and the cell is
    /// alive when the number is less than `live`.
    ///
    /// Which cells are alive is left to chance, except at the two ends: with
    /// `live == 0` no cell is alive, and with `live >= out_of` all of them are.
    pub fn create_random(width: usize, height: usize, live: u32, out_of: u32) -> (grid: Grid)
        requires
            width > 0,
            height > 0,
            out_of > 0,
        ensures
            width_of(grid@) == width,
            height_of(grid@) == height,
            filled_at_random(grid@, width as nat, height as nat, live, out_of),
            live == 0 ==> all_dead(grid@),
            live >= out_of ==> all_alive(grid@),
    {
        let mut draws: Vec<Vec<u32>> = Vec::new();
        let mut y: usize = 0;
        while y < height
            invariant
                out_of > 0,
                y <= height,
                draws.len() == y,
                forall|j: int| 0 <= j < y ==> (#[trigger] draws[j]).len() == width,
                forall|i: int, j: int|
                    0 <= j < y && 0 <= i < width ==> (#[trigger] draws[j][i]) < out_of,
            decreases height - y,
        {
            let mut row: Vec<u32> = Vec::new();
            let mut x: usize = 0;
            while x < width
                invariant
                    out_of > 0,
                    x <= width,
                    row.len() == x,
                    forall|i: int| 0 <= i < x ==> (#[trigger] row[i]) < out_of,
                decreases width - x,
            {
                row.push(random_below(out_of));
                x = x + 1;
            }
            draws.push(row);
            y = y + 1;
        }
        let ghost table = draws.deep_view();
        let ghost cells = cells_from_draws(table, live);
        assert(is_draw_table(table, width as nat, height as nat, out_of));
        assert(well_formed(cells)) by {
            assert(cells[0].len() == width);
        }
        let grid = Grid::from_draws(&draws, live).unwrap();
        assert(grid@[0].len() == width);
        assert(live >= out_of ==> all_alive(grid@)) by {
            if live >= out_of {
                assert forall|x: int, y: int| in_bounds(grid@, x, y) implies alive_at(
                    grid@,
                    x,
                    y,
                ) by {
                    assert(table[y][x] < out_of);
                }
            }
        }
        grid
    }

    /// The number of columns and the number of rows, in this order.
    pub fn dimensions(&self) -> (dims: (usize, usize))
        ensures
            dims.0 == width_of(self@),
            dims.1 == height_of(self@),
            dims.0 > 0,
            dims.1 > 0,
    {
        proof {
            use_type_invariant(self);
        }
        (self.rows[0].len(), self.rows.len())
    }

    /// Whether the cell `(x, y)` is alive. A coordinate off the grid is dead.
    pub fn is_alive(&self, x: usize, y: usize) -> (alive: bool)
        ensures
            alive == alive_at(self@, x as int, y as int),
            x >= width_of(self@) || y >= height_of(self@) ==> !alive,
    {
        proof {
            use_type_invariant(self);
        }
        if y >= self.rows.len() {
            return false;
        }
        if x >= self.rows[y].len() {
            return false;
        }
        assert(self@[y as int].len() == width_of(self@));
        self.rows[y][x]
    }

    /// Whether the two grids have the same dimensions and the same state in
    /// every cell.
    pub fn equals(&self, other: &Grid) -> (same: bool)
        ensures
            same == (self@ == other@),
    {
        proof {
            use_type_invariant(self);
            use_type_invariant(other);
        }
        let (width, height): (usize, usize) = self.dimensions();
        let (other_width, other_height): (usize, usize) = other.dimensions();
        if width != other_width || height != other_height {
            return false;
        }
        let mut y: usize = 0;
        while y < height
            invariant
                well_formed(self@),
                well_formed(other@),
                width == width_of(self@) == width_of(other@),
                height == height_of(self@) == height_of(other@),
                y <= height,
                forall|j: int| 0 <= j < y ==> #[trigger] self@[j] =~= other@[j],
            decreases height - y,
        {
            assert(self@[y as int].len() == width && other@[y as int].len() == width);
            let mut x: usize = 0;
            while x < width
                invariant
                    y < height == self.rows.len() == other.rows.len(),
                    width == self.rows[y as int].len() == other.rows[y as int].len(),
                    x <= width,
                    forall|i: int|
                        0 <= i < x ==> #[trigger] self.rows[y as int][i] == other.rows[y as int][i],
                decreases width - x,
            {
                if self.rows[y][x] != other.rows[y][x] {
                    assert(self@[y as int][x as int] != other@[y as int][x as int]);
                    return false;
                }
                x = x + 1;
            }
            y = y + 1;
        }
        assert(self@ =~~= other@);
        true
    }
}

} // verus!
