use game_of_life::grid::Grid;

fn grid_of(lines: &[&str]) -> Grid {
    let rows: Vec<Vec<bool>> = lines
        .iter()
        .map(|line| line.chars().map(|c| c == 'x').collect())
        .collect();
    Grid::from_rows(rows).expect("the rows form a rectangle")
}

fn count_alive(grid: &Grid) -> usize {
    let (width, height) = grid.dimensions();
    let mut alive = 0;
    for y in 0..height {
        for x in 0..width {
            if grid.is_alive(x, y) {
                alive += 1;
            }
        }
    }
    alive
}

#[test]
fn from_rows_keeps_every_cell() {
    let grid = Grid::from_rows(vec![
        vec![true, false, false],
        vec![false, false, true],
    ])
    .unwrap();
    assert_eq!(grid.dimensions(), (3, 2));
    assert!(grid.is_alive(0, 0));
    assert!(!grid.is_alive(1, 0));
    assert!(!grid.is_alive(2, 0));
    assert!(!grid.is_alive(0, 1));
    assert!(!grid.is_alive(1, 1));
    assert!(grid.is_alive(2, 1));
}

#[test]
fn from_rows_rejects_no_rows() {
    assert!(Grid::from_rows(Vec::new()).is_none());
}

#[test]
fn from_rows_rejects_empty_rows() {
    assert!(Grid::from_rows(vec![Vec::new()]).is_none());
    assert!(Grid::from_rows(vec![Vec::new(), Vec::new()]).is_none());
}

#[test]
fn from_rows_rejects_ragged_rows() {
    assert!(Grid::from_rows(vec![vec![true, false], vec![true]]).is_none());
    assert!(Grid::from_rows(vec![vec![true], vec![true, false]]).is_none());
    assert!(Grid::from_rows(vec![vec![true, false], vec![false, true], Vec::new()]).is_none());
}

#[test]
fn from_rows_accepts_a_single_cell() {
    let grid = Grid::from_rows(vec![vec![true]]).unwrap();
    assert_eq!(grid.dimensions(), (1, 1));
    assert!(grid.is_alive(0, 0));
}

#[test]
fn dimensions_are_width_then_height() {
    assert_eq!(grid_of(&["....", "....", "...."]).dimensions(), (4, 3));
    assert_eq!(grid_of(&["x"]).dimensions(), (1, 1));
    assert_eq!(grid_of(&["x", ".", "x", ".", "x"]).dimensions(), (1, 5));
    assert_eq!(grid_of(&["x.x.x"]).dimensions(), (5, 1));
}

#[test]
fn off_grid_cells_are_dead() {
    let full = grid_of(&["xxx", "xxx"]);
    assert!(full.is_alive(2, 1));
    assert!(!full.is_alive(3, 0));
    assert!(!full.is_alive(3, 1));
    assert!(!full.is_alive(0, 2));
    assert!(!full.is_alive(2, 2));
    assert!(!full.is_alive(3, 2));
    assert!(!full.is_alive(100, 0));
    assert!(!full.is_alive(0, 100));
}

#[test]
fn coordinates_that_wrapped_below_zero_are_dead() {
    let full = grid_of(&["xx", "xx"]);
    let minus_one = 0usize.wrapping_sub(1);
    assert_eq!(minus_one, usize::MAX);
    assert!(!full.is_alive(minus_one, 0));
    assert!(!full.is_alive(0, minus_one));
    assert!(!full.is_alive(minus_one, minus_one));
    assert!(!full.is_alive(usize::MAX - 1, 1));
}

#[test]
fn off_grid_cells_are_dead_for_many_dimensions() {
    for width in 1..6usize {
        for height in 1..6usize {
            let grid = Grid::from_rows(vec![vec![true; width]; height]).unwrap();
            assert_eq!(grid.dimensions(), (width, height));
            for y in 0..height + 3 {
                for x in 0..width + 3 {
                    let inside = x < width && y < height;
                    assert_eq!(grid.is_alive(x, y), inside);
                }
            }
        }
    }
}

#[test]
fn equals_is_true_for_the_same_cells() {
    let a = grid_of(&[".x.", "x.x"]);
    let b = grid_of(&[".x.", "x.x"]);
    assert!(a.equals(&b));
    assert!(b.equals(&a));
    assert!(a.equals(&a));
}

#[test]
fn equals_sees_one_different_cell() {
    let a = grid_of(&[".x.", "x.x"]);
    assert!(!a.equals(&grid_of(&[".x.", "x.."])));
    assert!(!a.equals(&grid_of(&["xx.", "x.x"])));
    assert!(!a.equals(&grid_of(&["...", "..."])));
}

#[test]
fn equals_sees_different_dimensions() {
    let dead_2_by_3 = grid_of(&["..", "..", ".."]);
    let dead_3_by_2 = grid_of(&["...", "..."]);
    let dead_2_by_2 = grid_of(&["..", ".."]);
    assert!(!dead_2_by_3.equals(&dead_3_by_2));
    assert!(!dead_3_by_2.equals(&dead_2_by_3));
    assert!(!dead_2_by_3.equals(&dead_2_by_2));
    assert!(!dead_2_by_2.equals(&dead_3_by_2));
}

#[test]
fn from_draws_compares_each_draw_with_the_threshold() {
    let draws = vec![vec![0, 1, 2], vec![4, 0, 3]];
    let grid = Grid::from_draws(&draws, 1).unwrap();
    assert!(grid.equals(&grid_of(&["x..", ".x."])));
    let grid = Grid::from_draws(&draws, 3).unwrap();
    assert!(grid.equals(&grid_of(&["xxx", ".x."])));
    let grid = Grid::from_draws(&draws, 0).unwrap();
    assert!(grid.equals(&grid_of(&["...", "..."])));
    let grid = Grid::from_draws(&draws, 5).unwrap();
    assert!(grid.equals(&grid_of(&["xxx", "xxx"])));
}

#[test]
fn from_draws_rejects_what_is_no_rectangle() {
    assert!(Grid::from_draws(&Vec::new(), 1).is_none());
    assert!(Grid::from_draws(&vec![Vec::new()], 1).is_none());
    assert!(Grid::from_draws(&vec![vec![0, 1], vec![0]], 1).is_none());
}

#[test]
fn create_random_has_the_requested_dimensions() {
    for (width, height) in [(1, 1), (1, 7), (7, 1), (3, 5), (80, 30)] {
        let grid = Grid::create_random(width, height, 1, 5);
        assert_eq!(grid.dimensions(), (width, height));
    }
}

#[test]
fn create_random_with_no_chance_is_all_dead() {
    let grid = Grid::create_random(20, 10, 0, 5);
    assert_eq!(count_alive(&grid), 0);
}

#[test]
fn create_random_with_every_chance_is_all_alive() {
    let grid = Grid::create_random(20, 10, 5, 5);
    assert_eq!(count_alive(&grid), 200);
    let grid = Grid::create_random(20, 10, 9, 5);
    assert_eq!(count_alive(&grid), 200);
    let grid = Grid::create_random(4, 4, 1, 1);
    assert_eq!(count_alive(&grid), 16);
}

#[test]
fn create_random_is_near_the_requested_share() {
    let grid = Grid::create_random(200, 200, 1, 5);
    let alive = count_alive(&grid);
    assert!(alive > 6000, "{} of 40000 cells are alive", alive);
    assert!(alive < 10000, "{} of 40000 cells are alive", alive);

    let grid = Grid::create_random(200, 200, 3, 4);
    let alive = count_alive(&grid);
    assert!(alive > 28000, "{} of 40000 cells are alive", alive);
    assert!(alive < 32000, "{} of 40000 cells are alive", alive);
}

#[test]
fn create_random_does_not_repeat_itself() {
    let a = Grid::create_random(64, 64, 1, 2);
    let b = Grid::create_random(64, 64, 1, 2);
    assert!(!a.equals(&b));
}
