//! The playing field and its cells.

use vstd::prelude::*;

verus! {

/// Number of cells in a row of the grid.
pub const WINDOW_WIDTH_PIXEL: i32 = 20;

/// Number of rows of the grid.
pub const WINDOW_HEIGHT_PIXEL: i32 = 10;

/// Number of cells of the grid.
pub const GRID_CELLS: usize = 200;

/// A cell, named by its column and its row. Two cells are equal when both
/// coordinates are.
#[derive(PartialEq, Eq, Structural, Clone, Copy, Debug)]
pub struct Pixel {
    pub position_x: i32,
    pub position_y: i32,
}

/// The cell lies on the grid.
pub open spec fn in_grid(cell: Pixel) -> bool {
    0 <= cell.position_x < WINDOW_WIDTH_PIXEL && 0 <= cell.position_y < WINDOW_HEIGHT_PIXEL
}

/// The cell that stands at place `index` when the grid is read row by row.
pub open spec fn cell_at(index: int) -> Pixel {
    Pixel {
        position_x: (index % (WINDOW_WIDTH_PIXEL as int)) as i32,
        position_y: (index / (WINDOW_WIDTH_PIXEL as int)) as i32,
    }
}

/// The place of a cell of the grid when the grid is read row by row.
pub open spec fn index_of(cell: Pixel) -> int {
    cell.position_y * WINDOW_WIDTH_PIXEL + cell.position_x
}

/// The cells among the first `count` of the grid that `snake` leaves free, in
/// reading order.
pub open spec fn free_among(snake: Seq<Pixel>, count: nat) -> Seq<Pixel>
    decreases count,
{
    if count == 0 {
        Seq::empty()
    } else {
        let before = free_among(snake, (count - 1) as nat);
        let cell = cell_at(count - 1);
        if snake.contains(cell) {
            before
        } else {
            before.push(cell)
        }
    }
}

/// The cells of the grid that `snake` leaves free, in reading order.
pub open spec fn free_cells(snake: Seq<Pixel>) -> Seq<Pixel> {
    free_among(snake, GRID_CELLS as nat)
}

impl Pixel {
    /// The cell with the given column and row.
    pub fn new(position_x: i32, position_y: i32) -> (cell: Pixel)
        ensures
            cell.position_x == position_x,
            cell.position_y == position_y,
    {
        Pixel { position_x, position_y }
    }

    /// Whether the cell lies on the grid.
    pub fn on_grid(&self) -> (inside: bool)
        ensures
            inside == in_grid(*self),
    {
        0 <= self.position_x && self.position_x < WINDOW_WIDTH_PIXEL && 0 <= self.position_y
            && self.position_y < WINDOW_HEIGHT_PIXEL
    }
}

/// Whether one of the snake's segments lies on `cell`.
pub fn occupies(snake: &Vec<Pixel>, cell: Pixel) -> (found: bool)
    ensures
        found == snake@.contains(cell),
{
    let mut i: usize = 0;
    while i < snake.len()
        invariant
            i <= snake.len(),
            forall|j: int| 0 <= j < i ==> snake@[j] != cell,
        decreases snake.len() - i,
    {
        if snake[i] == cell {
            return true;
        }
        i += 1;
    }
    false
}

/// Every cell that `free_among` lists is one of the first `count` of the
/// grid and is left free by the snake, and each such cell is listed.
pub proof fn free_among_is_exact(snake: Seq<Pixel>, count: nat, cell: Pixel)
    requires
        count <= GRID_CELLS,
    ensures
        free_among(snake, count).contains(cell) <==> (in_grid(cell) && index_of(cell) < count
            && !snake.contains(cell)),
    decreases count,
{
    if count > 0 {
        let before = free_among(snake, (count - 1) as nat);
        let last = cell_at(count - 1);
        free_among_is_exact(snake, (count - 1) as nat, cell);
        assert(in_grid(last) && index_of(last) == count - 1);
        assert(in_grid(cell) && index_of(cell) == count - 1 ==> cell == last);
        if !snake.contains(last) {
            assert(before.push(last).last() == last);
            assert(forall|j: int| 0 <= j < before.len() ==> before.push(last)[j] == before[j]);
            if before.contains(cell) {
                let j = choose|j: int| 0 <= j < before.len() && before[j] == cell;
                assert(before.push(last)[j] == cell);
            }
        }
    }
}

/// A cell is listed by `free_cells` exactly when it lies on the grid and no
/// segment of the snake lies on it.
pub proof fn free_cells_are_the_free_ones(snake: Seq<Pixel>, cell: Pixel)
    ensures
        free_cells(snake).contains(cell) <==> (in_grid(cell) && !snake.contains(cell)),
{
    free_among_is_exact(snake, GRID_CELLS as nat, cell);
}

} // verus!
