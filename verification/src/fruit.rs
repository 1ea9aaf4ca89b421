//! Where the next fruit is put: on a cell of the grid that the snake leaves
//! free, each such cell being as likely as any other.

use crate::grid::{
    cell_at, free_among, free_cells, occupies, Pixel, GRID_CELLS, WINDOW_WIDTH_PIXEL,
};
use rand::Rng;
use vstd::prelude::*;

verus! {

/// A number below `bound`, drawn by `rand::Rng::gen_range` on the thread's
/// generator with the range `0..bound`. The range must not be empty, since
/// `gen_range` panics on an empty one. Assumed of the call: what it returns
/// lies in the range. Which number it is depends on chance, so nothing more
/// is claimed.
#[verifier::external_body]
pub(crate) fn random_below(bound: usize) -> (drawn: usize)
    requires
        bound > 0,
    ensures
        drawn < bound,
{
    rand::thread_rng().gen_range(0..bound)
}

/// The cells of the grid on which no segment of the snake lies, row by row.
pub fn list_free(snake: &Vec<Pixel>) -> (free: Vec<Pixel>)
    ensures
        free@ == free_cells(snake@),
{
    let mut free: Vec<Pixel> = Vec::new();
    let mut index: usize = 0;
    while index < GRID_CELLS
        invariant
            index <= GRID_CELLS,
            free@ == free_among(snake@, index as nat),
        decreases GRID_CELLS - index,
    {
        let place = index as i32;
        let cell = Pixel {
            position_x: place % WINDOW_WIDTH_PIXEL,
            position_y: place / WINDOW_WIDTH_PIXEL,
        };
        assert(cell == cell_at(index as int));
        if !occupies(snake, cell) {
            free.push(cell);
        }
        index += 1;
    }
    free
}

/// The free cell that a draw of `drawn` selects: the one at that place among
/// the free cells read row by row. There is none when the draw is not below
/// the number of free cells.
pub fn choose_fruit(snake: &Vec<Pixel>, drawn: usize) -> (fruit: Option<Pixel>)
    ensures
        fruit == if drawn < free_cells(snake@).len() {
            Some(free_cells(snake@)[drawn as int])
        } else {
            None
        },
{
    let free = list_free(snake);
    if drawn < free.len() {
        Some(free[drawn])
    } else {
        None
    }
}

/// A fruit for the given snake: one of the free cells of the grid, drawn at
/// random, each with the same chance. When the snake fills the grid there is
/// no room for a fruit and the answer is `None`; in every other case a fruit
/// is returned.
pub fn spawn_fruit(snake: &Vec<Pixel>) -> (fruit: Option<Pixel>)
    ensures
        fruit is None <==> free_cells(snake@).len() == 0,
        fruit is Some ==> free_cells(snake@).contains(fruit->Some_0),
{
    let free = list_free(snake);
    if free.len() == 0 {
        None
    } else {
        let drawn = random_below(free.len());
        Some(free[drawn])
    }
}

} // verus!
