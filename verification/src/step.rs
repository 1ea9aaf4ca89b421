//! One tick of the game: the snake moves by one cell, grows when it reaches
//! the fruit, and the tick says whether the game ends with it.

use crate::fruit::spawn_fruit;
use crate::grid::{
    free_cells, free_cells_are_the_free_ones, in_grid, Pixel, WINDOW_HEIGHT_PIXEL,
    WINDOW_WIDTH_PIXEL,
};
use vstd::prelude::*;

verus! {

/// What one tick hands back: the fruit that now lies on the grid, and the
/// ways in which the tick ended the game. The game goes on when none of the
/// three flags is set.
#[derive(PartialEq, Eq, Structural, Clone, Copy, Debug)]
pub struct Tick {
    /// The fruit after the tick.
    pub fruit: Pixel,
    /// The head moved onto a segment of the snake's own body.
    pub ate_itself: bool,
    /// The head left the grid.
    pub hit_wall: bool,
    /// The snake ate, and no cell of the grid is left for a new fruit.
    pub grid_full: bool,
}

/// The cell that lies `direction` away from `head`.
pub open spec fn moved(head: Pixel, direction: (i32, i32)) -> Pixel {
    Pixel {
        position_x: (head.position_x + direction.0) as i32,
        position_y: (head.position_y + direction.1) as i32,
    }
}

/// The head can move by `direction` without leaving the range of `i32`.
pub open spec fn can_move(head: Pixel, direction: (i32, i32)) -> bool {
    &&& i32::MIN <= head.position_x + direction.0 <= i32::MAX
    &&& i32::MIN <= head.position_y + direction.1 <= i32::MAX
}

/// The tick is an eating one: the head moves onto the fruit.
pub open spec fn eats(snake: Seq<Pixel>, direction: (i32, i32), fruit: Pixel) -> bool {
    moved(snake[0], direction) == fruit
}

/// The snake after the tick. On an eating tick the new head is put in front
/// of the whole snake; on any other the tail cell is given up as well.
pub open spec fn snake_after(snake: Seq<Pixel>, direction: (i32, i32), fruit: Pixel) -> Seq<
    Pixel,
> {
    if eats(snake, direction, fruit) {
        seq![moved(snake[0], direction)] + snake
    } else {
        seq![moved(snake[0], direction)] + snake.drop_last()
    }
}

/// The tick ends in the snake eating itself: it is no eating tick, and after
/// it a segment behind the head lies where the head is.
pub open spec fn bites_itself(snake: Seq<Pixel>, direction: (i32, i32), fruit: Pixel) -> bool {
    let after = snake_after(snake, direction, fruit);
    !eats(snake, direction, fruit) && after.skip(1).contains(after[0])
}

/// The tick ends with the head outside the grid.
pub open spec fn hits_wall(snake: Seq<Pixel>, direction: (i32, i32)) -> bool {
    !in_grid(moved(snake[0], direction))
}

/// One tick leads from the snake `before` and the fruit `fruit` to the snake
/// `after` and the report `tick`. The snake and the two collision flags are
/// fixed by what went in. On a tick without eating the fruit stays. On an
/// eating tick the new fruit is one of the cells that the grown snake leaves
/// free; when there is none, the old fruit stays and the report says that the
/// grid is full.
pub open spec fn is_step(
    before: Seq<Pixel>,
    direction: (i32, i32),
    fruit: Pixel,
    after: Seq<Pixel>,
    tick: Tick,
) -> bool {
    &&& after == snake_after(before, direction, fruit)
    &&& tick.ate_itself == bites_itself(before, direction, fruit)
    &&& tick.hit_wall == hits_wall(before, direction)
    &&& if !eats(before, direction, fruit) {
        tick.fruit == fruit && !tick.grid_full
    } else if free_cells(after).len() == 0 {
        tick.fruit == fruit && tick.grid_full
    } else {
        free_cells(after).contains(tick.fruit) && !tick.grid_full
    }
}

/// A game that is going on: the snake has a head, lies on the grid and
/// crosses itself nowhere, and the fruit lies on a cell of the grid that the
/// snake leaves free.
pub open spec fn live(snake: Seq<Pixel>, fruit: Pixel) -> bool {
    &&& snake.len() >= 1
    &&& snake.no_duplicates()
    &&& forall|i: int| 0 <= i < snake.len() ==> in_grid(#[trigger] snake[i])
    &&& in_grid(fruit)
    &&& !snake.contains(fruit)
}

/// The tick ended the game.
pub open spec fn ends_game(tick: Tick) -> bool {
    tick.ate_itself || tick.hit_wall || tick.grid_full
}

impl Tick {
    /// Whether the game is over after this tick.
    pub fn is_over(&self) -> (over: bool)
        ensures
            over == ends_game(*self),
    {
        self.ate_itself || self.hit_wall || self.grid_full
    }
}

/// A tick that does not end the game leaves it going on: after it the snake
/// still lies on the grid and crosses itself nowhere, and the fruit lies on a
/// free cell of the grid.
pub proof fn live_game_stays_live(
    before: Seq<Pixel>,
    direction: (i32, i32),
    fruit: Pixel,
    after: Seq<Pixel>,
    tick: Tick,
)
    requires
        live(before, fruit),
        is_step(before, direction, fruit, after, tick),
        !ends_game(tick),
    ensures
        live(after, tick.fruit),
{
    let head = moved(before[0], direction);
    let body = after.skip(1);
    assert(after[0] == head);
    assert(forall|i: int| 1 <= i < after.len() ==> after[i] == body[i - 1]);
    if eats(before, direction, fruit) {
        assert(body =~= before);
        free_cells_are_the_free_ones(after, tick.fruit);
    } else {
        assert(body =~= before.drop_last());
        assert(forall|k: int| 0 <= k < body.len() ==> body[k] == before[k]);
        if after.contains(fruit) {
            let i = choose|i: int| 0 <= i < after.len() && after[i] == fruit;
            assert(before[i - 1] == fruit);
        }
    }
    assert forall|i: int, j: int| 0 <= i < after.len() && 0 <= j < after.len() && i != j implies
        after[i] != after[j] by {
        if i == 0 {
            assert(body[j - 1] == after[j]);
        } else if j == 0 {
            assert(body[i - 1] == after[i]);
        } else {
            assert(before[i - 1] != before[j - 1]);
        }
    }
}

/// Lets the snake grow onto the fruit it has reached and draws the next
/// fruit. The old head stays where it was as a new segment, `new_head`
/// becomes the head, and no cell is given up. The next fruit is one of the
/// cells that the grown snake leaves free; `None` says that there is none.
pub fn eat_fruit(snake: &mut Vec<Pixel>, new_head: Pixel) -> (fruit: Option<Pixel>)
    requires
        old(snake).len() >= 1,
    ensures
        final(snake)@ == seq![new_head] + old(snake)@,
        fruit is None <==> free_cells(final(snake)@).len() == 0,
        fruit is Some ==> free_cells(final(snake)@).contains(fruit->Some_0),
{
    let new_tail = snake[0];
    snake.insert(1, new_tail);
    snake[0] = new_head;
    assert(snake@ =~= seq![new_head] + old(snake)@);
    spawn_fruit(snake)
}

/// Advances the game by one tick.
///
/// The head moves by `direction`. When it reaches the fruit the snake grows
/// by one segment and a new fruit is drawn among the free cells; otherwise
/// every segment takes the place of the one before it. The tick reports a
/// bite when, on a tick without eating, a segment ends up under the head, and
/// a hit when the head ends up outside the grid. The snake is moved in either
/// case, so that the caller can show the last position.
///
/// The snake must have a head, and the head must be able to move by
/// `direction` within `i32`.
pub fn one_step(snake: &mut Vec<Pixel>, direction: (i32, i32), fruit_pos: Pixel) -> (tick: Tick)
    requires
        old(snake).len() >= 1,
        can_move(old(snake)@[0], direction),
    ensures
        is_step(old(snake)@, direction, fruit_pos, final(snake)@, tick),
        final(snake)@[0] == moved(old(snake)@[0], direction),
        final(snake).len() == old(snake).len() + if eats(old(snake)@, direction, fruit_pos) {
            1int
        } else {
            0int
        },
        final(snake)@.contains(tick.fruit) <==> tick.grid_full || (!eats(
            old(snake)@,
            direction,
            fruit_pos,
        ) && old(snake)@.drop_last().contains(fruit_pos)),
        direction == (0i32, 0i32) && old(snake).len() > 1 && old(snake)@[0] != fruit_pos
            ==> tick.ate_itself,
{
    let new_head = Pixel {
        position_x: snake[0].position_x + direction.0,
        position_y: snake[0].position_y + direction.1,
    };
    let mut tick = Tick { fruit: fruit_pos, ate_itself: false, hit_wall: false, grid_full: false };
    if fruit_pos == new_head {
        match eat_fruit(snake, new_head) {
            Some(fruit) => {
                tick.fruit = fruit;
            },
            None => {
                tick.grid_full = true;
            },
        }
    } else {
        let mut no: usize = snake.len() - 1;
        while no > 0
            invariant
                snake.len() == old(snake).len(),
                no < snake.len(),
                forall|j: int| 0 <= j <= no ==> snake@[j] == old(snake)@[j],
                forall|j: int| no < j < snake.len() ==> snake@[j] == old(snake)@[j - 1],
                tick.ate_itself <==> exists|k: int|
                    no <= k < snake.len() - 1 && #[trigger] old(snake)@[k] == new_head,
                tick.fruit == fruit_pos,
                !tick.hit_wall,
                !tick.grid_full,
            decreases no,
        {
            let before = snake[no - 1];
            snake[no] = before;
            if before == new_head {
                tick.ate_itself = true;
            }
            no -= 1;
        }
        snake[0] = new_head;
        assert(snake@ =~= seq![new_head] + old(snake)@.drop_last());
        proof {
            let body = old(snake)@.drop_last();
            assert(snake@.skip(1) =~= body);
            if tick.ate_itself {
                let k = choose|k: int|
                    0 <= k < snake.len() - 1 && #[trigger] old(snake)@[k] == new_head;
                assert(body[k] == new_head);
            }
            if body.contains(new_head) {
                let k = choose|k: int| 0 <= k < body.len() && body[k] == new_head;
                assert(old(snake)@[k] == new_head);
            }
        }
    }
    proof {
        free_cells_are_the_free_ones(snake@, tick.fruit);
        let body = old(snake)@.drop_last();
        if !eats(old(snake)@, direction, fruit_pos) {
            assert(snake@.skip(1) =~= body);
            if snake@.contains(fruit_pos) {
                let i = choose|i: int| 0 <= i < snake.len() && snake@[i] == fruit_pos;
                assert(body[i - 1] == fruit_pos);
            }
            if body.contains(fruit_pos) {
                let k = choose|k: int| 0 <= k < body.len() && body[k] == fruit_pos;
                assert(snake@[k + 1] == fruit_pos);
            }
            if direction == (0i32, 0i32) && old(snake).len() > 1 {
                assert(body[0] == new_head);
            }
        } else if tick.grid_full {
            assert(snake@[0] == tick.fruit);
        }
    }
    if new_head.position_x >= WINDOW_WIDTH_PIXEL || new_head.position_y >= WINDOW_HEIGHT_PIXEL
        || new_head.position_x < 0 || new_head.position_y < 0 {
        tick.hit_wall = true;
    }
    tick
}

} // verus!
