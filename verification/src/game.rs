//! The game as a whole: the snake, the fruit, the direction in which the
//! snake is heading and the time of the last tick. The caller hands in what
//! happened (a key, a request to redraw or to quit, the time) and is told
//! what to do next; the game itself does no input or output.

use crate::clock::{due, timer, wake_at, wake_time};
use crate::fruit::{random_below, spawn_fruit};
use crate::grid::{
    free_cells_are_the_free_ones, in_grid, occupies, Pixel, WINDOW_HEIGHT_PIXEL,
    WINDOW_WIDTH_PIXEL,
};
use crate::render::{draw, picture, FRAME_BYTES};
use crate::step::{ends_game, is_step, live, live_game_stays_live, one_step, Tick};
use vstd::prelude::*;

verus! {

/// A movement key.
#[derive(PartialEq, Eq, Structural, Clone, Copy, Debug)]
pub enum Key {
    Up,
    Left,
    Down,
    Right,
}

/// What the outside world reports to the game.
#[derive(PartialEq, Eq, Structural, Clone, Copy, Debug)]
pub enum Input {
    /// The window wants to be drawn again.
    Redraw,
    /// The player closed the window or pressed the escape key.
    Quit,
    /// The player pressed a movement key.
    Turn(Key),
    /// Anything else.
    Other,
}

/// What the caller is to do after an input.
#[derive(PartialEq, Eq, Structural, Clone, Copy, Debug)]
pub enum Response {
    /// Paint the game and show the picture.
    Paint,
    /// Leave the program.
    Leave,
    /// Nothing.
    Nothing,
}

/// What a poll of the clock led to.
#[derive(PartialEq, Eq, Structural, Clone, Copy, Debug)]
pub enum Poll {
    /// A tick was due and has been made. The caller asks for a redraw, and
    /// stops when the tick ended the game.
    Ticked(Tick),
    /// No tick is due before the given time; the caller may sleep until then.
    Wait(u64),
    /// The game is over; nothing was done.
    Over,
}

/// The game as the contracts see it.
pub struct GameView {
    /// The snake, head first.
    pub snake: Seq<Pixel>,
    /// The fruit.
    pub fruit: Pixel,
    /// The direction in which the snake moves at the next tick.
    pub direction: (i32, i32),
    /// The time of the last tick.
    pub last_tick: u64,
    /// The game has ended.
    pub over: bool,
}

/// The game. Every game that this module hands out is playable, in the sense
/// of `GameView::playable`, and stays so under every input and tick.
pub struct Game {
    snake: Vec<Pixel>,
    fruit: Pixel,
    dir: (i32, i32),
    time: u64,
    over: bool,
}

/// The direction that a movement key stands for. Rows are counted downwards.
pub open spec fn heading(key: Key) -> (i32, i32) {
    match key {
        Key::Up => (0i32, -1i32),
        Key::Left => (-1i32, 0i32),
        Key::Down => (0i32, 1i32),
        Key::Right => (1i32, 0i32),
    }
}

/// One of the four unit directions, or no direction yet.
pub open spec fn is_heading(direction: (i32, i32)) -> bool {
    direction == (0i32, 0i32) || exists|key: Key| direction == heading(key)
}

/// The cell lies on the grid or one step outside it.
pub open spec fn near_grid(cell: Pixel) -> bool {
    -1 <= cell.position_x <= WINDOW_WIDTH_PIXEL && -1 <= cell.position_y <= WINDOW_HEIGHT_PIXEL
}

impl GameView {
    /// What holds of every game. The snake has a head, which lies at most one
    /// step outside the grid, and all that follows the head lies on the grid,
    /// as does the fruit. While the game is going on, the head lies on the
    /// grid too, the snake crosses itself nowhere and the fruit lies on a free
    /// cell.
    pub open spec fn playable(self) -> bool {
        &&& is_heading(self.direction)
        &&& self.snake.len() >= 1
        &&& near_grid(self.snake[0])
        &&& forall|i: int| 1 <= i < self.snake.len() ==> in_grid(#[trigger] self.snake[i])
        &&& in_grid(self.fruit)
        &&& !self.over ==> live(self.snake, self.fruit)
    }
}

impl View for Game {
    type V = GameView;

    closed spec fn view(&self) -> GameView {
        GameView {
            snake: self.snake@,
            fruit: self.fruit,
            direction: self.dir,
            last_tick: self.time,
            over: self.over,
        }
    }
}

/// The direction that a movement key stands for.
pub fn key_heading(key: Key) -> (direction: (i32, i32))
    ensures
        direction == heading(key),
{
    match key {
        Key::Up => (0, -1),
        Key::Left => (-1, 0),
        Key::Down => (0, 1),
        Key::Right => (1, 0),
    }
}

/// Whether no cell occurs twice in the snake.
fn crosses_nowhere(snake: &Vec<Pixel>) -> (clean: bool)
    ensures
        clean == snake@.no_duplicates(),
{
    let mut i: usize = 0;
    while i < snake.len()
        invariant
            i <= snake.len(),
            forall|a: int, b: int| 0 <= a < b < i ==> snake@[a] != snake@[b],
        decreases snake.len() - i,
    {
        let mut j: usize = 0;
        while j < i
            invariant
                j <= i < snake.len(),
                forall|a: int| 0 <= a < j ==> snake@[a] != snake@[i as int],
            decreases i - j,
        {
            if snake[j] == snake[i] {
                return false;
            }
            j += 1;
        }
        i += 1;
    }
    true
}

/// Whether every cell of the snake lies on the grid.
fn lies_on_grid(snake: &Vec<Pixel>) -> (inside: bool)
    ensures
        inside == forall|i: int| 0 <= i < snake@.len() ==> in_grid(#[trigger] snake@[i]),
{
    let mut i: usize = 0;
    while i < snake.len()
        invariant
            i <= snake.len(),
            forall|k: int| 0 <= k < i ==> in_grid(#[trigger] snake@[k]),
        decreases snake.len() - i,
    {
        if !snake[i].on_grid() {
            return false;
        }
        i += 1;
    }
    true
}

impl Game {
    /// A new game at time `now`: a snake of one segment on a cell drawn at
    /// random, a fruit on another cell drawn at random, and no direction yet.
    pub fn new(now: u64) -> (game: Game)
        ensures
            game@.playable(),
            game@.snake.len() == 1,
            game@.direction == (0i32, 0i32),
            game@.last_tick == now,
            !game@.over,
    {
        let x = random_below(WINDOW_WIDTH_PIXEL as usize);
        let y = random_below(WINDOW_HEIGHT_PIXEL as usize);
        let head = Pixel { position_x: x as i32, position_y: y as i32 };
        let mut snake: Vec<Pixel> = Vec::new();
        snake.push(head);
        proof {
            let corner = Pixel { position_x: 0, position_y: 0 };
            let beside = Pixel { position_x: 1, position_y: 0 };
            free_cells_are_the_free_ones(snake@, corner);
            free_cells_are_the_free_ones(snake@, beside);
            assert(snake@.contains(corner) ==> corner == snake@[0]);
            assert(snake@.contains(beside) ==> beside == snake@[0]);
        }
        let fruit = match spawn_fruit(&snake) {
            Some(fruit) => fruit,
            None => vstd::pervasive::unreached(),
        };
        proof {
            free_cells_are_the_free_ones(snake@, fruit);
        }
        Game { snake, fruit, dir: (0, 0), time: now, over: false }
    }

    /// A game in a given state, going on, with its last tick at `now`. There
    /// is one exactly when the state is that of a game that is going on and
    /// the direction is one that a key can give, or none.
    pub fn from_parts(snake: Vec<Pixel>, fruit: Pixel, direction: (i32, i32), now: u64) -> (made:
        Option<Game>)
        ensures
            made is Some <==> live(snake@, fruit) && is_heading(direction),
            made is Some ==> made->Some_0@ == (GameView {
                snake: snake@,
                fruit,
                direction,
                last_tick: now,
                over: false,
            }),
            made is Some ==> made->Some_0@.playable(),
    {
        let known = direction.0 == 0 && (direction.1 == 0 || direction.1 == 1 || direction.1 == -1)
            || direction.1 == 0 && (direction.0 == 1 || direction.0 == -1);
        proof {
            assert(heading(Key::Up) == (0i32, -1i32));
            assert(heading(Key::Left) == (-1i32, 0i32));
            assert(heading(Key::Down) == (0i32, 1i32));
            assert(heading(Key::Right) == (1i32, 0i32));
            assert(known == is_heading(direction));
        }
        if known && snake.len() >= 1 && lies_on_grid(&snake) && crosses_nowhere(&snake)
            && fruit.on_grid() && !occupies(&snake, fruit) {
            Some(Game { snake, fruit, dir: direction, time: now, over: false })
        } else {
            None
        }
    }

    /// The snake, head first.
    pub fn snake(&self) -> (snake: &Vec<Pixel>)
        ensures
            snake@ == self@.snake,
    {
        &self.snake
    }

    /// The fruit.
    pub fn fruit(&self) -> (fruit: Pixel)
        ensures
            fruit == self@.fruit,
    {
        self.fruit
    }

    /// The direction in which the snake moves at the next tick.
    pub fn direction(&self) -> (direction: (i32, i32))
        ensures
            direction == self@.direction,
    {
        self.dir
    }

    /// The time of the last tick.
    pub fn last_tick(&self) -> (time: u64)
        ensures
            time == self@.last_tick,
    {
        self.time
    }

    /// Whether the game has ended.
    pub fn is_over(&self) -> (over: bool)
        ensures
            over == self@.over,
    {
        self.over
    }

    /// Takes an input and says what the caller is to do. A movement key sets
    /// the direction for the ticks to come, the last key winning. A request
    /// to quit ends the game. Nothing else changes the game.
    pub fn on_input(&mut self, input: Input) -> (response: Response)
        requires
            old(self)@.playable(),
        ensures
            final(self)@.playable(),
            response == match input {
                Input::Redraw => Response::Paint,
                Input::Quit => Response::Leave,
                Input::Turn(_) => Response::Nothing,
                Input::Other => Response::Nothing,
            },
            final(self)@ == match input {
                Input::Quit => (GameView { over: true, ..old(self)@ }),
                Input::Turn(key) => (GameView { direction: heading(key), ..old(self)@ }),
                _ => old(self)@,
            },
    {
        match input {
            Input::Redraw => Response::Paint,
            Input::Quit => {
                self.over = true;
                Response::Leave
            },
            Input::Turn(key) => {
                self.dir = key_heading(key);
                Response::Nothing
            },
            Input::Other => Response::Nothing,
        }
    }

    /// Asks the clock at time `now`. When the game is over nothing happens.
    /// When less than the step time has passed since the last tick, nothing
    /// happens either, and the answer is the time at which a tick will be
    /// due. Otherwise the game advances by one tick, however long the wait
    /// was, `now` becomes the time of the last tick, and the game is over if
    /// the tick ended it.
    pub fn poll(&mut self, now: u64) -> (poll: Poll)
        requires
            old(self)@.playable(),
        ensures
            final(self)@.playable(),
            poll is Over <==> old(self)@.over,
            poll is Ticked <==> !old(self)@.over && due(old(self)@.last_tick, now),
            poll is Over || poll is Wait ==> final(self)@ == old(self)@,
            poll is Wait ==> poll->Wait_0 == wake_at(old(self)@.last_tick),
            poll is Ticked ==> {
                let tick = poll->Ticked_0;
                &&& is_step(
                    old(self)@.snake,
                    old(self)@.direction,
                    old(self)@.fruit,
                    final(self)@.snake,
                    tick,
                )
                &&& final(self)@.fruit == tick.fruit
                &&& final(self)@.direction == old(self)@.direction
                &&& final(self)@.last_tick == now
                &&& final(self)@.over == ends_game(tick)
            },
    {
        if self.over {
            return Poll::Over;
        }
        let (stamp, ticking) = timer(self.time, now);
        if !ticking {
            return Poll::Wait(wake_time(self.time));
        }
        let tick = one_step(&mut self.snake, self.dir, self.fruit);
        proof {
            if !ends_game(tick) {
                live_game_stays_live(
                    old(self)@.snake,
                    self.dir,
                    old(self)@.fruit,
                    self.snake@,
                    tick,
                );
            }
            free_cells_are_the_free_ones(self.snake@, tick.fruit);
            assert(forall|i: int|
                1 <= i < self.snake@.len() ==> self.snake@[i] == old(self)@.snake[i - 1]);
        }
        self.fruit = tick.fruit;
        self.time = stamp;
        self.over = tick.is_over();
        Poll::Ticked(tick)
    }

    /// Paints the game into `frame`, which must hold at least the bytes of
    /// one picture.
    pub fn paint(&self, frame: &mut [u8])
        requires
            self@.playable(),
            old(frame)@.len() >= FRAME_BYTES,
        ensures
            final(frame)@ == picture(old(frame)@, self@.snake, self@.fruit),
    {
        draw(frame, self.fruit, &self.snake);
    }
}

} // verus!
