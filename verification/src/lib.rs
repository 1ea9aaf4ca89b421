//! A snake game on a fixed grid: the rules of one tick, the placing of the
//! fruit, the fixed-step clock and the painting of a frame, each with a
//! contract that Verus proves.

pub mod clock;
pub mod fruit;
pub mod game;
pub mod grid;
pub mod render;
pub mod step;

pub use clock::timer;
pub use game::Game;
pub use grid::Pixel;
pub use render::draw;
pub use step::{one_step, Tick};
