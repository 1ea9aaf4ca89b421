//! The picture of the game: a frame of RGBA bytes, row by row, in which each
//! cell of the grid is a square block of pixels.

use crate::grid::Pixel;
use image::{ImageBuffer, Rgba};
use imageproc::drawing::draw_filled_rect_mut;
use imageproc::rect::Rect;
use vstd::prelude::*;

verus! {

/// Side of a cell's block, in pixels.
pub const PIXEL_SIZE: u32 = 50;

/// Width of the picture, in pixels.
pub const WINDOW_WIDTH: u32 = 1000;

/// Height of the picture, in pixels.
pub const WINDOW_HEIGHT: u32 = 500;

/// Number of bytes of one picture: four for each pixel.
pub const FRAME_BYTES: usize = 2_000_000;

/// The colour of the snake: green.
pub const SNAKE_COLOR: [u8; 4] = [0x00, 0xff, 0x00, 0xff];

/// The colour of the fruit: red.
pub const FRUIT_COLOR: [u8; 4] = [0xff, 60, 60, 0xff];

/// The colour of the empty field: dark gray.
pub const BACKGROUND_COLOR: [u8; 4] = [0x20, 0x20, 0x20, 0xff];

/// The byte at `index` of a picture `width` pixels wide and `height` high
/// belongs to a pixel of the rectangle whose top left corner is at
/// (`left`, `top`) and which is `across` pixels wide and `down` high.
pub open spec fn in_rect(
    index: int,
    width: int,
    height: int,
    left: int,
    top: int,
    across: int,
    down: int,
) -> bool {
    let column = (index / 4) % width;
    let row = (index / 4) / width;
    &&& 0 <= index
    &&& row < height
    &&& left <= column < left + across
    &&& top <= row < top + down
}

/// The frame with every pixel of the rectangle set to `color`, as far as the
/// rectangle lies inside the picture, and every other byte as it was.
pub open spec fn filled(
    frame: Seq<u8>,
    width: int,
    height: int,
    left: int,
    top: int,
    across: int,
    down: int,
    color: Seq<u8>,
) -> Seq<u8> {
    Seq::new(
        frame.len(),
        |index: int|
            if in_rect(index, width, height, left, top, across, down) {
                color[index % 4]
            } else {
                frame[index]
            },
    )
}

/// Fills a rectangle of the picture held in `frame` with one colour. The
/// frame is handed to `image::ImageBuffer::from_raw` as an RGBA picture of
/// `width` by `height` pixels, and the rectangle is drawn on it by
/// `imageproc::drawing::draw_filled_rect_mut`.
///
/// Assumed of the two calls: the picture lies in the first
/// `4 * width * height` bytes of the frame, row by row, four bytes to a
/// pixel; each pixel that lies both in the rectangle and in the picture gets
/// the four bytes of `color`; no other byte changes.
///
/// Left out, because one of the calls would panic: a frame too short for the
/// picture, a picture or rectangle without width or height, and sizes and
/// corners whose sum leaves the range of `i32`.
#[verifier::external_body]
fn fill_rect(
    frame: &mut [u8],
    width: u32,
    height: u32,
    left: i32,
    top: i32,
    across: u32,
    down: u32,
    color: [u8; 4],
)
    requires
        0 < width <= i32::MAX,
        0 < height <= i32::MAX,
        0 < across <= i32::MAX,
        0 < down <= i32::MAX,
        left + across <= i32::MAX,
        top + down <= i32::MAX,
        4 * width * height <= old(frame)@.len(),
    ensures
        final(frame)@ == filled(
            old(frame)@,
            width as int,
            height as int,
            left as int,
            top as int,
            across as int,
            down as int,
            color@,
        ),
{
    let mut image = ImageBuffer::<Rgba<u8>, &mut [u8]>::from_raw(width, height, frame).unwrap();
    draw_filled_rect_mut(&mut image, Rect::at(left, top).of_size(across, down), Rgba(color));
}

/// The cell whose block the byte at `index` of a picture belongs to.
pub open spec fn cell_of_byte(index: int) -> Pixel {
    Pixel {
        position_x: (((index / 4) % (WINDOW_WIDTH as int)) / (PIXEL_SIZE as int)) as i32,
        position_y: (((index / 4) / (WINDOW_WIDTH as int)) / (PIXEL_SIZE as int)) as i32,
    }
}

/// The block of the cell can be placed: its pixel coordinates stay within
/// `i32`.
pub open spec fn paintable(cell: Pixel) -> bool {
    &&& i32::MIN <= cell.position_x * PIXEL_SIZE
    &&& cell.position_x * PIXEL_SIZE + PIXEL_SIZE <= i32::MAX
    &&& i32::MIN <= cell.position_y * PIXEL_SIZE
    &&& cell.position_y * PIXEL_SIZE + PIXEL_SIZE <= i32::MAX
}

/// The frame after the field, the first `count` segments of the snake and,
/// if `with_fruit`, the fruit have been painted. Within the picture a byte
/// has the fruit's colour where its cell is the fruit's, else the snake's
/// colour where a painted segment lies on its cell, else the background's.
/// Behind the picture every whole group of four bytes has the background's
/// colour, and what is left of the frame after the last whole group is as it
/// was.
pub open spec fn painted(
    frame: Seq<u8>,
    snake: Seq<Pixel>,
    count: int,
    fruit: Pixel,
    with_fruit: bool,
) -> Seq<u8> {
    Seq::new(
        frame.len(),
        |index: int|
            if index < FRAME_BYTES {
                if with_fruit && cell_of_byte(index) == fruit {
                    FRUIT_COLOR@[index % 4]
                } else if snake.take(count).contains(cell_of_byte(index)) {
                    SNAKE_COLOR@[index % 4]
                } else {
                    BACKGROUND_COLOR@[index % 4]
                }
            } else if index < (frame.len() / 4) * 4 {
                BACKGROUND_COLOR@[index % 4]
            } else {
                frame[index]
            },
    )
}

/// The picture of the game in a frame that held `frame` before: the field,
/// on it the whole snake, and on top the fruit.
pub open spec fn picture(frame: Seq<u8>, snake: Seq<Pixel>, fruit: Pixel) -> Seq<u8> {
    painted(frame, snake, snake.len() as int, fruit, true)
}

/// A byte of the picture lies in the block of a cell exactly when the cell
/// is the byte's own.
proof fn block_is_cell(index: int, cell: Pixel)
    requires
        0 <= index < FRAME_BYTES,
        paintable(cell),
    ensures
        in_rect(
            index,
            WINDOW_WIDTH as int,
            WINDOW_HEIGHT as int,
            cell.position_x * PIXEL_SIZE,
            cell.position_y * PIXEL_SIZE,
            PIXEL_SIZE as int,
            PIXEL_SIZE as int,
        ) <==> cell_of_byte(index) == cell,
{
}

/// Paints the game into `frame`: first the field in the background's colour,
/// then a block for each segment of the snake, then the block of the fruit on
/// top. A block that lies outside the picture, or partly so, is painted as
/// far as it lies inside.
///
/// The frame must hold at least the bytes of one picture, and the blocks of
/// the snake and of the fruit must be placeable.
pub fn draw(frame: &mut [u8], fruit: Pixel, snake: &Vec<Pixel>)
    requires
        old(frame)@.len() >= FRAME_BYTES,
        paintable(fruit),
        forall|i: int| 0 <= i < snake@.len() ==> paintable(#[trigger] snake@[i]),
    ensures
        final(frame)@ == picture(old(frame)@, snake@, fruit),
{
    let whole: usize = frame.len() / 4 * 4;
    let mut index: usize = 0;
    while index < whole
        invariant
            index <= whole,
            whole == frame@.len() / 4 * 4,
            frame@.len() == old(frame)@.len(),
            forall|j: int| 0 <= j < index ==> frame@[j] == BACKGROUND_COLOR@[j % 4],
            forall|j: int| index <= j < frame@.len() ==> frame@[j] == old(frame)@[j],
        decreases whole - index,
    {
        frame[index] = BACKGROUND_COLOR[index % 4];
        index += 1;
    }
    assert(frame@ =~= painted(old(frame)@, snake@, 0, fruit, false));
    let mut no: usize = 0;
    while no < snake.len()
        invariant
            no <= snake.len(),
            frame@.len() == old(frame)@.len(),
            frame@.len() >= FRAME_BYTES,
            forall|i: int| 0 <= i < snake@.len() ==> paintable(#[trigger] snake@[i]),
            frame@ == painted(old(frame)@, snake@, no as int, fruit, false),
        decreases snake.len() - no,
    {
        let elem = snake[no];
        let ghost before = frame@;
        fill_rect(
            frame,
            WINDOW_WIDTH,
            WINDOW_HEIGHT,
            elem.position_x * (PIXEL_SIZE as i32),
            elem.position_y * (PIXEL_SIZE as i32),
            PIXEL_SIZE,
            PIXEL_SIZE,
            SNAKE_COLOR,
        );
        proof {
            let sooner = snake@.take(no as int);
            let later = snake@.take(no + 1);
            assert(later =~= sooner.push(elem));
            assert forall|j: int| 0 <= j < frame@.len() implies frame@[j] == painted(
                old(frame)@,
                snake@,
                no + 1,
                fruit,
                false,
            )[j] by {
                if j < FRAME_BYTES {
                    block_is_cell(j, elem);
                    let cell = cell_of_byte(j);
                    if sooner.contains(cell) {
                        let k = choose|k: int| 0 <= k < sooner.len() && sooner[k] == cell;
                        assert(later[k] == cell);
                    }
                    if later.contains(cell) && cell != elem {
                        let k = choose|k: int| 0 <= k < later.len() && later[k] == cell;
                        assert(sooner[k] == cell);
                    }
                    assert(later[no as int] == elem);
                }
            }
            assert(frame@ =~= painted(old(frame)@, snake@, no + 1, fruit, false));
        }
        no += 1;
    }
    fill_rect(
        frame,
        WINDOW_WIDTH,
        WINDOW_HEIGHT,
        fruit.position_x * (PIXEL_SIZE as i32),
        fruit.position_y * (PIXEL_SIZE as i32),
        PIXEL_SIZE,
        PIXEL_SIZE,
        FRUIT_COLOR,
    );
    proof {
        assert forall|j: int| 0 <= j < frame@.len() implies frame@[j] == picture(
            old(frame)@,
            snake@,
            fruit,
        )[j] by {
            if j < FRAME_BYTES {
                block_is_cell(j, fruit);
            }
        }
        assert(frame@ =~= picture(old(frame)@, snake@, fruit));
    }
}

} // verus!
