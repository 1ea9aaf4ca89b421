use snake_game::clock::STEP_TIME;
use snake_game::game::{key_heading, Game, Input, Key, Poll, Response};
use snake_game::render::{BACKGROUND_COLOR, FRAME_BYTES, FRUIT_COLOR, SNAKE_COLOR};
use snake_game::Pixel;

fn cell(x: i32, y: i32) -> Pixel {
    Pixel { position_x: x, position_y: y }
}

#[test]
fn keys_give_unit_directions() {
    assert_eq!(key_heading(Key::Up), (0, -1));
    assert_eq!(key_heading(Key::Left), (-1, 0));
    assert_eq!(key_heading(Key::Down), (0, 1));
    assert_eq!(key_heading(Key::Right), (1, 0));
}

#[test]
fn new_game_starts_with_head_and_fruit_apart() {
    let mut heads = Vec::new();
    for _ in 0..200 {
        let game = Game::new(42);
        assert_eq!(game.snake().len(), 1);
        let head = game.snake()[0];
        assert!(head.on_grid());
        assert!(game.fruit().on_grid());
        assert_ne!(game.fruit(), head);
        assert_eq!(game.direction(), (0, 0));
        assert_eq!(game.last_tick(), 42);
        assert!(!game.is_over());
        if !heads.contains(&head) {
            heads.push(head);
        }
    }
    assert!(heads.len() > 1);
}

#[test]
fn from_parts_takes_a_live_game() {
    let game = Game::from_parts(vec![cell(5, 5), cell(4, 5)], cell(9, 9), (1, 0), 7).unwrap();
    assert_eq!(game.snake(), &vec![cell(5, 5), cell(4, 5)]);
    assert_eq!(game.fruit(), cell(9, 9));
    assert_eq!(game.direction(), (1, 0));
    assert_eq!(game.last_tick(), 7);
    assert!(!game.is_over());
    assert!(Game::from_parts(vec![cell(5, 5)], cell(9, 9), (0, 0), 0).is_some());
    assert!(Game::from_parts(vec![cell(5, 5)], cell(9, 9), (0, -1), 0).is_some());
    assert!(Game::from_parts(vec![cell(5, 5)], cell(9, 9), (0, 1), 0).is_some());
    assert!(Game::from_parts(vec![cell(5, 5)], cell(9, 9), (-1, 0), 0).is_some());
}

#[test]
fn from_parts_refuses_what_is_no_live_game() {
    assert!(Game::from_parts(Vec::new(), cell(9, 9), (1, 0), 0).is_none());
    assert!(Game::from_parts(vec![cell(5, 5), cell(5, 5)], cell(9, 9), (1, 0), 0).is_none());
    assert!(Game::from_parts(vec![cell(5, 5), cell(20, 5)], cell(9, 9), (1, 0), 0).is_none());
    assert!(Game::from_parts(vec![cell(5, 5)], cell(5, 5), (1, 0), 0).is_none());
    assert!(Game::from_parts(vec![cell(5, 5)], cell(9, 10), (1, 0), 0).is_none());
    assert!(Game::from_parts(vec![cell(5, 5)], cell(9, 9), (1, 1), 0).is_none());
    assert!(Game::from_parts(vec![cell(5, 5)], cell(9, 9), (2, 0), 0).is_none());
    assert!(Game::from_parts(vec![cell(5, 5)], cell(9, 9), (0, -2), 0).is_none());
}

#[test]
fn movement_key_sets_direction_last_one_wins() {
    let mut game = Game::from_parts(vec![cell(5, 5)], cell(9, 9), (0, 0), 0).unwrap();
    assert_eq!(game.on_input(Input::Turn(Key::Up)), Response::Nothing);
    assert_eq!(game.direction(), (0, -1));
    assert_eq!(game.on_input(Input::Turn(Key::Left)), Response::Nothing);
    assert_eq!(game.on_input(Input::Turn(Key::Right)), Response::Nothing);
    assert_eq!(game.direction(), (1, 0));
    assert_eq!(game.on_input(Input::Turn(Key::Down)), Response::Nothing);
    assert_eq!(game.direction(), (0, 1));
    assert_eq!(game.snake(), &vec![cell(5, 5)]);
    assert_eq!(game.fruit(), cell(9, 9));
    assert!(!game.is_over());
}

#[test]
fn redraw_and_other_inputs_leave_game_alone() {
    let mut game = Game::from_parts(vec![cell(5, 5)], cell(9, 9), (1, 0), 3).unwrap();
    assert_eq!(game.on_input(Input::Redraw), Response::Paint);
    assert_eq!(game.on_input(Input::Other), Response::Nothing);
    assert_eq!(game.snake(), &vec![cell(5, 5)]);
    assert_eq!(game.direction(), (1, 0));
    assert_eq!(game.last_tick(), 3);
    assert!(!game.is_over());
}

#[test]
fn quit_ends_the_game_at_once() {
    let mut game = Game::from_parts(vec![cell(5, 5)], cell(9, 9), (1, 0), 0).unwrap();
    assert_eq!(game.on_input(Input::Quit), Response::Leave);
    assert!(game.is_over());
    assert_eq!(game.poll(10 * STEP_TIME), Poll::Over);
    assert_eq!(game.snake(), &vec![cell(5, 5)]);
    assert_eq!(game.last_tick(), 0);
}

#[test]
fn poll_waits_until_step_has_passed() {
    let mut game = Game::from_parts(vec![cell(5, 5)], cell(9, 9), (1, 0), 1_000).unwrap();
    assert_eq!(game.poll(1_000), Poll::Wait(80_001_000));
    assert_eq!(game.poll(80_000_999), Poll::Wait(80_001_000));
    assert_eq!(game.snake(), &vec![cell(5, 5)]);
    assert_eq!(game.last_tick(), 1_000);
}

#[test]
fn poll_makes_one_tick_however_long_the_wait() {
    let mut game = Game::from_parts(vec![cell(5, 5)], cell(9, 9), (1, 0), 0).unwrap();
    let poll = game.poll(5 * STEP_TIME);
    match poll {
        Poll::Ticked(tick) => {
            assert!(!tick.is_over());
            assert_eq!(tick.fruit, cell(9, 9));
        }
        _ => panic!("a tick was due"),
    }
    assert_eq!(game.snake(), &vec![cell(6, 5)]);
    assert_eq!(game.last_tick(), 5 * STEP_TIME);
    assert_eq!(game.poll(5 * STEP_TIME + 1), Poll::Wait(6 * STEP_TIME));
    assert_eq!(game.snake(), &vec![cell(6, 5)]);
}

#[test]
fn game_eats_and_grows() {
    let mut game = Game::from_parts(vec![cell(5, 5)], cell(6, 5), (1, 0), 0).unwrap();
    let poll = game.poll(STEP_TIME);
    let tick = match poll {
        Poll::Ticked(tick) => tick,
        _ => panic!("a tick was due"),
    };
    assert_eq!(game.snake(), &vec![cell(6, 5), cell(5, 5)]);
    assert_eq!(game.fruit(), tick.fruit);
    assert_ne!(game.fruit(), cell(6, 5));
    assert_ne!(game.fruit(), cell(5, 5));
    assert!(game.fruit().on_grid());
    assert!(!game.is_over());
}

#[test]
fn game_ends_at_the_wall() {
    let mut game = Game::from_parts(vec![cell(0, 5), cell(1, 5)], cell(9, 9), (-1, 0), 0).unwrap();
    let poll = game.poll(STEP_TIME);
    match poll {
        Poll::Ticked(tick) => {
            assert!(tick.hit_wall);
            assert!(!tick.ate_itself);
        }
        _ => panic!("a tick was due"),
    }
    assert!(game.is_over());
    assert_eq!(game.snake(), &vec![cell(-1, 5), cell(0, 5)]);
    assert_eq!(game.poll(2 * STEP_TIME), Poll::Over);
    assert_eq!(game.snake(), &vec![cell(-1, 5), cell(0, 5)]);
}

#[test]
fn game_ends_when_snake_turns_back_on_itself() {
    let snake = vec![cell(5, 5), cell(4, 5), cell(3, 5)];
    let mut game = Game::from_parts(snake, cell(9, 9), (-1, 0), 0).unwrap();
    let poll = game.poll(STEP_TIME);
    match poll {
        Poll::Ticked(tick) => {
            assert!(tick.ate_itself);
            assert!(!tick.hit_wall);
        }
        _ => panic!("a tick was due"),
    }
    assert!(game.is_over());
}

#[test]
fn new_game_idles_until_a_key_is_pressed() {
    let mut game = Game::new(0);
    let head = game.snake()[0];
    let fruit = game.fruit();
    let poll = game.poll(STEP_TIME);
    match poll {
        Poll::Ticked(tick) => assert!(!tick.is_over()),
        _ => panic!("a tick was due"),
    }
    assert_eq!(game.snake(), &vec![head]);
    assert_eq!(game.fruit(), fruit);
    assert!(!game.is_over());
}

#[test]
fn paint_shows_snake_and_fruit() {
    let game = Game::from_parts(vec![cell(1, 0), cell(0, 0)], cell(19, 9), (1, 0), 0).unwrap();
    let mut frame = vec![0u8; FRAME_BYTES];
    game.paint(&mut frame);
    assert_eq!(&frame[0..4], &SNAKE_COLOR[..]);
    assert_eq!(&frame[4 * 99..4 * 100], &SNAKE_COLOR[..]);
    assert_eq!(&frame[4 * 100..4 * 101], &BACKGROUND_COLOR[..]);
    assert_eq!(&frame[FRAME_BYTES - 4..], &FRUIT_COLOR[..]);
}
