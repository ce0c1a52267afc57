use pc_keyboard::{DecodedKey, KeyCode};
use snake_engine::container::point_storage;
use snake_engine::engine::SnakeGame;
use snake_engine::geometry::{Direction, Point};
use snake_engine::input::key_direction;
use snake_engine::program::program_handler;
use snake_engine::timing::quantum_elapsed;

const SEED: u64 = 23625234;

#[test]
fn opposite_is_an_involution() {
    for d in [
        Direction::Up,
        Direction::Down,
        Direction::Left,
        Direction::Right,
    ] {
        assert_eq!(d.get_opposite().get_opposite(), d);
        assert_ne!(d.get_opposite(), d);
    }
    assert_eq!(Direction::Up.get_opposite(), Direction::Down);
    assert_eq!(Direction::Left.get_opposite(), Direction::Right);
}

#[test]
fn movement_keys_map_and_others_are_ignored() {
    assert_eq!(key_direction('w'), Some(Direction::Up));
    assert_eq!(key_direction('a'), Some(Direction::Left));
    assert_eq!(key_direction('s'), Some(Direction::Down));
    assert_eq!(key_direction('d'), Some(Direction::Right));
    assert_eq!(key_direction('x'), None);
    assert_eq!(key_direction('W'), None);
    assert_eq!(key_direction(' '), None);
}

#[test]
fn decoded_keys_drive_the_game() {
    let mut bs = point_storage(225);
    let mut fs = point_storage(125);
    let mut game = SnakeGame::new(&mut bs, &mut fs, SEED);
    let key = DecodedKey::Unicode('s');
    assert_eq!(game.tick_decoded(&key), Ok(true));
    assert_eq!(game.direction(), Direction::Down);
    let head = game.head();
    assert_eq!((head.x, head.y), (4, 6));
    // A non-printable key carries no character and changes nothing.
    let raw = DecodedKey::RawKey(KeyCode::ArrowUp);
    assert_eq!(game.tick_decoded(&raw), Ok(true));
    assert_eq!(game.direction(), Direction::Down);
}

#[test]
fn queue_depth_cap_drops_the_oldest_request() {
    let mut bs = point_storage(225);
    let mut fs = point_storage(125);
    let mut game = SnakeGame::new(&mut bs, &mut fs, SEED);
    game.request_direction(Direction::Up);
    game.request_direction(Direction::Down);
    game.request_direction(Direction::Left);
    // Up was the oldest of three requests and fell off the two-deep queue.
    assert_eq!(game.tick(None), Ok(true));
    assert_eq!(game.direction(), Direction::Down);
    assert_eq!(game.tick(None), Ok(true));
    assert_eq!(game.direction(), Direction::Left);
}

#[test]
fn rendered_frame_marks_every_cell() {
    let mut bs = point_storage(225);
    let mut fs = point_storage(125);
    let game = SnakeGame::new(&mut bs, &mut fs, SEED);
    let grid = game.render();
    let rows: Vec<String> = grid.iter().map(|row| row.iter().collect()).collect();
    assert_eq!(rows.len(), 10);
    for (i, row) in rows.iter().enumerate() {
        if i == 4 {
            assert_eq!(row, "@@@&..............$.");
        } else {
            assert_eq!(row, "....................");
        }
    }
}

#[test]
fn layouts_that_break_the_invariant_are_refused() {
    let food = Point { x: 10, y: 5 };
    let ok = vec![
        Point { x: 5, y: 5 },
        Point { x: 4, y: 5 },
        Point { x: 3, y: 5 },
        Point { x: 2, y: 5 },
    ];

    let mut bs = point_storage(225);
    let mut fs = point_storage(125);
    let too_short = vec![Point { x: 5, y: 5 }, Point { x: 4, y: 5 }];
    assert!(
        SnakeGame::from_parts(&mut bs, &mut fs, &too_short, food, Direction::Right, SEED).is_none()
    );

    let mut bs = point_storage(225);
    let mut fs = point_storage(125);
    let mut repeated = ok.clone();
    repeated[3] = repeated[0];
    assert!(
        SnakeGame::from_parts(&mut bs, &mut fs, &repeated, food, Direction::Right, SEED).is_none()
    );

    let mut bs = point_storage(225);
    let mut fs = point_storage(125);
    let mut off_field = ok.clone();
    off_field[0] = Point { x: 21, y: 5 };
    assert!(
        SnakeGame::from_parts(&mut bs, &mut fs, &off_field, food, Direction::Right, SEED).is_none()
    );

    let mut bs = point_storage(225);
    let mut fs = point_storage(125);
    let mut zero_col = ok.clone();
    zero_col[2] = Point { x: 0, y: 5 };
    assert!(
        SnakeGame::from_parts(&mut bs, &mut fs, &zero_col, food, Direction::Right, SEED).is_none()
    );

    let mut bs = point_storage(225);
    let mut fs = point_storage(125);
    let on_body = Point { x: 4, y: 5 };
    assert!(
        SnakeGame::from_parts(&mut bs, &mut fs, &ok, on_body, Direction::Right, SEED).is_none()
    );

    let mut bs = point_storage(3);
    let mut fs = point_storage(125);
    assert!(SnakeGame::from_parts(&mut bs, &mut fs, &ok, food, Direction::Right, SEED).is_none());

    let mut bs = point_storage(225);
    let mut fs = point_storage(125);
    let game = SnakeGame::from_parts(&mut bs, &mut fs, &ok, food, Direction::Up, SEED).unwrap();
    assert!(game.is_alive());
    assert_eq!(game.direction(), Direction::Up);
    assert_eq!(game.body_len(), 4);
    let f = game.current_food();
    assert_eq!((f.x, f.y), (10, 5));
    assert_eq!(game.food_remaining(), 125);
}

#[test]
fn quantum_gate_opens_at_the_threshold() {
    assert!(!quantum_elapsed(10, 10));
    assert!(!quantum_elapsed(10, 14));
    assert!(quantum_elapsed(10, 15));
    assert!(quantum_elapsed(0, 500));
}

#[test]
fn handler_runs_an_input_free_game_to_its_end() {
    let mut bs = point_storage(225);
    let mut fs = point_storage(125);
    let mut game = SnakeGame::new(&mut bs, &mut fs, SEED);
    assert_eq!(program_handler(&mut game), Ok(()));
    assert!(!game.is_alive());
    // The head marched straight into the right wall, eating once on the way.
    assert_eq!(game.score(), 1);
    let head = game.head();
    assert_eq!((head.x, head.y), (20, 5));
}
