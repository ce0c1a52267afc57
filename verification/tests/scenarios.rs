use core::mem::MaybeUninit;
use snake_engine::container::point_storage;
use snake_engine::engine::{FatalError, SnakeGame};
use snake_engine::geometry::{Direction, Point};
use snake_engine::{GAME_HEIGHT, GAME_WIDTH, STARTING_LENGTH};

const SEED: u64 = 23625234;

fn body_points(game: &SnakeGame) -> Vec<(u8, u8)> {
    let mut out = Vec::new();
    let n = game.body_len();
    let mut i = 0;
    while i < n {
        let p = game.body_segment(i);
        out.push((p.x, p.y));
        i += 1;
    }
    out
}

fn fresh_storage() -> (Vec<MaybeUninit<Point>>, Vec<MaybeUninit<Point>>) {
    (point_storage(225), point_storage(125))
}

#[test]
fn fresh_game_layout() {
    let (mut bs, mut fs) = fresh_storage();
    let game = SnakeGame::new(&mut bs, &mut fs, SEED);
    assert!(game.is_alive());
    assert!(!game.is_eating());
    assert_eq!(game.direction(), Direction::Right);
    assert_eq!(game.score(), 0);
    assert_eq!(game.food_remaining(), 125);
    assert_eq!(body_points(&game), vec![(4, 5), (3, 5), (2, 5), (1, 5)]);
    let food = game.current_food();
    assert_eq!((food.x, food.y), (19, 5));
}

#[test]
fn walks_into_the_right_wall() {
    let (mut bs, mut fs) = fresh_storage();
    let mut game = SnakeGame::new(&mut bs, &mut fs, SEED);
    for t in 1..=15u8 {
        let r = game.tick(None);
        assert_eq!(r, Ok(true));
        let head = game.head();
        assert_eq!((head.x, head.y), (4 + t, 5));
    }
    // Tick 16 reaches the wall column, which is still on the field.
    assert_eq!(game.tick(None), Ok(true));
    let head = game.head();
    assert_eq!((head.x, head.y), (20, 5));
    assert!(game.is_alive());
    // Tick 17 would leave the field: the snake dies.
    assert_eq!(game.tick(None), Ok(false));
    assert!(!game.is_alive());
}

#[test]
fn eat_grows_and_scores() {
    let (mut bs, mut fs) = fresh_storage();
    let mut game = SnakeGame::new(&mut bs, &mut fs, SEED);
    // The first food sits at (19, 5), fifteen surviving moves ahead.
    for _ in 0..14 {
        assert_eq!(game.tick(None), Ok(true));
        assert!(!game.is_eating());
        assert_eq!(game.score(), 0);
    }
    let before = game.food_remaining();
    assert_eq!(game.tick(None), Ok(true));
    assert!(game.is_eating());
    assert!(game.food_remaining() < before);
    assert_eq!(game.body_len(), STARTING_LENGTH as usize);
    // The owed growth is consumed on the next tick.
    assert_eq!(game.tick(None), Ok(true));
    assert!(!game.is_eating());
    assert_eq!(game.body_len(), STARTING_LENGTH as usize + 1);
    assert_eq!(game.score(), 1);
}

#[test]
fn eat_scenario_draws_food_off_body() {
    let mut bs = point_storage(225);
    let mut fs = point_storage(125);
    let segments = vec![
        Point { x: 5, y: 5 },
        Point { x: 4, y: 5 },
        Point { x: 3, y: 5 },
        Point { x: 2, y: 5 },
    ];
    let mut game = SnakeGame::from_parts(
        &mut bs,
        &mut fs,
        &segments,
        Point { x: 6, y: 5 },
        Direction::Right,
        SEED,
    )
    .unwrap();
    assert_eq!(game.tick(None), Ok(true));
    // The move lands on the food: the eat is triggered and a fresh food is
    // drawn that lies on no body segment and strictly inside the walls.
    assert!(game.is_eating());
    let food = game.current_food();
    for seg in body_points(&game) {
        assert_ne!(seg, (food.x, food.y));
    }
    assert!(1 <= food.x && food.x < GAME_WIDTH);
    assert!(1 <= food.y && food.y < GAME_HEIGHT);
    // The growth the eat owes arrives on the following tick.
    assert_eq!(game.body_len(), 4);
    assert_eq!(game.tick(None), Ok(true));
    assert_eq!(game.body_len(), 5);
    assert_eq!(game.score(), 1);
    for seg in body_points(&game) {
        assert_ne!(seg, (food.x, food.y));
    }
}

#[test]
fn same_tick_up_then_down_applies_up() {
    let (mut bs, mut fs) = fresh_storage();
    let mut game = SnakeGame::new(&mut bs, &mut fs, SEED);
    game.request_direction(Direction::Up);
    game.request_direction(Direction::Down);
    // The first pending request turns the snake up.
    assert_eq!(game.tick(None), Ok(true));
    assert_eq!(game.direction(), Direction::Up);
    let head = game.head();
    assert_eq!((head.x, head.y), (4, 4));
    // The queued Down is now the opposite of the current direction and is
    // discarded.
    assert_eq!(game.tick(None), Ok(true));
    assert_eq!(game.direction(), Direction::Up);
    let head = game.head();
    assert_eq!((head.x, head.y), (4, 3));
}

#[test]
fn reversal_request_is_rejected() {
    let (mut bs, mut fs) = fresh_storage();
    let mut game = SnakeGame::new(&mut bs, &mut fs, SEED);
    // Heading right, 'a' asks for Left: the exact opposite, refused.
    assert_eq!(game.tick(Some('a')), Ok(true));
    assert_eq!(game.direction(), Direction::Right);
    let head = game.head();
    assert_eq!((head.x, head.y), (5, 5));
}

#[test]
fn moving_into_the_tail_is_self_collision() {
    let mut bs = point_storage(225);
    let mut fs = point_storage(125);
    let segments = vec![
        Point { x: 5, y: 5 },
        Point { x: 5, y: 4 },
        Point { x: 4, y: 4 },
        Point { x: 4, y: 5 },
    ];
    let mut game = SnakeGame::from_parts(
        &mut bs,
        &mut fs,
        &segments,
        Point { x: 10, y: 5 },
        Direction::Left,
        SEED,
    )
    .unwrap();
    assert_eq!(game.tick(None), Ok(false));
    assert!(!game.is_alive());
    // Death leaves the body as it was.
    assert_eq!(body_points(&game), vec![(5, 5), (5, 4), (4, 4), (4, 5)]);
}

#[test]
fn segments_stay_on_field_and_distinct() {
    let (mut bs, mut fs) = fresh_storage();
    let mut game = SnakeGame::new(&mut bs, &mut fs, SEED);
    let script = [
        None,
        None,
        Some('w'),
        None,
        Some('d'),
        None,
        None,
        Some('s'),
        None,
        Some('a'),
        None,
        None,
        Some('w'),
        None,
        None,
    ];
    for key in script {
        if !game.is_alive() {
            break;
        }
        game.tick(key).unwrap();
        if game.is_alive() {
            let body = body_points(&game);
            for (i, &(x, y)) in body.iter().enumerate() {
                assert!(1 <= x && x <= GAME_WIDTH && 1 <= y && y <= GAME_HEIGHT);
                for &other in &body[i + 1..] {
                    assert_ne!((x, y), other);
                }
            }
        }
    }
}

#[test]
fn identical_runs_coincide() {
    let script: Vec<Option<char>> = (0..15)
        .map(|_| None)
        .chain([Some('w'), None, Some('a'), None, None])
        .collect();
    let (mut bs1, mut fs1) = fresh_storage();
    let mut first = SnakeGame::new(&mut bs1, &mut fs1, SEED);
    let (mut bs2, mut fs2) = fresh_storage();
    let mut second = SnakeGame::new(&mut bs2, &mut fs2, SEED);
    for &key in &script {
        let r1 = first.tick(key);
        let r2 = second.tick(key);
        assert_eq!(r1, r2);
        assert_eq!(first.is_alive(), second.is_alive());
        assert_eq!(first.direction(), second.direction());
        assert_eq!(first.score(), second.score());
        assert_eq!(body_points(&first), body_points(&second));
        let (f1, f2) = (first.current_food(), second.current_food());
        assert_eq!((f1.x, f1.y), (f2.x, f2.y));
    }
}

#[test]
fn food_supply_exhaustion_is_fatal() {
    let mut bs = point_storage(225);
    let mut fs = point_storage(0);
    let segments = vec![
        Point { x: 5, y: 5 },
        Point { x: 4, y: 5 },
        Point { x: 3, y: 5 },
        Point { x: 2, y: 5 },
    ];
    let mut game = SnakeGame::from_parts(
        &mut bs,
        &mut fs,
        &segments,
        Point { x: 6, y: 5 },
        Direction::Right,
        SEED,
    )
    .unwrap();
    assert_eq!(game.food_remaining(), 0);
    let r = game.tick(None);
    assert_eq!(r, Err(FatalError::FoodSupplyExhausted));
    assert!(!game.is_alive());
    assert_eq!(r.unwrap_err().message(), "ran out of food");
}

#[test]
fn body_capacity_exhaustion_is_fatal() {
    let mut bs = point_storage(4);
    let mut fs = point_storage(125);
    let segments = vec![
        Point { x: 5, y: 5 },
        Point { x: 4, y: 5 },
        Point { x: 3, y: 5 },
        Point { x: 2, y: 5 },
    ];
    let mut game = SnakeGame::from_parts(
        &mut bs,
        &mut fs,
        &segments,
        Point { x: 6, y: 5 },
        Direction::Right,
        SEED,
    )
    .unwrap();
    assert_eq!(game.tick(None), Ok(true));
    assert!(game.is_eating());
    // The owed growth cannot fit: four slots hold four segments already.
    let r = game.tick(None);
    assert_eq!(r, Err(FatalError::CapacityExhausted));
    assert!(!game.is_alive());
    assert_eq!(r.unwrap_err().message(), "snake vec full");
}
