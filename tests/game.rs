use genesismobo::ascii_art::render;
use genesismobo::directions::Direction;
use genesismobo::game::{Game, SNAKE_START_LEN};
use genesismobo::movement_scheduler::tick;
use genesismobo::point::{Point, SIDE};
use genesismobo::snake::Snake;
use genesismobo::state::State;

fn game_with(snake: Snake, food: Option<Point>, score: u16) -> Game {
    let mut game = Game::new();
    game.snake = snake;
    game.food = food;
    game.score = score;
    game
}

fn food_is_free(game: &Game) -> bool {
    match game.food {
        Some(f) => f.x < SIDE && f.y < SIDE && !game.snake.contains_point(&f),
        None => false,
    }
}

#[test]
fn new_game_is_centered() {
    let game = Game::new();
    assert_eq!(game.width, 10);
    assert_eq!(game.height, 10);
    assert_eq!(game.score, 0);
    assert_eq!(game.food, None);
    assert_eq!(game.snake.body.len(), 3);
    assert_eq!(game.snake.get_head_point(), Point::new(5, 5));
    let d = game.snake.get_direction();
    let start = Point::new(5, 5);
    assert_eq!(
        game.snake.get_body_points(),
        vec![start, start.transform(d.opposite(), 1), start.transform(d.opposite(), 2)]
    );
}

#[test]
fn reversal_is_never_taken() {
    let mut game = game_with(Snake::new(Point::new(5, 5), 3, Direction::Right), Some(Point::new(0, 0)), 0);
    game.run(vec![Direction::Left]);
    assert_eq!(game.snake.get_direction(), Direction::Right);
    assert_eq!(game.snake.get_head_point(), Point::new(6, 5));

    let mut game = game_with(Snake::new(Point::new(5, 5), 3, Direction::Right), Some(Point::new(0, 0)), 0);
    game.run(vec![Direction::Left, Direction::Up]);
    assert_eq!(game.snake.get_direction(), Direction::Up);
    assert_eq!(game.snake.get_head_point(), Point::new(5, 4));
}

#[test]
fn queued_turn_is_one_of_the_candidates() {
    for _ in 0..30 {
        let mut game = game_with(Snake::new(Point::new(5, 5), 3, Direction::Right), Some(Point::new(0, 0)), 0);
        game.run(vec![Direction::Up, Direction::Left, Direction::Down]);
        let d = game.snake.get_direction();
        assert!(d == Direction::Up || d == Direction::Down);
    }
}

#[test]
fn biting_itself_restarts() {
    let body = vec![Point::new(5, 5), Point::new(5, 6), Point::new(4, 6), Point::new(4, 5), Point::new(4, 4)];
    let snake = Snake { body, direction: Direction::Left, digesting: false };
    let mut game = game_with(snake, Some(Point::new(0, 0)), 4);
    game.run(vec![]);
    assert_eq!(game.score, 0);
    assert_eq!(game.snake.body.len(), SNAKE_START_LEN as usize);
    assert_eq!(game.snake.get_head_point(), Point::new(5, 5));
    assert!(!game.snake.digesting);
    assert!(food_is_free(&game));
}

#[test]
fn moving_onto_the_tail_cell_is_no_bite() {
    let body = vec![Point::new(5, 5), Point::new(5, 6), Point::new(4, 6), Point::new(4, 5)];
    let snake = Snake { body, direction: Direction::Left, digesting: false };
    let mut game = game_with(snake, Some(Point::new(0, 0)), 2);
    game.run(vec![]);
    assert_eq!(game.score, 2);
    assert_eq!(
        game.snake.get_body_points(),
        vec![Point::new(4, 5), Point::new(5, 5), Point::new(5, 6), Point::new(4, 6)]
    );
}

#[test]
fn eating_scores_and_grows_one_tick_later() {
    let mut game = game_with(Snake::new(Point::new(5, 5), 3, Direction::Right), Some(Point::new(6, 5)), 0);
    game.run(vec![]);
    assert_eq!(game.score, 1);
    assert_ne!(game.food, Some(Point::new(6, 5)));
    assert!(food_is_free(&game));
    assert_eq!(game.snake.body.len(), 3);
    assert!(game.snake.digesting);
    game.run(vec![]);
    assert_eq!(game.snake.body.len(), 4);
    assert_eq!(game.snake.get_head_point(), Point::new(7, 5));
}

#[test]
fn food_stays_off_the_snake() {
    let mut game = Game::new();
    for _ in 0..200 {
        game.run(vec![Direction::Up, Direction::Left, Direction::Right, Direction::Down]);
        assert!(food_is_free(&game));
    }
}

#[test]
fn five_quiet_ticks() {
    let mut game = game_with(Snake::new(Point::new(5, 5), 3, Direction::Right), Some(Point::new(0, 0)), 0);
    let start = game.snake.get_head_point();
    for _ in 0..5 {
        game.run(vec![]);
        assert_eq!(game.snake.body.len(), 3);
    }
    assert_eq!(game.snake.get_head_point(), start.transform(Direction::Right, 5));
    assert_eq!(game.snake.get_head_point(), Point::new(0, 5));
    assert_eq!(game.score, 0);
}

#[test]
fn first_tick_places_food() {
    let mut game = game_with(Snake::new(Point::new(5, 5), 3, Direction::Right), None, 0);
    game.run(vec![]);
    assert!(food_is_free(&game));
}

#[test]
fn free_cells_skip_the_snake() {
    let game = game_with(Snake::new(Point::new(1, 0), 2, Direction::Right), None, 0);
    let free = game.free_cells();
    assert_eq!(free.len(), 98);
    assert_eq!(free[0], Point::new(2, 0));
    assert_eq!(free[97], Point::new(9, 9));
}

#[test]
fn full_board_leaves_no_food() {
    let mut body = Vec::new();
    for y in 0..10u16 {
        for x in 0..10u16 {
            body.push(Point::new(x, y));
        }
    }
    let snake = Snake { body, direction: Direction::Right, digesting: false };
    let mut game = game_with(snake, None, 0);
    game.place_food();
    assert_eq!(game.food, None);
    assert!(game.free_cells().is_empty());
}

#[test]
fn render_draws_score_snake_and_food() {
    let game = game_with(Snake::new(Point::new(2, 1), 2, Direction::Right), Some(Point::new(9, 9)), 12);
    let mut expected = String::from("Score: 12 \r\n");
    for y in 0..10u16 {
        for x in 0..10u16 {
            let cell = if x == 9 && y == 9 {
                " \u{ae} "
            } else if y == 1 && (x == 1 || x == 2) {
                " \u{2588} "
            } else {
                " \u{2591} "
            };
            expected.push_str(cell);
        }
        expected.push_str("\r\n");
    }
    assert_eq!(render(&game), expected);
    assert!(render(&game).starts_with("Score: 12 \r\n"));
}

#[test]
fn tick_drains_the_queue() {
    let mut game = game_with(Snake::new(Point::new(5, 5), 3, Direction::Right), Some(Point::new(0, 0)), 0);
    let mut queue = vec![Direction::Down, Direction::Left];
    tick(&mut game, &mut queue);
    assert!(queue.is_empty());
    assert_eq!(game.snake.get_direction(), Direction::Down);
    assert_eq!(game.snake.get_head_point(), Point::new(5, 6));
}

#[test]
fn state_starts_empty() {
    let state = State::new();
    assert!(state.directions.lock().unwrap().is_empty());
    assert_eq!(state.game.lock().unwrap().score, 0);
}
