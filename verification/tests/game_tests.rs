use snake_game::controls::{
    direction_for_key, game_over_choice, pause_choice, play_choice, GameOverChoice, Key, PauseChoice,
    PlayChoice,
};
use snake_game::food::Food;
use snake_game::game::{first_food_eaten, Game, TickOutcome};
use snake_game::position::{Direction, Position};
use snake_game::screen::{apple_position, field_offset, game_area, header_padding, measured_width, rainbow_shade};
use snake_game::snake::Snake;
use snake_game::tick::TickRate;

fn p(x: u16, y: u16) -> Position {
    Position { x, y }
}

fn food(x: u16, y: u16, is_special: bool) -> Food {
    Food { pos: p(x, y), is_special }
}

fn game(body: Vec<Position>, direction: Direction, foods: Vec<Food>) -> Game {
    Game {
        width: 20,
        height: 10,
        snake: Snake { food_array: foods, body, direction, is_rainbow: false },
        score: 0,
        high_score: 7,
        is_game_over: false,
        is_won: false,
        star_is_double: true,
    }
}

fn place_at_one(_: &Vec<Position>, _: u16, _: u16, _: &Vec<Food>) -> Food {
    food(1, 1, false)
}

#[test]
fn new_game_starts_empty_handed() {
    let g = Game::new(30, 12, 42, true);
    assert_eq!((g.width, g.height, g.score, g.high_score), (30, 12, 0, 42));
    assert!(!g.is_game_over && !g.is_won && g.star_is_double);
    assert_eq!(g.snake.body, vec![p(15, 6), p(14, 6), p(13, 6)]);
    assert_eq!(g.snake.food_array.len(), 3);
}

#[test]
fn eating_plain_food_scores_one() {
    let mut g = game(vec![p(5, 5)], Direction::Right, vec![food(9, 9, false), food(6, 5, false)]);
    assert!(!g.check_for_food_collision(place_at_one));
    assert_eq!(g.score, 1);
    assert_eq!(g.snake.food_array, vec![food(9, 9, false), food(1, 1, false)]);
    assert_eq!(g.snake.body, vec![p(5, 5)]);
}

#[test]
fn eating_special_food_scores_three() {
    let mut g = game(vec![p(5, 5)], Direction::Right, vec![food(6, 5, true)]);
    assert!(!g.check_for_food_collision(place_at_one));
    assert_eq!(g.score, 3);
}

#[test]
fn double_wide_special_food_is_eaten_from_its_right_cell() {
    let mut g = game(vec![p(7, 5)], Direction::Left, vec![food(5, 5, true)]);
    assert!(!g.check_for_food_collision(place_at_one));
    assert_eq!(g.score, 3);
    let mut g = game(vec![p(7, 5)], Direction::Left, vec![food(5, 5, true)]);
    g.star_is_double = false;
    assert!(g.check_for_food_collision(place_at_one));
    assert_eq!(g.score, 0);
}

#[test]
fn missing_food_changes_nothing() {
    let mut g = game(vec![p(5, 5)], Direction::Up, vec![food(6, 5, true)]);
    assert!(g.check_for_food_collision(place_at_one));
    assert_eq!(g.score, 0);
    assert_eq!(g.snake.food_array, vec![food(6, 5, true)]);
}

#[test]
fn only_the_first_food_eaten_is_replaced() {
    let foods = vec![food(6, 5, false), food(6, 5, true)];
    assert_eq!(first_food_eaten(&foods, &p(6, 5), true), Some(0));
    assert_eq!(first_food_eaten(&foods, &p(7, 5), true), Some(1));
    assert_eq!(first_food_eaten(&foods, &p(8, 5), true), None);
    let mut g = game(vec![p(5, 5)], Direction::Right, foods);
    assert!(!g.check_for_food_collision(place_at_one));
    assert_eq!(g.snake.food_array, vec![food(1, 1, false), food(6, 5, true)]);
    assert_eq!(g.score, 1);
}

#[test]
fn advance_grows_the_snake_that_eats_and_speeds_up() {
    let mut g = game(vec![p(5, 5), p(4, 5)], Direction::Right, vec![food(6, 5, false)]);
    let mut t = TickRate::new(100, 50);
    let r = g.advance(&mut t, place_at_one, 80, 24, apple_position(20));
    assert_eq!(r, Some(TickOutcome { tail: p(0, 0), ate: true }));
    assert_eq!(g.snake.body, vec![p(6, 5), p(5, 5), p(4, 5)]);
    assert_eq!(g.score, 1);
    assert_eq!(t.vertical, 99);
    assert!(!g.is_game_over);
}

#[test]
fn advance_moves_a_snake_that_does_not_eat() {
    let mut g = game(vec![p(5, 5), p(4, 5)], Direction::Down, vec![food(6, 5, false)]);
    let mut t = TickRate::new(100, 50);
    let r = g.advance(&mut t, place_at_one, 80, 24, apple_position(20));
    assert_eq!(r, Some(TickOutcome { tail: p(4, 5), ate: false }));
    assert_eq!(g.snake.body, vec![p(5, 6), p(5, 5)]);
    assert_eq!(t.vertical, 100);
}

#[test]
fn advance_ends_the_game_at_a_wall_or_the_body() {
    let mut g = game(vec![p(17, 5)], Direction::Right, Vec::new());
    let mut t = TickRate::new(100, 50);
    g.advance(&mut t, place_at_one, 80, 24, apple_position(20));
    assert!(g.is_game_over);
    let mut g = game(vec![p(5, 5), p(5, 6), p(6, 6), p(6, 5)], Direction::Right, Vec::new());
    g.advance(&mut t, place_at_one, 80, 24, apple_position(20));
    assert!(g.is_game_over);
}

#[test]
fn advance_does_nothing_once_the_game_is_over() {
    let mut g = game(vec![p(5, 5)], Direction::Right, vec![food(6, 5, false)]);
    g.is_game_over = true;
    let mut t = TickRate::new(100, 50);
    assert_eq!(g.advance(&mut t, place_at_one, 80, 24, apple_position(20)), None);
    assert_eq!(g.snake.body, vec![p(5, 5)]);
    assert_eq!(g.score, 0);
    assert_eq!(t.vertical, 100);
}

#[test]
fn reaching_the_apple_wins() {
    let apple = apple_position(20);
    assert_eq!(apple, p(20, u16::MAX - 3));
    let mut g = game(vec![p(20, u16::MAX - 2)], Direction::Up, Vec::new());
    let mut t = TickRate::new(100, 50);
    g.advance(&mut t, place_at_one, 80, 24, apple);
    assert!(g.is_won);
    assert_eq!(g.score, u32::MAX);
}

#[test]
fn best_score_keeps_the_larger() {
    let mut g = game(vec![p(5, 5)], Direction::Right, Vec::new());
    assert_eq!(g.best_score(), 7);
    assert!(!g.beats_high_score());
    g.score = 9;
    assert_eq!(g.best_score(), 9);
    assert!(g.beats_high_score());
    g.record_high_score();
    assert_eq!(g.high_score, 9);
    g.score = 2;
    g.record_high_score();
    assert_eq!(g.high_score, 9);
}

#[test]
fn restarted_game_keeps_the_best_score() {
    let mut g = game(vec![p(5, 5)], Direction::Right, Vec::new());
    g.score = 12;
    g.is_game_over = true;
    let n = g.restarted(40, 20);
    assert_eq!(n.high_score, 12);
    assert_eq!(n.score, 0);
    assert!(!n.is_game_over);
    assert!(n.star_is_double);
    assert_eq!(n.snake.body, vec![p(20, 10), p(19, 10), p(18, 10)]);
}

#[test]
fn tick_fits_spots_overflowing_scores() {
    let mut g = game(vec![p(5, 5)], Direction::Right, vec![food(6, 5, true)]);
    assert!(g.tick_fits());
    g.score = u32::MAX - 2;
    assert!(!g.tick_fits());
    g.score = u32::MAX - 3;
    assert!(g.tick_fits());
    g.snake.direction = Direction::Up;
    g.score = u32::MAX;
    assert!(g.tick_fits());
    let edge = game(vec![p(5, 5)], Direction::Right, vec![food(u16::MAX, 5, true)]);
    assert!(!edge.tick_fits());
}

#[test]
fn keys_steer_pause_and_quit() {
    assert_eq!(direction_for_key(Key::Char('w')), Some(Direction::Up));
    assert_eq!(direction_for_key(Key::Up), Some(Direction::Up));
    assert_eq!(direction_for_key(Key::Char('s')), Some(Direction::Down));
    assert_eq!(direction_for_key(Key::Down), Some(Direction::Down));
    assert_eq!(direction_for_key(Key::Char('a')), Some(Direction::Left));
    assert_eq!(direction_for_key(Key::Left), Some(Direction::Left));
    assert_eq!(direction_for_key(Key::Char('d')), Some(Direction::Right));
    assert_eq!(direction_for_key(Key::Right), Some(Direction::Right));
    assert_eq!(direction_for_key(Key::Char('x')), None);
    assert_eq!(play_choice(Key::Char('q')), PlayChoice::Quit);
    assert_eq!(play_choice(Key::Char('p')), PlayChoice::Pause);
    assert_eq!(play_choice(Key::Up), PlayChoice::Steer);
    assert_eq!(pause_choice(Key::Char('q')), PauseChoice::Quit);
    assert_eq!(pause_choice(Key::Char('r')), PauseChoice::Resume);
    assert_eq!(pause_choice(Key::Char('~')), PauseChoice::Rainbow);
    assert_eq!(pause_choice(Key::Other), PauseChoice::Wait);
    assert_eq!(game_over_choice(Key::Char('q')), GameOverChoice::Quit);
    assert_eq!(game_over_choice(Key::Char('r')), GameOverChoice::Restart);
    assert_eq!(game_over_choice(Key::Char('p')), GameOverChoice::Wait);
}

#[test]
fn game_area_fits_the_terminal() {
    assert_eq!(game_area(80, 24), (80, 19));
    assert_eq!(game_area(200, 50), (100, 45));
    assert_eq!(game_area(80, 10), (80, 9));
    assert_eq!(game_area(80, 2), (80, 65533));
    assert_eq!(field_offset(120, 100), 10);
    assert_eq!(field_offset(80, 80), 0);
}

#[test]
fn drawing_helpers() {
    assert_eq!(rainbow_shade(&p(4, 3)), 1);
    assert_eq!(rainbow_shade(&p(6, 0)), 0);
    assert_eq!(header_padding(80, 20), 30);
    assert_eq!(header_padding(10, 20), (10u16.wrapping_sub(20)) / 2);
    assert_eq!(measured_width(3, 5), 2);
    assert_eq!(measured_width(3, 4), 1);
    assert_eq!(measured_width(5, 3), 2);
}

#[test]
fn a_win_records_the_score() {
    let mut g = game(vec![p(5, 5)], Direction::Right, Vec::new());
    g.is_won = true;
    g.score = u32::MAX;
    g.record_win();
    assert_eq!(g.high_score, u32::MAX);
}

#[test]
fn eaten_food_is_replaced_off_the_body() {
    let mut g = game(
        vec![p(10, 5), p(9, 5)],
        Direction::Right,
        vec![food(11, 5, false), food(2, 2, false)],
    );
    g.star_is_double = false;
    assert!(!g.check_for_food_collision(place_at_one));
    assert_eq!(g.score, 1);
    assert_eq!(g.snake.food_array.len(), 2);
    assert_eq!(g.snake.food_array[1], food(2, 2, false));
    let new_food = g.snake.food_array[0];
    assert!(!g.snake.body.contains(&new_food.pos));
    assert!(1 <= new_food.pos.x && new_food.pos.x <= g.width - 3);
    assert!(1 <= new_food.pos.y && new_food.pos.y <= g.height - 1);
}
