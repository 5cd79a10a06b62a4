use snake_game::food::{
    check_for_special_food_collision, food_candidate, food_roll_bounds, place_food_attempt, placement_fits,
    position_in, rolled_food, Food,
};
use snake_game::snake::starting_food_roll_bounds;
use snake_game::position::{Direction, Position};
use snake_game::tick::TickRate;

fn p(x: u16, y: u16) -> Position {
    Position { x, y }
}

#[test]
fn tick_rate_new_keeps_both_delays() {
    let t = TickRate::new(100, 50);
    assert_eq!(t.vertical, 100);
    assert_eq!(t.horizontal, 50);
}

#[test]
fn tick_rate_picks_delay_by_axis() {
    let t = TickRate::new(100, 50);
    assert_eq!(t.get_correct(&Direction::Up), 100);
    assert_eq!(t.get_correct(&Direction::Down), 100);
    assert_eq!(t.get_correct(&Direction::Left), 50);
    assert_eq!(t.get_correct(&Direction::Right), 50);
}

#[test]
fn tick_rate_shortens_horizontal_every_other_call() {
    let mut t = TickRate::new(100, 50);
    t.decrease();
    assert_eq!((t.vertical, t.horizontal), (99, 50));
    t.decrease();
    assert_eq!((t.vertical, t.horizontal), (98, 49));
    t.decrease();
    assert_eq!((t.vertical, t.horizontal), (97, 49));
    t.decrease();
    assert_eq!((t.vertical, t.horizontal), (96, 48));
}

#[test]
fn tick_rate_stops_at_its_floors() {
    let mut t = TickRate::new(11, 21);
    for _ in 0..10 {
        t.decrease();
    }
    assert_eq!(t.vertical, 10);
    assert_eq!(t.horizontal, 20);
}

#[test]
fn tick_rate_lifts_a_delay_below_its_floor() {
    let mut t = TickRate::new(3, 5);
    t.decrease();
    assert_eq!(t.vertical, 10);
    assert_eq!(t.horizontal, 5);
    t.decrease();
    assert_eq!(t.horizontal, 20);
}

#[test]
fn to_screen_offsets_past_the_frame() {
    assert_eq!(p(5, 7).to_screen(10, 3), (16, 11));
    assert_eq!(p(0, 0).to_screen(0, 3), (1, 4));
}

#[test]
fn to_screen_wraps_around_u16() {
    assert_eq!(p(u16::MAX, u16::MAX - 3).to_screen(0, 3), (0, 0));
    assert_eq!(p(u16::MAX - 1, 2).to_screen(10, 3), (9, 6));
}

#[test]
fn special_food_is_hit_right_of_it_when_drawn_double() {
    let star = Food { pos: p(4, 4), is_special: true };
    assert!(check_for_special_food_collision(&star, &p(5, 4), true));
    assert!(!check_for_special_food_collision(&star, &p(5, 4), false));
    assert!(!check_for_special_food_collision(&star, &p(4, 4), true));
    assert!(!check_for_special_food_collision(&star, &p(3, 4), true));
    let plain = Food { pos: p(4, 4), is_special: false };
    assert!(!check_for_special_food_collision(&plain, &p(5, 4), true));
}

#[test]
fn rolled_food_is_special_on_a_zero_roll() {
    assert_eq!(rolled_food(3, 4, 0), Food { pos: p(3, 4), is_special: true });
    assert_eq!(rolled_food(3, 4, 7), Food { pos: p(3, 4), is_special: false });
}

#[test]
fn position_in_finds_body_cells() {
    let body = vec![p(5, 5), p(4, 5), p(3, 5)];
    assert!(position_in(&body, &p(4, 5)));
    assert!(!position_in(&body, &p(5, 4)));
    assert!(!position_in(&Vec::new(), &p(0, 0)));
}

#[test]
fn food_candidate_rejects_the_body() {
    let body = vec![p(5, 5), p(4, 5)];
    let foods = vec![Food { pos: p(7, 7), is_special: true }, Food { pos: p(2, 2), is_special: false }];
    assert_eq!(food_candidate(&body, 20, &foods, p(4, 5), false), None);
    assert_eq!(
        food_candidate(&body, 20, &foods, p(10, 3), true),
        Some(Food { pos: p(10, 3), is_special: true })
    );
    assert_eq!(
        food_candidate(&body, 20, &foods, p(3, 3), false),
        Some(Food { pos: p(3, 3), is_special: false })
    );
}

#[test]
fn food_candidate_rejects_a_clash_with_other_food() {
    let body = vec![p(5, 5)];
    let foods = vec![Food { pos: p(7, 7), is_special: true }, Food { pos: p(2, 2), is_special: false }];
    // The same cell as a food item.
    assert_eq!(food_candidate(&body, 20, &foods, p(2, 2), false), None);
    // Right of, or left of, a special food in its row.
    assert_eq!(food_candidate(&body, 20, &foods, p(8, 7), false), None);
    assert_eq!(food_candidate(&body, 20, &foods, p(6, 7), false), None);
    // A special candidate next to a plain food in its row.
    assert_eq!(food_candidate(&body, 20, &foods, p(3, 2), true), None);
    // A plain candidate next to a plain food is fine, and so is another row.
    assert_eq!(
        food_candidate(&body, 20, &foods, p(3, 2), false),
        Some(Food { pos: p(3, 2), is_special: false })
    );
    assert_eq!(
        food_candidate(&body, 20, &foods, p(8, 8), false),
        Some(Food { pos: p(8, 8), is_special: false })
    );
}

#[test]
fn food_candidate_keeps_special_food_off_the_right_wall() {
    let body = vec![p(5, 5)];
    let foods = vec![Food { pos: p(2, 2), is_special: false }];
    assert_eq!(food_candidate(&body, 20, &foods, p(17, 3), true), None);
    assert_eq!(
        food_candidate(&body, 20, &foods, p(17, 3), false),
        Some(Food { pos: p(17, 3), is_special: false })
    );
    assert_eq!(
        food_candidate(&body, 20, &Vec::new(), p(17, 3), true),
        Some(Food { pos: p(17, 3), is_special: true })
    );
}

#[test]
fn food_roll_bounds_match_the_board() {
    assert_eq!(food_roll_bounds(20, 10), ((1, 17), (1, 9), (0, 9)));
    assert_eq!(starting_food_roll_bounds(20, 10), ((1, 17), (1, 8), (0, 9)));
}

#[test]
fn placed_food_lands_in_range_and_off_the_body() {
    let body = vec![p(1, 1), p(2, 1), p(3, 1), p(1, 2), p(2, 2)];
    let foods = vec![Food { pos: p(3, 3), is_special: false }];
    assert!(placement_fits(7, 4, &foods));
    let mut placed = 0;
    for _ in 0..500 {
        if let Some(food) = place_food_attempt(&body, 7, 4, &foods) {
            placed += 1;
            assert!(1 <= food.pos.x && food.pos.x <= 4);
            assert!(1 <= food.pos.y && food.pos.y <= 3);
            assert!(!body.contains(&food.pos));
            assert_ne!(food.pos, p(3, 3));
            if food.is_special {
                assert!(food.pos.x != 4);
                assert!(food.pos.y != 3 || (food.pos.x != 2 && food.pos.x != 4));
            }
        }
    }
    assert!(placed > 0);
}

#[test]
fn placement_fits_rejects_small_boards_and_edge_food() {
    let foods = vec![Food { pos: p(u16::MAX, 3), is_special: false }];
    assert!(!placement_fits(20, 20, &foods));
    assert!(!placement_fits(3, 20, &Vec::new()));
    assert!(!placement_fits(20, 1, &Vec::new()));
    assert!(placement_fits(4, 2, &Vec::new()));
}

#[test]
fn new_rate_speeds_up_by_the_speed_up_law() {
    for k in 0..200u32 {
        let mut t = TickRate::new(100, 50);
        for _ in 0..k {
            t.decrease();
        }
        let vertical = std::cmp::max(100 - k as i64, 10);
        let horizontal = std::cmp::max(50 - (k / 2) as i64, 20);
        assert_eq!(t.vertical as i64, vertical);
        assert_eq!(t.horizontal as i64, horizontal);
    }
}

#[test]
fn reset_delays_restores_the_starting_delays() {
    let mut t = TickRate::new(100, 50);
    for _ in 0..3 {
        t.decrease();
    }
    t.reset_delays();
    assert_eq!((t.vertical, t.horizontal), (100, 50));
    // The alternation is kept: three calls left the horizontal delay due.
    t.decrease();
    assert_eq!((t.vertical, t.horizontal), (99, 49));
}
