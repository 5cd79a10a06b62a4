//! The food on the board: where it may be placed and how the snake's head
//! meets it.

use vstd::prelude::*;
use rand::rngs::ThreadRng;
use crate::position::Position;
use crate::random::{random_between, thread_rng};

verus! {

/// Represents which type and where the snake food is.
#[derive(Clone, Copy, Debug, PartialEq, Eq, Structural)]
pub struct Food {
    pub pos: Position,
    pub is_special: bool,
}

/// The special food is drawn when a roll of `0..=SPECIAL_ODDS` comes up 0,
/// one time in ten.
pub const SPECIAL_ODDS: u16 = 9;

/// The cell right of `p` (a wide symbol covers it too).
pub open spec fn right_of(p: Position) -> Position
    recommends
        p.x < u16::MAX,
{
    Position { x: (p.x + 1) as u16, y: p.y }
}

/// Whether `pos` occurs in `body`.
pub fn position_in(body: &Vec<Position>, pos: &Position) -> (r: bool)
    ensures
        r == body@.contains(*pos),
{
    let mut i: usize = 0;
    while i < body.len()
        invariant
            i <= body.len(),
            forall|j: int| 0 <= j < i ==> body@[j] != *pos,
        decreases body.len() - i,
    {
        if body[i] == *pos {
            return true;
        }
        i = i + 1;
    }
    false
}

/// Checks for collision with special food with corrections for size: a
/// special food drawn two cells wide (`star_is_double`) is also hit on the
/// cell to its right.
pub fn check_for_special_food_collision(
    food: &Food,
    next_head_pos: &Position,
    star_is_double: bool,
) -> (r: bool)
    requires
        food.is_special && star_is_double ==> food.pos.x < u16::MAX,
    ensures
        r == (food.is_special && star_is_double && *next_head_pos == right_of(food.pos)),
{
    if !food.is_special || !star_is_double {
        return false;
    }
    *next_head_pos == Position { x: food.pos.x + 1, y: food.pos.y }
}

/// The food that rolls of `x`, `y` and of `special_roll` out of
/// `0..=SPECIAL_ODDS` give.
pub fn rolled_food(x: u16, y: u16, special_roll: u16) -> (r: Food)
    ensures
        r == (Food { pos: Position { x, y }, is_special: special_roll == 0 }),
{
    Food { pos: Position { x, y }, is_special: special_roll == 0 }
}

/// A candidate at `pos` is compared for width with `food`: they are not in
/// the same cell, they share a row, and one of them is special (drawn two
/// cells wide). Only then does `food_candidate` add 1 to an `x`.
pub open spec fn compares_widths(food: Food, pos: Position, is_special: bool) -> bool {
    food.pos != pos && (food.is_special || is_special) && food.pos.y == pos.y
}

/// The additions of `food_candidate` stay within `u16` for this food item.
pub open spec fn widths_fit(food: Food, pos: Position, is_special: bool) -> bool {
    compares_widths(food, pos, is_special) ==> {
        &&& food.pos.x < u16::MAX
        &&& food.pos.x + 1 != pos.x ==> pos.x < u16::MAX
    }
}

/// The candidate food `(pos, is_special)` clashes with `food`: same cell,
/// or side by side in a row where one of them is drawn two cells wide.
pub open spec fn clashes(food: Food, pos: Position, is_special: bool) -> bool {
    ||| food.pos == pos
    ||| compares_widths(food, pos, is_special) && (food.pos.x + 1 == pos.x || pos.x + 1 == food.pos.x)
}

/// A special candidate food at `pos` would touch the right wall of a board
/// `width` wide: it is drawn two cells wide.
pub open spec fn touches_wall(pos: Position, is_special: bool, width: u16) -> bool {
    is_special && pos.x == width.wrapping_sub(3)
}

/// The check of `food_candidate` against the food item `food` turns the
/// candidate down.
pub open spec fn rejects(food: Food, pos: Position, is_special: bool, width: u16) -> bool {
    clashes(food, pos, is_special) || touches_wall(pos, is_special, width)
}

/// Some food item of `food_array` turns the candidate down.
pub open spec fn rejected_by_food(food_array: Seq<Food>, pos: Position, is_special: bool, width: u16) -> bool {
    exists|j: int| 0 <= j < food_array.len() && #[trigger] rejects(food_array[j], pos, is_special, width)
}

/// No food item before index `i` turns the candidate down.
pub open spec fn none_rejects_before(
    food_array: Seq<Food>,
    i: int,
    pos: Position,
    is_special: bool,
    width: u16,
) -> bool {
    forall|j: int| 0 <= j < i ==> !#[trigger] rejects(food_array[j], pos, is_special, width)
}

/// The checks of `food_candidate` stay within `u16`: every food item that
/// it reaches (all items until one turns the candidate down) fits.
pub open spec fn candidate_fits(food_array: Seq<Food>, pos: Position, is_special: bool, width: u16) -> bool {
    forall|i: int|
        0 <= i < food_array.len() && none_rejects_before(food_array, i, pos, is_special, width)
            ==> #[trigger] widths_fit(food_array[i], pos, is_special)
}

/// The food a candidate position and kind give, unless the position lies
/// on the snake's body, clashes with a food item already on the board (the
/// same cell, or side by side with a special food, which is drawn two cells
/// wide), or is a special food against the right wall. The wall is checked
/// along with each food item, so with no food on the board it is not.
pub fn food_candidate(
    body: &Vec<Position>,
    width: u16,
    food_array: &Vec<Food>,
    pos: Position,
    is_special: bool,
) -> (r: Option<Food>)
    requires
        candidate_fits(food_array@, pos, is_special, width),
    ensures
        r == if body@.contains(pos) || rejected_by_food(food_array@, pos, is_special, width) {
            None
        } else {
            Some(Food { pos, is_special })
        },
        r matches Some(f) ==> forall|j: int|
            0 <= j < food_array.len() ==> !#[trigger] rejects(food_array@[j], f.pos, f.is_special, width),
{
    if position_in(body, &pos) {
        return None;
    }
    let mut i: usize = 0;
    while i < food_array.len()
        invariant
            i <= food_array.len(),
            candidate_fits(food_array@, pos, is_special, width),
            none_rejects_before(food_array@, i as int, pos, is_special, width),
        decreases food_array.len() - i,
    {
        let food = food_array[i];
        assert(widths_fit(food_array@[i as int], pos, is_special));
        if food.pos == pos {
            assert(rejects(food_array@[i as int], pos, is_special, width));
            return None;
        }
        if (food.is_special || is_special) && food.pos.y == pos.y {
            if food.pos.x + 1 == pos.x {
                assert(rejects(food_array@[i as int], pos, is_special, width));
                return None;
            }
            if pos.x + 1 == food.pos.x {
                assert(rejects(food_array@[i as int], pos, is_special, width));
                return None;
            }
        }
        if pos.x == width.wrapping_sub(3) && is_special {
            assert(rejects(food_array@[i as int], pos, is_special, width));
            return None;
        }
        assert(!rejects(food_array@[i as int], pos, is_special, width));
        i = i + 1;
    }
    Some(Food { pos, is_special })
}

/// The positions a food may be rolled at on a board `width` by `height`:
/// `x` in `1..=width - 3` and `y` in `1..=height - 1`, both wrapping.
pub open spec fn in_food_range(pos: Position, width: u16, height: u16) -> bool {
    &&& 1 <= pos.x <= width.wrapping_sub(3)
    &&& 1 <= pos.y <= height.wrapping_sub(1)
}

/// Every roll of a food on the board passes the checks of `food_candidate`
/// without leaving `u16`, and the ranges of the rolls are not empty.
pub open spec fn can_place_food(width: u16, height: u16, food_array: Seq<Food>) -> bool {
    &&& width != 3
    &&& height != 1
    &&& forall|pos: Position, is_special: bool|
        in_food_range(pos, width, height) ==> #[trigger] candidate_fits(food_array, pos, is_special, width)
}

/// A check that placing food on a board `width` by `height` among
/// `food_array` is safe: the board is at least 4 by 2 and no food item sits
/// at `x == u16::MAX`. (It is stricter than `can_place_food`, which it
/// implies.)
pub fn placement_fits(width: u16, height: u16, food_array: &Vec<Food>) -> (r: bool)
    ensures
        r == (width >= 4 && height >= 2 && forall|i: int| 0 <= i < food_array.len() ==> #[trigger] food_array@[i].pos.x < u16::MAX),
        r ==> can_place_food(width, height, food_array@),
{
    if width < 4 || height < 2 {
        return false;
    }
    let mut i: usize = 0;
    while i < food_array.len()
        invariant
            i <= food_array.len(),
            forall|j: int| 0 <= j < i ==> #[trigger] food_array@[j].pos.x < u16::MAX,
        decreases food_array.len() - i,
    {
        if food_array[i].pos.x == u16::MAX {
            return false;
        }
        i = i + 1;
    }
    assert forall|pos: Position, is_special: bool| in_food_range(pos, width, height) implies
        #[trigger] candidate_fits(food_array@, pos, is_special, width) by {
        assert forall|k: int| 0 <= k < food_array.len() && none_rejects_before(food_array@, k, pos, is_special, width)
            implies #[trigger] widths_fit(food_array@[k], pos, is_special) by {
            assert(food_array@[k].pos.x < u16::MAX);
        }
    }
    true
}

/// Some candidate in the food range of a board `width` by `height`, of
/// either kind, is turned down: its cell is on the snake's `body`, or a food
/// item of `food_array` rejects it.
pub open spec fn range_blocked(body: Seq<Position>, food_array: Seq<Food>, width: u16, height: u16) -> bool {
    exists|pos: Position, is_special: bool|
        in_food_range(pos, width, height) && #[trigger] candidate_blocked(body, food_array, pos, is_special, width)
}

/// The candidate `(pos, is_special)` is turned down by `food_candidate`.
pub open spec fn candidate_blocked(
    body: Seq<Position>,
    food_array: Seq<Food>,
    pos: Position,
    is_special: bool,
    width: u16,
) -> bool {
    body.contains(pos) || rejected_by_food(food_array, pos, is_special, width)
}

/// The inclusive ranges that a new food is rolled from on a board `width`
/// by `height`: `x`, then `y`, then the roll that makes it special when it
/// comes up 0.
pub fn food_roll_bounds(width: u16, height: u16) -> (r: ((u16, u16), (u16, u16), (u16, u16)))
    ensures
        r == ((1u16, width.wrapping_sub(3)), (1u16, height.wrapping_sub(1)), (0u16, SPECIAL_ODDS)),
{
    ((1, width.wrapping_sub(3)), (1, height.wrapping_sub(1)), (0, SPECIAL_ODDS))
}

/// One attempt at placing a new food: rolls a position in the ranges of
/// `food_roll_bounds` and whether it is special (one time in ten), and keeps
/// it unless `food_candidate` turns it down (it lies on the snake's body,
/// clashes with a food item, or is a special food against the right wall).
/// It fails only when the rolled candidate is turned down, so it always
/// succeeds when no candidate of the range is.
pub fn place_food_attempt(body: &Vec<Position>, width: u16, height: u16, food_array: &Vec<Food>) -> (r: Option<Food>)
    requires
        can_place_food(width, height, food_array@),
    ensures
        r matches Some(food) ==> {
            &&& in_food_range(food.pos, width, height)
            &&& !body@.contains(food.pos)
            &&& forall|j: int| 0 <= j < food_array.len()
                ==> !#[trigger] rejects(food_array@[j], food.pos, food.is_special, width)
        },
        r is None ==> range_blocked(body@, food_array@, width, height),
{
    let (x_range, y_range, special_range) = food_roll_bounds(width, height);
    let mut rng: ThreadRng = thread_rng();
    let x = random_between(&mut rng, x_range.0, x_range.1);
    let y = random_between(&mut rng, y_range.0, y_range.1);
    let special_roll = random_between(&mut rng, special_range.0, special_range.1);
    let rolled = rolled_food(x, y, special_roll);
    assert(in_food_range(rolled.pos, width, height));
    assert(candidate_fits(food_array@, rolled.pos, rolled.is_special, width));
    let placed = food_candidate(body, width, food_array, rolled.pos, rolled.is_special);
    assert(placed is None ==> candidate_blocked(body@, food_array@, rolled.pos, rolled.is_special, width));
    placed
}

} // verus!
