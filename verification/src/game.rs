//! The game: its board, its snake, its score, and what one tick of play does.

use vstd::prelude::*;
use crate::position::{Direction, Position, step};
use crate::food::{Food, check_for_special_food_collision, in_food_range, right_of};
use crate::snake::{Snake, hits_wall, starting_body, starting_food_in_walls, wrapped_head};
use crate::tick::TickRate;

verus! {

/// Holds the main game state and configuration.
pub struct Game {
    pub width: u16,
    pub height: u16,
    pub snake: Snake,
    pub score: u32,
    pub high_score: u32,
    pub is_game_over: bool,
    pub is_won: bool,
    pub star_is_double: bool,
}

/// The head moving to `next` eats `food`: it lands on the food, or on the
/// cell right of a special food drawn two cells wide.
pub open spec fn eats(food: Food, next: Position, star_is_double: bool) -> bool {
    ||| next == food.pos
    ||| (food.is_special && star_is_double && next == right_of(food.pos))
}

/// The index of the first food item in `foods` that the head moving to
/// `next` eats, if any.
pub open spec fn first_eaten(foods: Seq<Food>, next: Position, star_is_double: bool) -> Option<int>
    decreases foods.len(),
{
    if foods.len() == 0 {
        None
    } else {
        match first_eaten(foods.drop_last(), next, star_is_double) {
            Some(i) => Some(i),
            None => if eats(foods.last(), next, star_is_double) {
                Some(foods.len() - 1)
            } else {
                None
            },
        }
    }
}

/// The points a food item is worth.
pub open spec fn points(food: Food) -> u32 {
    if food.is_special { 3 } else { 1 }
}

/// Searching `foods` for the first one eaten stays within `u16` when it
/// compares the cell right of a special food.
pub open spec fn search_fits(foods: Seq<Food>, next: Position, star_is_double: bool) -> bool {
    forall|i: int|
        0 <= i < foods.len() && first_eaten(foods.take(i), next, star_is_double) is None
            && foods[i].pos != next && foods[i].is_special && star_is_double
            ==> #[trigger] foods[i].pos.x < u16::MAX
}

proof fn lemma_first_eaten_bounds(foods: Seq<Food>, next: Position, star_is_double: bool)
    ensures
        first_eaten(foods, next, star_is_double) matches Some(i) ==> {
            &&& 0 <= i < foods.len()
            &&& eats(foods[i], next, star_is_double)
            &&& first_eaten(foods.take(i), next, star_is_double) is None
        },
    decreases foods.len(),
{
    if foods.len() > 0 {
        lemma_first_eaten_bounds(foods.drop_last(), next, star_is_double);
        if let Some(i) = first_eaten(foods.drop_last(), next, star_is_double) {
            assert(foods.drop_last().take(i) =~= foods.take(i));
        } else {
            assert(foods.take(foods.len() - 1) =~= foods.drop_last());
        }
    }
}

/// The index of the first food item that the head moving to `next` eats.
pub fn first_food_eaten(foods: &Vec<Food>, next: &Position, star_is_double: bool) -> (r: Option<usize>)
    requires
        search_fits(foods@, *next, star_is_double),
    ensures
        r matches Some(i) ==> first_eaten(foods@, *next, star_is_double) == Some(i as int),
        r is None ==> first_eaten(foods@, *next, star_is_double) is None,
        r matches Some(i) ==> {
            ||| *next == foods@[i as int].pos
            ||| (foods@[i as int].is_special && star_is_double && next.y == foods@[i as int].pos.y
                && next.x == foods@[i as int].pos.x + 1)
        },
        r matches Some(i) ==> forall|j: int| 0 <= j < i ==> !{
            ||| *next == (#[trigger] foods@[j]).pos
            ||| (foods@[j].is_special && star_is_double && next.y == foods@[j].pos.y && next.x == foods@[j].pos.x + 1)
        },
        r is None ==> forall|j: int| 0 <= j < foods.len() ==> !{
            ||| *next == (#[trigger] foods@[j]).pos
            ||| (foods@[j].is_special && star_is_double && next.y == foods@[j].pos.y && next.x == foods@[j].pos.x + 1)
        },
{
    let mut i: usize = 0;
    while i < foods.len()
        invariant
            i <= foods.len(),
            search_fits(foods@, *next, star_is_double),
            first_eaten(foods@.take(i as int), *next, star_is_double) is None,
            forall|j: int| 0 <= j < i ==> !{
                ||| *next == (#[trigger] foods@[j]).pos
                ||| (foods@[j].is_special && star_is_double && next.y == foods@[j].pos.y && next.x == foods@[j].pos.x + 1)
            },
        decreases foods.len() - i,
    {
        let food = foods[i];
        assert(foods@.take(i + 1).drop_last() =~= foods@.take(i as int));
        if *next == food.pos || check_for_special_food_collision(&food, next, star_is_double) {
            assert(first_eaten(foods@.take(i + 1), *next, star_is_double) == Some(i as int));
            proof { lemma_first_eaten_prefix(foods@, *next, star_is_double, i + 1); }
            return Some(i);
        }
        assert(first_eaten(foods@.take(i + 1), *next, star_is_double) is None);
        i = i + 1;
    }
    assert(foods@.take(foods.len() as int) =~= foods@);
    None
}

/// Which cells eat a food item: its own cell and, for a special food drawn
/// two cells wide, the cell right of it in its row; no other cell, in
/// particular not the cell left of it.
pub proof fn lemma_eating_cells(food: Food, next: Position, star_is_double: bool)
    ensures
        next == food.pos ==> eats(food, next, star_is_double),
        food.is_special && star_is_double && next.y == food.pos.y && next.x == food.pos.x + 1
            ==> eats(food, next, star_is_double),
        !food.is_special || !star_is_double ==> (eats(food, next, star_is_double) <==> next == food.pos),
        food.pos.x < u16::MAX ==> (eats(food, next, star_is_double) <==> {
            ||| next == food.pos
            ||| (food.is_special && star_is_double && next.y == food.pos.y && next.x == food.pos.x + 1)
        }),
        next.x + 1 == food.pos.x ==> !eats(food, next, star_is_double),
        next.y != food.pos.y ==> !eats(food, next, star_is_double),
{
    let x = food.pos.x;
    if x == u16::MAX {
        assert(((x + 1) as u16) == 0u16) by (bit_vector)
            requires
                x == 0xffffu16,
        ;
    }
}

/// A food item eaten in a prefix of `foods` is the first one eaten in all of it.
proof fn lemma_first_eaten_prefix(foods: Seq<Food>, next: Position, star_is_double: bool, n: int)
    requires
        0 <= n <= foods.len(),
        first_eaten(foods.take(n), next, star_is_double) is Some,
    ensures
        first_eaten(foods, next, star_is_double) == first_eaten(foods.take(n), next, star_is_double),
    decreases foods.len() - n,
{
    if n < foods.len() {
        assert(foods.take(n + 1).drop_last() =~= foods.take(n));
        lemma_first_eaten_prefix(foods, next, star_is_double, n + 1);
    } else {
        assert(foods.take(n) =~= foods);
    }
}

impl Game {
    /// A new game on a board `width` by `height` with a fresh snake, no
    /// points yet, and the best score so far.
    pub fn new(width: u16, height: u16, high_score: u32, star_double: bool) -> (r: Self)
        requires
            width >= 4,
            height >= 3,
        ensures
            r.width == width,
            r.height == height,
            r.score == 0,
            r.high_score == high_score,
            !r.is_game_over,
            !r.is_won,
            r.star_is_double == star_double,
            r.snake.body@ == starting_body(width, height),
            r.snake.direction == Direction::Right,
            !r.snake.is_rainbow,
            r.snake.food_array.len() == 3,
            forall|i: int| 0 <= i < 3 ==> starting_food_in_walls(#[trigger] r.snake.food_array@[i], width, height),
    {
        Game {
            width,
            height,
            snake: Snake::new(width, height),
            score: 0,
            high_score,
            is_game_over: false,
            is_won: false,
            star_is_double: star_double,
        }
    }
}

impl Game {
    /// The cell the head moves to next.
    pub open spec fn next_head(self) -> Position {
        step(self.snake.body@[0], self.snake.direction)
    }

    /// The index of the food item that the head eats on its next move.
    pub open spec fn food_eaten(self) -> Option<int> {
        first_eaten(self.snake.food_array@, self.next_head(), self.star_is_double)
    }

    /// Every food that `replacement` can return for this game lies in the
    /// board's food range and off the snake's body.
    pub open spec fn places_food_off_body<F: FnOnce(&Vec<Position>, u16, u16, &Vec<Food>) -> Food>(self, replacement: F) -> bool {
        forall|f: Food|
            call_ensures(
                replacement,
                (&self.snake.body, self.width, self.height, &self.snake.food_array),
                f,
            ) ==> in_food_range(f.pos, self.width, self.height) && !self.snake.body@.contains(f.pos)
    }

    /// Checks for food collision, and handles eating: the first food item
    /// that the head's next move lands on is replaced by the food that
    /// `replacement` places (given the body, the board's size and the food
    /// on the board; it must place food in the board's food range and off
    /// the body), and the score grows by 3 for a special food, by 1
    /// otherwise. Returns `false` when food was eaten, `true` when not.
    pub fn check_for_food_collision<F>(&mut self, replacement: F) -> (r: bool)
        where
            F: FnOnce(&Vec<Position>, u16, u16, &Vec<Food>) -> Food,
        requires
            old(self).snake.body.len() > 0,
            search_fits(old(self).snake.food_array@, old(self).next_head(), old(self).star_is_double),
            old(self).food_eaten() matches Some(i) ==> {
                &&& old(self).score + points(old(self).snake.food_array@[i]) <= u32::MAX
                &&& call_requires(
                    replacement,
                    (&old(self).snake.body, old(self).width, old(self).height, &old(self).snake.food_array),
                )
                &&& old(self).places_food_off_body(replacement)
            },
        ensures
            r == old(self).food_eaten() is None,
            r == forall|j: int| 0 <= j < old(self).snake.food_array.len() ==> !{
                let food = #[trigger] old(self).snake.food_array@[j];
                let next = step(old(self).snake.body@[0], old(self).snake.direction);
                ||| next == food.pos
                ||| (food.is_special && old(self).star_is_double && next.y == food.pos.y && next.x == food.pos.x + 1)
            },
            old(self).food_eaten() is None ==> *final(self) == *old(self),
            old(self).food_eaten() matches Some(i) ==> {
                &&& final(self).snake.food_array.len() == old(self).snake.food_array.len()
                &&& forall|j: int| 0 <= j < old(self).snake.food_array.len() && j != i
                    ==> final(self).snake.food_array@[j] == old(self).snake.food_array@[j]
                &&& call_ensures(
                    replacement,
                    (&old(self).snake.body, old(self).width, old(self).height, &old(self).snake.food_array),
                    final(self).snake.food_array@[i],
                )
                &&& in_food_range(final(self).snake.food_array@[i].pos, old(self).width, old(self).height)
                &&& !old(self).snake.body@.contains(final(self).snake.food_array@[i].pos)
                &&& final(self).score == old(self).score + points(old(self).snake.food_array@[i])
                &&& final(self).snake.body@ == old(self).snake.body@
                &&& final(self).snake.direction == old(self).snake.direction
                &&& final(self).snake.is_rainbow == old(self).snake.is_rainbow
                &&& final(self).width == old(self).width
                &&& final(self).height == old(self).height
                &&& final(self).high_score == old(self).high_score
                &&& final(self).is_game_over == old(self).is_game_over
                &&& final(self).is_won == old(self).is_won
                &&& final(self).star_is_double == old(self).star_is_double
            },
    {
        let next_head_position = self.snake.get_next_head_pos();
        let star_is_double = self.star_is_double;
        let food_index = first_food_eaten(&self.snake.food_array, &next_head_position, star_is_double);
        if let Some(idx) = food_index {
            proof { lemma_first_eaten_bounds(self.snake.food_array@, next_head_position, star_is_double); }
            let is_special = self.snake.food_array[idx].is_special;
            let new_food_item = replacement(&self.snake.body, self.width, self.height, &self.snake.food_array);
            self.snake.food_array.set(idx, new_food_item);
            self.score += if is_special { 3 } else { 1 };
            return false;
        }
        true
    }
}

impl Game {
    /// Whether one tick of play on this game stays within its integer types:
    /// the body is not empty, the area is at least 2 wide, the search for the
    /// food eaten never compares the cell right of a special food at
    /// `u16::MAX`, and the points of the food eaten fit the score. (What the
    /// new food is placed by is the caller's to check.)
    pub fn tick_fits(&self) -> (r: bool)
        ensures
            r == {
                &&& self.snake.body.len() > 0
                &&& self.width >= 2
                &&& search_fits(self.snake.food_array@, self.next_head(), self.star_is_double)
                &&& self.food_eaten() matches Some(i) ==> self.score + points(self.snake.food_array@[i]) <= u32::MAX
            },
    {
        if self.snake.body.len() == 0 || self.width < 2 {
            return false;
        }
        let next = self.snake.get_next_head_pos();
        let foods = &self.snake.food_array;
        let star_is_double = self.star_is_double;
        let mut i: usize = 0;
        while i < foods.len()
            invariant
                i <= foods.len(),
                foods@ == self.snake.food_array@,
                self.snake.body.len() > 0,
                self.width >= 2,
                next == self.next_head(),
                star_is_double == self.star_is_double,
                first_eaten(foods@.take(i as int), next, star_is_double) is None,
                forall|j: int|
                    0 <= j < i && first_eaten(foods@.take(j), next, star_is_double) is None
                        && foods@[j].pos != next && foods@[j].is_special && star_is_double
                        ==> #[trigger] foods@[j].pos.x < u16::MAX,
            decreases foods.len() - i,
        {
            let food = foods[i];
            assert(foods@.take(i + 1).drop_last() =~= foods@.take(i as int));
            if next != food.pos && food.is_special && star_is_double && food.pos.x == u16::MAX {
                return false;
            }
            if next == food.pos || (food.is_special && star_is_double && next == Position {
                x: food.pos.x + 1,
                y: food.pos.y,
            }) {
                assert(first_eaten(foods@.take(i + 1), next, star_is_double) == Some(i as int));
                proof {
                    lemma_first_eaten_prefix(foods@, next, star_is_double, i + 1);
                    lemma_first_eaten_bounds(foods@, next, star_is_double);
                    assert forall|j: int|
                        0 <= j < foods@.len() && first_eaten(foods@.take(j), next, star_is_double) is None
                            && foods@[j].pos != next && foods@[j].is_special && star_is_double
                            implies #[trigger] foods@[j].pos.x < u16::MAX by {
                        if j > i {
                            lemma_first_eaten_prefix(foods@.take(j), next, star_is_double, i + 1);
                            assert(foods@.take(j).take(i + 1) =~= foods@.take(i + 1));
                        }
                    }
                }
                assert(self.food_eaten() == Some(i as int));
                assert(search_fits(self.snake.food_array@, self.next_head(), self.star_is_double));
                let gain: u32 = if food.is_special { 3 } else { 1 };
                assert(gain == points(self.snake.food_array@[i as int]));
                return self.score <= u32::MAX - gain;
            }
            assert(first_eaten(foods@.take(i + 1), next, star_is_double) is None);
            i = i + 1;
        }
        assert(foods@.take(foods.len() as int) =~= foods@);
        true
    }
}

/// What one tick of play did: the cell the tail left (`(0, 0)` when the
/// snake grew) and whether the snake ate.
#[derive(Clone, Copy, Debug, PartialEq, Eq, Structural)]
pub struct TickOutcome {
    pub tail: Position,
    pub ate: bool,
}

impl Game {
    /// The score after the head's next move eats (or not).
    pub open spec fn score_after_eating(self) -> u32 {
        match self.food_eaten() {
            Some(i) => (self.score + points(self.snake.food_array@[i])) as u32,
            None => self.score,
        }
    }

    /// The requirements of one tick of play on a game that is not over.
    pub open spec fn can_advance<F: FnOnce(&Vec<Position>, u16, u16, &Vec<Food>) -> Food>(self, replacement: F) -> bool {
        &&& self.snake.body.len() > 0
        &&& self.width >= 2
        &&& search_fits(self.snake.food_array@, self.next_head(), self.star_is_double)
        &&& self.food_eaten() matches Some(i) ==> {
            &&& self.score + points(self.snake.food_array@[i]) <= u32::MAX
            &&& call_requires(
                replacement,
                (&self.snake.body, self.width, self.height, &self.snake.food_array),
            )
            &&& self.places_food_off_body(replacement)
        }
    }

    /// One tick of play, unless the game is over (then nothing changes and
    /// the result is `None`): the snake eats the food its head moves onto
    /// (a new food item, placed by `replacement` in the food range and off
    /// the body, takes its place, the score grows and the game speeds up); moving onto `apple_decoration_pos` wins the game and sets the
    /// score to `u32::MAX`; the game is over when the head moves onto a wall
    /// or onto the body; then the snake moves in a terminal of `cols` by
    /// `rows`, growing by one segment when it ate.
    pub fn advance<F>(
        &mut self,
        tick_rate: &mut TickRate,
        replacement: F,
        cols: u16,
        rows: u16,
        apple_decoration_pos: Position,
    ) -> (r: Option<TickOutcome>)
        where
            F: FnOnce(&Vec<Position>, u16, u16, &Vec<Food>) -> Food,
        requires
            !old(self).is_game_over ==> old(self).can_advance(replacement),
        ensures
            old(self).is_game_over ==> {
                &&& r is None
                &&& *final(self) == *old(self)
                &&& final(tick_rate)@ == old(tick_rate)@
            },
            !old(self).is_game_over ==> {
                let g = *old(self);
                let next = g.next_head();
                let ate = g.food_eaten() is Some;
                let won = next == apple_decoration_pos;
                let score = if won { u32::MAX } else { g.score_after_eating() };
                &&& r == Some(TickOutcome {
                    tail: if ate { Position { x: 0, y: 0 } } else { g.snake.body@.last() },
                    ate,
                })
                &&& final(tick_rate)@ == if ate { old(tick_rate)@.decreased() } else { old(tick_rate)@ }
                &&& final(self).score == score
                &&& final(self).is_won == (g.is_won || won)
                &&& final(self).is_game_over == (hits_wall(
                    next,
                    g.width,
                    g.height,
                    g.snake.is_rainbow,
                    score,
                ) || g.snake.body@.contains(next))
                &&& final(self).snake.body@ == seq![wrapped_head(g.snake.body@[0], g.snake.direction, cols, rows)]
                    + if ate { g.snake.body@ } else { g.snake.body@.drop_last() }
                &&& final(self).snake.food_array.len() == g.snake.food_array.len()
                &&& forall|j: int| 0 <= j < g.snake.food_array.len() && Some(j) != g.food_eaten()
                    ==> final(self).snake.food_array@[j] == g.snake.food_array@[j]
                &&& g.food_eaten() matches Some(i) ==> {
                    &&& call_ensures(
                        replacement,
                        (&g.snake.body, g.width, g.height, &g.snake.food_array),
                        final(self).snake.food_array@[i],
                    )
                    &&& in_food_range(final(self).snake.food_array@[i].pos, g.width, g.height)
                    &&& !g.snake.body@.contains(final(self).snake.food_array@[i].pos)
                }
                &&& final(self).snake.direction == g.snake.direction
                &&& final(self).snake.is_rainbow == g.snake.is_rainbow
                &&& final(self).width == g.width
                &&& final(self).height == g.height
                &&& final(self).high_score == g.high_score
                &&& final(self).star_is_double == g.star_is_double
            },
    {
        if self.is_game_over {
            return None;
        }
        let mut remove_end_of_tail = true;
        if !self.check_for_food_collision(replacement) {
            remove_end_of_tail = false;
            tick_rate.decrease();
        }
        if self.snake.get_next_head_pos() == apple_decoration_pos {
            self.is_won = true;
            self.score = u32::MAX;
        }
        self.is_game_over = self.snake.check_for_wall_collision(self.width, self.height, self.score);
        self.is_game_over = self.is_game_over || self.snake.check_for_self_collision();
        let tail_pos = self.snake.update(remove_end_of_tail, cols, rows);
        Some(TickOutcome { tail: tail_pos, ate: !remove_end_of_tail })
    }
}

impl Game {
    /// The score beats the best score so far.
    pub fn beats_high_score(&self) -> (r: bool)
        ensures
            r == (self.high_score < self.score),
    {
        self.high_score < self.score
    }

    /// The best score so far, counting this game's score.
    pub fn best_score(&self) -> (r: u32)
        ensures
            r == if self.high_score < self.score { self.score } else { self.high_score },
            r >= self.high_score,
            r >= self.score,
    {
        if self.high_score < self.score {
            self.score
        } else {
            self.high_score
        }
    }

    /// Keeps this game's score as the best score when it beats it.
    pub fn record_high_score(&mut self)
        ensures
            final(self).high_score == if old(self).high_score < old(self).score {
                old(self).score
            } else {
                old(self).high_score
            },
            final(self).score == old(self).score,
            final(self).is_game_over == old(self).is_game_over,
            final(self).is_won == old(self).is_won,
    {
        if self.high_score < self.score {
            self.high_score = self.score;
        }
    }

    /// Records a won game: its score becomes the best score.
    pub fn record_win(&mut self)
        ensures
            final(self).high_score == old(self).score,
            final(self).score == old(self).score,
            final(self).is_game_over == old(self).is_game_over,
            final(self).is_won == old(self).is_won,
    {
        self.high_score = self.score;
    }

    /// A new game on a board `width` by `height` that keeps the best score
    /// so far and how wide the special food is drawn.
    pub fn restarted(&self, width: u16, height: u16) -> (r: Game)
        requires
            width >= 4,
            height >= 3,
        ensures
            r.width == width,
            r.height == height,
            r.score == 0,
            r.high_score == if self.high_score < self.score { self.score } else { self.high_score },
            !r.is_game_over,
            !r.is_won,
            r.star_is_double == self.star_is_double,
            r.snake.body@ == starting_body(width, height),
            r.snake.direction == Direction::Right,
            !r.snake.is_rainbow,
            r.snake.food_array.len() == 3,
            forall|i: int| 0 <= i < 3 ==> starting_food_in_walls(#[trigger] r.snake.food_array@[i], width, height),
    {
        Game::new(width, height, self.best_score(), self.star_is_double)
    }
}

/// Eating never lowers the score: it grows by the points of the food eaten.
pub proof fn lemma_eating_raises_score(g: Game)
    requires
        g.food_eaten() matches Some(i) ==> g.score + points(g.snake.food_array@[i]) <= u32::MAX,
    ensures
        g.score_after_eating() >= g.score,
        g.food_eaten() is Some ==> g.score_after_eating() > g.score,
{
}

} // verus!
