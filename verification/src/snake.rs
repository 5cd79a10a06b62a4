//! The snake: its body, its heading, its moves and its collisions.

use vstd::prelude::*;
use rand::rngs::ThreadRng;
use crate::position::{
    Direction, Position, are_opposite, heading, lemma_reversal_returns, screen_cell, step,
};
use crate::food::{Food, SPECIAL_ODDS, position_in, rolled_food};
use crate::random::{random_between, thread_rng};

verus! {

/// The game area is at most this wide.
pub const MAX_GAME_WIDTH: u16 = 100;

/// The terminal row of the playing field's top border.
pub const TOP_BORDER_Y: u16 = 3;

/// The snake itself, represented by a list of positions (the head first),
/// its current direction, and the food on the board.
pub struct Snake {
    pub food_array: Vec<Food>,
    pub body: Vec<Position>,
    pub direction: Direction,
    pub is_rainbow: bool,
}

/// The width of the game area in a terminal `cols` columns wide.
pub open spec fn game_width_for(cols: u16) -> u16 {
    if cols < MAX_GAME_WIDTH { cols } else { MAX_GAME_WIDTH }
}

/// The column where the playing field starts in a terminal `cols` columns
/// wide: the game area is centred.
pub open spec fn horizontal_offset(cols: u16) -> u16 {
    ((cols - game_width_for(cols)) / 2) as u16
}

/// Where the head lands when it moves from `head` in direction `dir` in a
/// terminal of `cols` by `rows`: a head that would leave the terminal comes
/// back at its opposite edge.
pub open spec fn wrapped_head(head: Position, dir: Direction, cols: u16, rows: u16) -> Position {
    let next = step(head, dir);
    let dx = (horizontal_offset(cols) + 1) as u16;
    let dy = (TOP_BORDER_Y + 1) as u16;
    let x = if next.x.wrapping_add(dx) > cols {
        let edge: u16 = if dir == Direction::Right { 0 } else { cols };
        edge.wrapping_sub(dx)
    } else {
        next.x
    };
    let y = if next.y.wrapping_add(dy) > rows {
        let edge: u16 = if dir == Direction::Down { 0 } else { rows };
        edge.wrapping_sub(dy)
    } else {
        next.y
    };
    Position { x, y }
}

/// The body of a new snake on a board `width` by `height`: three segments in
/// the middle, the head rightmost.
pub open spec fn starting_body(width: u16, height: u16) -> Seq<Position>
    recommends
        width >= 4,
{
    let x = width / 2;
    let y = height / 2;
    seq![
        Position { x: x as u16, y: y as u16 },
        Position { x: (x - 1) as u16, y: y as u16 },
        Position { x: (x - 2) as u16, y: y as u16 },
    ]
}

/// The food of a new snake lies inside the walls of a board `width` by
/// `height`.
pub open spec fn starting_food_in_walls(food: Food, width: u16, height: u16) -> bool {
    &&& 1 <= food.pos.x <= width - 3
    &&& 1 <= food.pos.y <= height - 2
}

/// The inclusive ranges that the food of a new snake is rolled from on a
/// board `width` by `height`: `x`, then `y`, then the roll that makes it
/// special when it comes up 0.
pub fn starting_food_roll_bounds(width: u16, height: u16) -> (r: ((u16, u16), (u16, u16), (u16, u16)))
    requires
        width >= 3,
        height >= 2,
    ensures
        r == ((1u16, (width - 3) as u16), (1u16, (height - 2) as u16), (0u16, SPECIAL_ODDS)),
{
    ((1, width - 3), (1, height - 2), (0, SPECIAL_ODDS))
}

/// Rolls one food item from the ranges of `starting_food_roll_bounds`:
/// inside the walls, special one time in ten.
fn roll_starting_food(rng: &mut ThreadRng, width: u16, height: u16) -> (r: Food)
    requires
        width >= 4,
        height >= 3,
    ensures
        starting_food_in_walls(r, width, height),
{
    let (x_range, y_range, special_range) = starting_food_roll_bounds(width, height);
    let x = random_between(rng, x_range.0, x_range.1);
    let y = random_between(rng, y_range.0, y_range.1);
    let special_roll = random_between(rng, special_range.0, special_range.1);
    rolled_food(x, y, special_roll)
}

/// The next head position `next` hits a wall of a game area `game_width`
/// wide and `game_height` high: the right wall, the row below the last, or
/// the left or top wall, where a coordinate has wrapped to `u16::MAX`. With
/// the rainbow snake and a score of exactly 32 the walls let it through.
pub open spec fn hits_wall(next: Position, game_width: u16, game_height: u16, is_rainbow: bool, score: u32) -> bool
    recommends
        game_width >= 2,
{
    &&& !(is_rainbow && score == 32)
    &&& {
        ||| next.x == game_width - 2
        ||| next.y == game_height
        ||| next.x == u16::MAX
        ||| next.y == u16::MAX
    }
}

impl Snake {
    /// Creates a new snake of length 3 in the centre of the board, moving
    /// right, with three food items rolled inside the walls.
    pub fn new(width: u16, height: u16) -> (r: Self)
        requires
            width >= 4,
            height >= 3,
        ensures
            r.body@ == starting_body(width, height),
            r.direction == Direction::Right,
            !r.is_rainbow,
            r.food_array.len() == 3,
            forall|i: int| 0 <= i < 3 ==> starting_food_in_walls(#[trigger] r.food_array@[i], width, height),
    {
        let start_x = width / 2;
        let start_y = height / 2;
        let body = vec![
            Position { x: start_x, y: start_y },
            Position { x: start_x - 1, y: start_y },
            Position { x: start_x - 2, y: start_y },
        ];
        let mut rng = thread_rng();
        let first = roll_starting_food(&mut rng, width, height);
        let second = roll_starting_food(&mut rng, width, height);
        let third = roll_starting_food(&mut rng, width, height);
        let food_array = vec![first, second, third];
        Snake { food_array, body, direction: Direction::Right, is_rainbow: false }
    }

    /// Calculates the next position of the snake's head based on its current
    /// direction (each coordinate wraps around the `u16` range).
    pub fn get_next_head_pos(&self) -> (r: Position)
        requires
            self.body.len() > 0,
        ensures
            r == step(self.body@[0], self.direction),
    {
        let head = self.body[0];
        let mut next_pos = head;
        match self.direction {
            Direction::Up => next_pos.y = next_pos.y.wrapping_sub(1),
            Direction::Down => next_pos.y = next_pos.y.wrapping_add(1),
            Direction::Left => next_pos.x = next_pos.x.wrapping_sub(1),
            Direction::Right => next_pos.x = next_pos.x.wrapping_add(1),
        }
        next_pos
    }

    /// Moves the snake one step in its current direction in a terminal of
    /// `cols` by `rows`, wrapping around at the terminal's edges. The new head
    /// goes in front; with `remove_very_end` the last segment is dropped and
    /// returned, else the snake grows and `(0, 0)` is returned.
    pub fn update(&mut self, remove_very_end: bool, cols: u16, rows: u16) -> (r: Position)
        requires
            old(self).body.len() > 0,
        ensures
            final(self).body@ == seq![wrapped_head(old(self).body@[0], old(self).direction, cols, rows)]
                + if remove_very_end { old(self).body@.drop_last() } else { old(self).body@ },
            r == if remove_very_end { old(self).body@.last() } else { Position { x: 0, y: 0 } },
            final(self).direction == old(self).direction,
            final(self).is_rainbow == old(self).is_rainbow,
            final(self).food_array@ == old(self).food_array@,
    {
        let game_width = cols.min(MAX_GAME_WIDTH);
        let h_offset = (cols.wrapping_sub(game_width)) / 2;
        let mut new_head_pos = self.get_next_head_pos();
        let mut draw_x = new_head_pos.x.wrapping_add(h_offset + 1);
        let mut draw_y = new_head_pos.y.wrapping_add(TOP_BORDER_Y + 1);
        if draw_x > cols {
            if self.direction == Direction::Right {
                draw_x = 0;
            } else {
                draw_x = cols;
            }
            new_head_pos.x = draw_x.wrapping_sub(h_offset + 1);
        }
        if draw_y > rows {
            if self.direction == Direction::Down {
                draw_y = 0;
            } else {
                draw_y = rows;
            }
            new_head_pos.y = draw_y.wrapping_sub(TOP_BORDER_Y + 1);
        }
        assert(h_offset == horizontal_offset(cols));
        self.body.insert(0, new_head_pos);
        if remove_very_end {
            let tail = self.body.pop();
            assert(self.body@ =~= seq![new_head_pos] + old(self).body@.drop_last());
            return tail.unwrap();
        }
        Position { x: 0, y: 0 }
    }

    /// Checks for self-collision: the next head position lies on the body.
    pub fn check_for_self_collision(&self) -> (r: bool)
        requires
            self.body.len() > 0,
        ensures
            r == self.body@.contains(step(self.body@[0], self.direction)),
    {
        let next_head_position = self.get_next_head_pos();
        position_in(&self.body, &next_head_position)
    }

    /// Checks for wall collision (see `hits_wall`).
    pub fn check_for_wall_collision(&self, game_width: u16, game_height: u16, game_score: u32) -> (r: bool)
        requires
            !(self.is_rainbow && game_score == 32) ==> self.body.len() > 0 && game_width >= 2,
        ensures
            r == if self.is_rainbow && game_score == 32 {
                false
            } else {
                hits_wall(step(self.body@[0], self.direction), game_width, game_height, self.is_rainbow, game_score)
            },
            !(self.is_rainbow && game_score == 32) ==> r == ({
                let next = step(self.body@[0], self.direction);
                next.x == game_width - 2 || next.y == game_height || next.x == 65535 || next.y == 65535
            }),
            !self.is_rainbow ==> r == ({
                let next = step(self.body@[0], self.direction);
                next.x == game_width - 2 || next.y == game_height || next.x == 65535 || next.y == 65535
            }),
    {
        if self.is_rainbow && game_score == 32 {
            return false;
        }
        let next_head_position = self.get_next_head_pos();
        if next_head_position.x == game_width - 2 || next_head_position.y == game_height {
            return true;
        }
        if next_head_position.x == u16::MAX || next_head_position.y == u16::MAX {
            return true;
        }
        false
    }

    /// Attempts to change the snake's direction, preventing immediate
    /// reversal (e.g., Up to Down).
    pub fn change_direction(&mut self, new_dir: Direction)
        ensures
            final(self).direction == if are_opposite(old(self).direction, new_dir) {
                old(self).direction
            } else {
                new_dir
            },
            !are_opposite(old(self).direction, final(self).direction),
            ({
                let (ox, oy) = heading(old(self).direction);
                let (nx, ny) = heading(new_dir);
                final(self).direction == if ox + nx == 0 && oy + ny == 0 { old(self).direction } else { new_dir }
            }),
            forall|p: Position| step(step(p, old(self).direction), final(self).direction) != p,
            final(self).body@ == old(self).body@,
            final(self).food_array@ == old(self).food_array@,
            final(self).is_rainbow == old(self).is_rainbow,
    {
        let is_opposite = match (self.direction, new_dir) {
            (Direction::Up, Direction::Down) => true,
            (Direction::Down, Direction::Up) => true,
            (Direction::Left, Direction::Right) => true,
            (Direction::Right, Direction::Left) => true,
            _ => false,
        };
        if !is_opposite {
            self.direction = new_dir;
        }
        assert forall|p: Position| step(step(p, old(self).direction), self.direction) != p by {
            lemma_reversal_returns(p, old(self).direction, self.direction);
        }
    }
}

/// Only the rainbow snake at a score of exactly 32 passes through walls:
/// any other snake, whatever its score, hits a wall when its next head is on
/// the right wall, the row below the last, or has wrapped to `u16::MAX`.
pub proof fn lemma_walls_lifted_only_for_rainbow_32(
    next: Position,
    game_width: u16,
    game_height: u16,
    is_rainbow: bool,
    score: u32,
)
    requires
        game_width >= 2,
    ensures
        !(is_rainbow && score == 32) ==> (hits_wall(next, game_width, game_height, is_rainbow, score) <==> (
        next.x == game_width - 2 || next.y == game_height || next.x == 65535 || next.y == 65535)),
        is_rainbow && score == 32 ==> !hits_wall(next, game_width, game_height, is_rainbow, score),
        hits_wall(next, game_width, game_height, false, score) == hits_wall(next, game_width, game_height, false, 0),
{
}

/// The body after a move: the new head in front of the old segments, which
/// keep their order; the snake is one segment longer when it grows and as
/// long as before when it does not.
pub proof fn lemma_moved_body(body: Seq<Position>, head: Position, grow: bool)
    requires
        body.len() > 0,
    ensures
        ({
            let moved = seq![head] + if grow { body } else { body.drop_last() };
            &&& moved.len() == body.len() + if grow { 1int } else { 0int }
            &&& moved[0] == head
            &&& forall|k: int| 0 <= k < moved.len() - 1 ==> moved[k + 1] == #[trigger] body[k]
        }),
{
}

/// Wherever the head wraps to, it is drawn inside the terminal: its screen
/// cell is at most `cols` across and `rows` down.
pub proof fn lemma_wrapped_head_on_screen(head: Position, dir: Direction, cols: u16, rows: u16)
    ensures
        screen_cell(wrapped_head(head, dir, cols, rows), horizontal_offset(cols), TOP_BORDER_Y).0 <= cols,
        screen_cell(wrapped_head(head, dir, cols, rows), horizontal_offset(cols), TOP_BORDER_Y).1 <= rows,
{
}

/// A head whose next cell is drawn inside the terminal does not wrap: it
/// moves to that cell.
pub proof fn lemma_wrapped_head_inside(head: Position, dir: Direction, cols: u16, rows: u16)
    requires
        screen_cell(step(head, dir), horizontal_offset(cols), TOP_BORDER_Y).0 <= cols,
        screen_cell(step(head, dir), horizontal_offset(cols), TOP_BORDER_Y).1 <= rows,
    ensures
        wrapped_head(head, dir, cols, rows) == step(head, dir),
{
}

} // verus!
