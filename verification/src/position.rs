//! Board coordinates, directions of travel and the mapping of game
//! coordinates to terminal cells.

use vstd::prelude::*;

verus! {

/// Represents a 2D coordinate for the snake and food.
#[derive(Clone, Copy, Debug, PartialEq, Eq, Structural)]
pub struct Position {
    pub x: u16,
    pub y: u16,
}

/// Represents the direction of movement.
#[derive(Clone, Copy, Debug, PartialEq, Eq, Structural)]
pub enum Direction {
    Up,
    Down,
    Left,
    Right,
}

/// The two directions point opposite ways.
pub open spec fn are_opposite(a: Direction, b: Direction) -> bool {
    match (a, b) {
        (Direction::Up, Direction::Down) => true,
        (Direction::Down, Direction::Up) => true,
        (Direction::Left, Direction::Right) => true,
        (Direction::Right, Direction::Left) => true,
        _ => false,
    }
}

/// The step a direction makes on each axis (y grows downwards).
pub open spec fn heading(d: Direction) -> (int, int) {
    match d {
        Direction::Up => (0, -1),
        Direction::Down => (0, 1),
        Direction::Left => (-1, 0),
        Direction::Right => (1, 0),
    }
}

/// The direction travels along the y axis.
pub open spec fn is_vertical(d: Direction) -> bool {
    d == Direction::Up || d == Direction::Down
}

/// The cell one step from `p` in direction `d`; each coordinate wraps
/// around the `u16` range (y grows downwards).
pub open spec fn step(p: Position, d: Direction) -> Position {
    match d {
        Direction::Up => Position { x: p.x, y: p.y.wrapping_sub(1) },
        Direction::Down => Position { x: p.x, y: p.y.wrapping_add(1) },
        Direction::Left => Position { x: p.x.wrapping_sub(1), y: p.y },
        Direction::Right => Position { x: p.x.wrapping_add(1), y: p.y },
    }
}

/// The terminal cell that shows the game cell `p` when the playing field's
/// frame starts at column `h_offset` and row `v_offset`.
pub open spec fn screen_cell(p: Position, h_offset: u16, v_offset: u16) -> (u16, u16)
    recommends
        h_offset < u16::MAX,
        v_offset < u16::MAX,
{
    (p.x.wrapping_add((h_offset + 1) as u16), p.y.wrapping_add((v_offset + 1) as u16))
}

/// Two directions are opposite exactly when their steps cancel out: the
/// pairs Up/Down, Down/Up, Left/Right and Right/Left.
pub proof fn lemma_opposite_by_heading(a: Direction, b: Direction)
    ensures
        are_opposite(a, b) <==> (heading(a).0 + heading(b).0 == 0 && heading(a).1 + heading(b).1 == 0),
        are_opposite(a, b) <==> {
            ||| (a == Direction::Up && b == Direction::Down)
            ||| (a == Direction::Down && b == Direction::Up)
            ||| (a == Direction::Left && b == Direction::Right)
            ||| (a == Direction::Right && b == Direction::Left)
        },
{
}

/// A step in `b` right after a step in `a` leads back to the start cell
/// exactly when `b` is the reverse of `a`.
pub proof fn lemma_reversal_returns(p: Position, a: Direction, b: Direction)
    ensures
        are_opposite(a, b) <==> step(step(p, a), b) == p,
{
}

impl Position {
    /// Translates game coordinates to terminal coordinates: one past the
    /// frame's offset on each axis, wrapping around the `u16` range.
    pub fn to_screen(&self, h_offset: u16, v_offset: u16) -> (r: (u16, u16))
        requires
            h_offset < u16::MAX,
            v_offset < u16::MAX,
        ensures
            r == screen_cell(*self, h_offset, v_offset),
    {
        let draw_x = self.x.wrapping_add(h_offset + 1);
        let draw_y = self.y.wrapping_add(v_offset + 1);
        (draw_x, draw_y)
    }
}

} // verus!
