//! The layout of the terminal: the size and place of the game area, and how
//! its pieces are drawn.

use vstd::prelude::*;
use crate::position::Position;
use crate::snake::MAX_GAME_WIDTH;

verus! {

/// The rows above the game area: the header and the top border.
pub const HEADER_HEIGHT: u16 = 4;

/// The game area is at least this high (plus its bottom row).
pub const MIN_GAME_HEIGHT: u16 = 10;

/// The game area in a terminal of `cols` by `rows`: at most
/// `MAX_GAME_WIDTH` wide, and the rows below the header less the bottom row,
/// at least `MIN_GAME_HEIGHT - 1` (the subtraction wraps in a terminal fewer
/// than `HEADER_HEIGHT` rows high).
pub fn game_area(cols: u16, rows: u16) -> (r: (u16, u16))
    ensures
        r.0 == if cols < MAX_GAME_WIDTH { cols } else { MAX_GAME_WIDTH },
        r.1 == (if rows.wrapping_sub(HEADER_HEIGHT) < MIN_GAME_HEIGHT {
            MIN_GAME_HEIGHT
        } else {
            rows.wrapping_sub(HEADER_HEIGHT)
        }) - 1,
{
    let game_width = cols.min(MAX_GAME_WIDTH);
    let game_height = rows.wrapping_sub(HEADER_HEIGHT).max(MIN_GAME_HEIGHT) - 1;
    (game_width, game_height)
}

/// The column where the game area starts: the area is centred in the
/// terminal (the subtraction wraps when the area is wider).
pub fn field_offset(cols: u16, game_width: u16) -> (r: u16)
    ensures
        r == cols.wrapping_sub(game_width) / 2,
{
    cols.wrapping_sub(game_width) / 2
}

/// Where the apple decoration sits: ten cells right of the middle, three
/// rows above the top of the `u16` range, where only a snake that wrapped
/// around can reach it.
pub fn apple_position(game_width: u16) -> (r: Position)
    ensures
        r == (Position { x: (game_width / 2 + 10) as u16, y: (u16::MAX - 3) as u16 }),
{
    Position { x: (game_width / 2) + 10, y: u16::MAX - 3 }
}

/// The shade (one of six) of a segment of the rainbow snake at `pos`.
pub fn rainbow_shade(pos: &Position) -> (r: u16)
    requires
        pos.x + pos.y <= u16::MAX,
    ensures
        r == (pos.x + pos.y) % 6,
        r < 6,
{
    (pos.x + pos.y) % 6
}

/// The cells left of a header of `header_len` bytes centred over a game
/// area `game_width` wide (the length is cut to `u16` and the subtraction
/// wraps when the header is wider).
pub fn header_padding(game_width: u16, header_len: usize) -> (r: u16)
    ensures
        r == game_width.wrapping_sub(header_len as u16) / 2,
{
    game_width.wrapping_sub(header_len as u16) / 2
}

/// The width of a printed symbol from the cursor's column before and after
/// printing it: their difference, or 2 when the cursor did not move right
/// (it wrapped, or its position could not be read).
pub fn measured_width(start_x: u16, end_x: u16) -> (r: u16)
    ensures
        r == if end_x > start_x { (end_x - start_x) as u16 } else { 2 },
{
    if end_x > start_x {
        end_x - start_x
    } else {
        2
    }
}

} // verus!
