//! Where the lines of a message go on the screen: a message too long for
//! the playing field is cut into lines of the field's width.

use vstd::prelude::*;
use crate::game::Game;
use crate::snake::horizontal_offset;

verus! {

/// The first terminal row a message is written on.
pub const MESSAGE_ROW: u16 = 5;

/// One line of a message: the bytes `start..end` of the message, written
/// from `column` on `row`.
#[derive(Clone, Copy, Debug, PartialEq, Eq, Structural)]
pub struct MessageLine {
    pub column: u16,
    pub row: u16,
    pub start: usize,
    pub end: usize,
}

/// How many characters fit on a line of a field `width` wide, keeping
/// `offset_from_wall` cells clear of each wall: the width less the two walls
/// and the two margins, stopping at 0.
pub open spec fn capacity(width: u16, offset_from_wall: u16) -> int {
    let inner: int = if width >= 2 { width - 2 } else { 0 };
    if inner >= 2 * offset_from_wall { inner - 2 * offset_from_wall } else { 0 }
}

/// The width of the lines a long message is cut into (at least 1).
pub open spec fn wrap_width(width: u16, offset_from_wall: u16) -> int {
    if capacity(width, offset_from_wall) > 0 { capacity(width, offset_from_wall) } else { 1 }
}

/// How many lines a message of `len` bytes needs at `w` bytes a line.
pub open spec fn lines_needed(len: int, w: int) -> int
    recommends
        w > 0,
{
    (len + w - 1) / w
}

/// The `i`-th line of a long message of `len` bytes cut at `w` bytes.
pub open spec fn wrapped_line(i: int, len: int, w: int, offset_from_wall: u16) -> MessageLine {
    MessageLine {
        column: (offset_from_wall + 1) as u16,
        row: (MESSAGE_ROW + i) as u16,
        start: (i * w) as usize,
        end: (if (i + 1) * w < len { (i + 1) * w } else { len }) as usize,
    }
}

/// The lines a message of `len` bytes is written in on a field `width`
/// wide, in a terminal `cols` wide: one line after the centred field's
/// margin when it fits; else lines of `wrap_width` bytes from row
/// `MESSAGE_ROW` down, as many as the message needs (counted modulo 2^16,
/// as a `u16` counts the rows).
pub open spec fn message_lines(width: u16, len: int, offset_from_wall: u16, cols: u16) -> Seq<MessageLine> {
    if len > capacity(width, offset_from_wall) {
        let w = wrap_width(width, offset_from_wall);
        Seq::new(
            (lines_needed(len, w) % 0x10000) as nat,
            |i: int| wrapped_line(i, len, w, offset_from_wall),
        )
    } else {
        seq![
            MessageLine {
                column: (offset_from_wall + 1 + horizontal_offset(cols)) as u16,
                row: MESSAGE_ROW,
                start: 0,
                end: len as usize,
            },
        ]
    }
}

/// Laying a message out stays within the integer types it is computed in.
pub open spec fn message_fits(width: u16, len: int, offset_from_wall: u16, cols: u16) -> bool {
    if len > capacity(width, offset_from_wall) {
        &&& offset_from_wall < u16::MAX
        &&& len + wrap_width(width, offset_from_wall) <= usize::MAX
        &&& MESSAGE_ROW + lines_needed(len, wrap_width(width, offset_from_wall)) % 0x10000 <= u16::MAX
    } else {
        offset_from_wall + 1 + horizontal_offset(cols) <= u16::MAX
    }
}

proof fn lemma_lines_needed(len: int, w: int)
    requires
        len > 0,
        w > 0,
    ensures
        lines_needed(len, w) >= 1,
        lines_needed(len, w) * w >= len,
        (lines_needed(len, w) - 1) * w < len,
{
    let t = lines_needed(len, w);
    assert(t * w <= len + w - 1 && len + w - 1 < t * w + w) by (nonlinear_arith)
        requires
            t == (len + w - 1) / w,
            w > 0,
            len > 0,
    ;
    assert((t - 1) * w == t * w - w) by (nonlinear_arith);
    assert(t >= 1) by (nonlinear_arith)
        requires
            t * w >= len,
            len > 0,
            w > 0,
    ;
}

proof fn lemma_mul_le(a: int, b: int, w: int)
    requires
        a <= b,
        w >= 0,
    ensures
        a * w <= b * w,
{
    assert(a * w <= b * w) by (nonlinear_arith)
        requires
            a <= b,
            w >= 0,
    ;
}

/// A long message is cut into lines that follow one another without gap or
/// overlap, each at most `wrap_width` bytes and one row below the last; when
/// the line count fits a `u16` the lines cover the whole message.
pub proof fn lemma_wrapped_lines_cover(width: u16, len: int, offset_from_wall: u16, cols: u16)
    requires
        len > capacity(width, offset_from_wall),
        len + wrap_width(width, offset_from_wall) <= usize::MAX,
        MESSAGE_ROW + lines_needed(len, wrap_width(width, offset_from_wall)) % 0x10000 <= u16::MAX,
    ensures
        ({
            let lines = message_lines(width, len, offset_from_wall, cols);
            let w = wrap_width(width, offset_from_wall);
            &&& lines.len() > 0 ==> lines[0].start == 0
            &&& forall|i: int| 0 <= i < lines.len() ==> {
                &&& (#[trigger] lines[i]).start < lines[i].end <= len
                &&& lines[i].end - lines[i].start <= w
                &&& lines[i].row == MESSAGE_ROW + i
            }
            &&& forall|i: int| 0 <= i < lines.len() - 1 ==> (#[trigger] lines[i]).end == lines[i + 1].start
            &&& lines_needed(len, w) < 0x10000 ==> lines.len() == lines_needed(len, w) && lines.last().end == len
        }),
{
    let w = wrap_width(width, offset_from_wall);
    let t = lines_needed(len, w);
    let lines = message_lines(width, len, offset_from_wall, cols);
    lemma_lines_needed(len, w);
    assert forall|i: int| 0 <= i < lines.len() implies {
        &&& (#[trigger] lines[i]).start < lines[i].end <= len
        &&& lines[i].end - lines[i].start <= w
        &&& lines[i].row == MESSAGE_ROW + i
    } by {
        lemma_mul_le(i, t - 1, w);
        assert((i + 1) * w == i * w + w) by (nonlinear_arith);
        assert(i * w >= 0) by (nonlinear_arith) requires i >= 0, w > 0;
    }
    assert forall|i: int| 0 <= i < lines.len() - 1 implies (#[trigger] lines[i]).end == lines[i + 1].start by {
        lemma_mul_le(i + 1, t - 1, w);
        assert((i + 1) * w == i * w + w) by (nonlinear_arith);
    }
    if t < 0x10000 {
        assert((t - 1 + 1) * w == t * w);
    }
}

impl Game {
    /// Whether a message of `what_len` bytes is cut into several lines.
    pub fn message_wraps(&self, what_len: usize, offset_from_wall: u16) -> (r: bool)
        ensures
            r == (what_len > capacity(self.width, offset_from_wall)),
    {
        let line_capacity: usize = (self.width as usize).saturating_sub(2).saturating_sub(
            2 * offset_from_wall as usize,
        );
        what_len > line_capacity
    }

    /// Whether laying out a message of `what_len` bytes stays within the
    /// integer types it is computed in (see `message_fits`).
    pub fn message_layout_fits(&self, what_len: usize, offset_from_wall: u16, cols: u16) -> (r: bool)
        ensures
            r == message_fits(self.width, what_len as int, offset_from_wall, cols),
    {
        let line_capacity: usize = (self.width as usize).saturating_sub(2).saturating_sub(
            2 * offset_from_wall as usize,
        );
        if what_len > line_capacity {
            let w: usize = if line_capacity > 1 { line_capacity } else { 1 };
            if offset_from_wall == u16::MAX || what_len > usize::MAX - w {
                return false;
            }
            let total_lines = (what_len + w - 1) / w;
            assert((total_lines as u16) == total_lines % 0x10000) by (bit_vector);
            (total_lines as u16) <= u16::MAX - MESSAGE_ROW
        } else {
            let game_width = cols.min(100);
            let h_offset = (cols.wrapping_sub(game_width)) / 2;
            offset_from_wall < u16::MAX && h_offset <= u16::MAX - 1 - offset_from_wall
        }
    }

    /// Where each line of a message of `what_len` bytes goes, keeping
    /// `offset_from_wall` cells clear of the walls, in a terminal `cols`
    /// wide (see `message_lines`).
    pub fn message_layout(&self, what_len: usize, offset_from_wall: u16, cols: u16) -> (r: Vec<MessageLine>)
        requires
            message_fits(self.width, what_len as int, offset_from_wall, cols),
        ensures
            r@ == message_lines(self.width, what_len as int, offset_from_wall, cols),
    {
        let line_capacity: usize = (self.width as usize).saturating_sub(2).saturating_sub(
            2 * offset_from_wall as usize,
        );
        if what_len > line_capacity {
            assert(line_capacity == capacity(self.width, offset_from_wall));
            let line_capacity: usize = if line_capacity > 1 { line_capacity } else { 1 };
            let ghost w: int = line_capacity as int;
            let ghost len: int = what_len as int;
            assert(w == wrap_width(self.width, offset_from_wall));
            let total_lines = (what_len + line_capacity - 1) / line_capacity;
            proof {
                lemma_lines_needed(len, w);
            }
            assert((total_lines as u16) == total_lines % 0x10000) by (bit_vector);
            let end_row: u16 = MESSAGE_ROW + (total_lines as u16);
            let ghost n: int = total_lines as int % 0x10000;
            assert(end_row == MESSAGE_ROW + n);
            let mut lines: Vec<MessageLine> = Vec::new();
            let mut start_index: usize = 0;
            let mut line_number: u16 = MESSAGE_ROW;
            let mut done = false;
            while line_number < end_row && !done
                invariant
                    w == line_capacity,
                    len == what_len,
                    w > 0,
                    total_lines == lines_needed(len, w),
                    total_lines >= 1,
                    total_lines * w >= len,
                    (total_lines - 1) * w < len,
                    len + w <= usize::MAX,
                    n == total_lines % 0x10000,
                    n <= total_lines,
                    end_row == MESSAGE_ROW + n,
                    offset_from_wall < u16::MAX,
                    MESSAGE_ROW <= line_number <= end_row,
                    lines.len() == line_number - MESSAGE_ROW + if done { 1int } else { 0int },
                    done ==> line_number < end_row,
                    !done ==> start_index == lines.len() * w && start_index < len,
                    done ==> lines.len() == total_lines && lines.len() == n,
                    forall|j: int| 0 <= j < lines.len() ==> lines@[j] == wrapped_line(j, len, w, offset_from_wall),
                decreases end_row - line_number + if done { 0int } else { 1int },
            {
                let ghost k: int = lines.len() as int;
                let end_index = if start_index + line_capacity < what_len {
                    start_index + line_capacity
                } else {
                    what_len
                };
                assert((k + 1) * w == k * w + w) by (nonlinear_arith);
                lines.push(
                    MessageLine {
                        column: offset_from_wall + 1,
                        row: line_number,
                        start: start_index,
                        end: end_index,
                    },
                );
                start_index = end_index;
                if start_index >= what_len {
                    proof {
                        if k + 1 < total_lines {
                            lemma_mul_le(k + 1, total_lines - 1, w);
                        }
                    }
                    done = true;
                } else {
                    line_number = line_number + 1;
                }
            }
            assert(lines@ =~= message_lines(self.width, len, offset_from_wall, cols));
            lines
        } else {
            let game_width = cols.min(100);
            let h_offset = (cols.wrapping_sub(game_width)) / 2;
            let mut lines: Vec<MessageLine> = Vec::new();
            lines.push(
                MessageLine {
                    column: offset_from_wall + 1 + h_offset,
                    row: MESSAGE_ROW,
                    start: 0,
                    end: what_len,
                },
            );
            assert(lines@ =~= message_lines(self.width, what_len as int, offset_from_wall, cols));
            lines
        }
    }
}

} // verus!
