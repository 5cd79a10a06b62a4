//! The delays between two moves of the snake, which shrink as it eats.

use vstd::prelude::*;
use crate::position::{Direction, is_vertical};

verus! {

/// The delay in milliseconds between two moves, one for vertical and one for
/// horizontal travel.
pub struct TickRate {
    pub vertical: u8,
    pub horizontal: u8,
    /// Whether the next call of `decrease` also shortens `horizontal`.
    decrease_horizontal: bool,
}

/// What a `TickRate` holds.
pub struct TickRateView {
    pub vertical: u8,
    pub horizontal: u8,
    /// Whether the next call of `decrease` shortens the horizontal delay.
    pub horizontal_due: bool,
}

impl View for TickRate {
    type V = TickRateView;

    closed spec fn view(&self) -> TickRateView {
        TickRateView {
            vertical: self.vertical,
            horizontal: self.horizontal,
            horizontal_due: self.decrease_horizontal,
        }
    }
}

/// `v - 1`, stopping at 0, and then at least `floor`.
pub open spec fn shortened(v: u8, floor: u8) -> u8 {
    let d: u8 = if v == 0 { 0 } else { (v - 1) as u8 };
    if d < floor { floor } else { d }
}

/// The vertical delay a game starts with.
pub const START_VERTICAL: u8 = 100;

/// The horizontal delay a game starts with.
pub const START_HORIZONTAL: u8 = 50;

/// The smallest vertical delay that `decrease` leaves.
pub const MIN_VERTICAL: u8 = 10;

/// The smallest horizontal delay that `decrease` leaves.
pub const MIN_HORIZONTAL: u8 = 20;

impl TickRateView {
    /// The delays after one call of `decrease`: the vertical one shrinks on
    /// every call, the horizontal one on every other call.
    pub open spec fn decreased(self) -> TickRateView {
        TickRateView {
            vertical: shortened(self.vertical, MIN_VERTICAL),
            horizontal: if self.horizontal_due {
                shortened(self.horizontal, MIN_HORIZONTAL)
            } else {
                self.horizontal
            },
            horizontal_due: !self.horizontal_due,
        }
    }
}

impl TickRate {
    pub fn new(vertical_rate: u8, horizontal_rate: u8) -> (r: Self)
        ensures
            r@ == (TickRateView {
                vertical: vertical_rate,
                horizontal: horizontal_rate,
                horizontal_due: false,
            }),
    {
        TickRate { vertical: vertical_rate, horizontal: horizontal_rate, decrease_horizontal: false }
    }

    /// Sets both delays back to those a game starts with; whether the next
    /// call of `decrease` shortens the horizontal delay is kept.
    pub fn reset_delays(&mut self)
        ensures
            final(self)@ == (TickRateView {
                vertical: START_VERTICAL,
                horizontal: START_HORIZONTAL,
                horizontal_due: old(self)@.horizontal_due,
            }),
    {
        self.vertical = START_VERTICAL;
        self.horizontal = START_HORIZONTAL;
    }

    /// The delay for a move in `direction`.
    pub fn get_correct(&self, direction: &Direction) -> (r: u8)
        ensures
            r == (if is_vertical(*direction) { self@.vertical } else { self@.horizontal }),
    {
        if *direction == Direction::Up || *direction == Direction::Down {
            self.vertical
        } else {
            self.horizontal
        }
    }

    /// Speeds the game up: the vertical delay drops by one on every call and
    /// the horizontal one on every other call, never below their floors.
    pub fn decrease(&mut self)
        ensures
            final(self)@ == old(self)@.decreased(),
    {
        if self.decrease_horizontal {
            self.horizontal = self.horizontal.saturating_sub(1).max(MIN_HORIZONTAL);
            self.decrease_horizontal = false;
        } else {
            self.decrease_horizontal = true;
        }
        self.vertical = self.vertical.saturating_sub(1).max(MIN_VERTICAL);
    }
}

/// Two calls of `decrease` in a row shorten the horizontal delay exactly
/// once and the vertical delay twice, and leave the alternation where it
/// was, whatever state they start from.
pub proof fn lemma_two_decreases(t: TickRateView)
    ensures
        t.decreased().decreased().horizontal == shortened(t.horizontal, MIN_HORIZONTAL),
        t.decreased().decreased().vertical == shortened(
            shortened(t.vertical, MIN_VERTICAL),
            MIN_VERTICAL,
        ),
        t.decreased().decreased().horizontal_due == t.horizontal_due,
{
}

/// The delays after `k` calls of `decrease`.
pub open spec fn decreased_times(t: TickRateView, k: nat) -> TickRateView
    decreases k,
{
    if k == 0 {
        t
    } else {
        decreased_times(t.decreased(), (k - 1) as nat)
    }
}

/// `a - b`, but at least `floor`.
pub open spec fn less_but_at_least(a: int, b: int, floor: int) -> int {
    if a - b < floor { floor } else { a - b }
}

/// From delays at or above their floors, `k` calls of `decrease` take `k`
/// off the vertical delay and one off the horizontal delay for every second
/// call (counting a call already due), neither going below its floor; the
/// alternation flips with each call.
pub proof fn lemma_decreased_times(t: TickRateView, k: nat)
    requires
        t.vertical >= MIN_VERTICAL,
        t.horizontal >= MIN_HORIZONTAL,
    ensures
        decreased_times(t, k).vertical == less_but_at_least(t.vertical as int, k as int, MIN_VERTICAL as int),
        decreased_times(t, k).horizontal == less_but_at_least(
            t.horizontal as int,
            (k + if t.horizontal_due { 1int } else { 0int }) / 2,
            MIN_HORIZONTAL as int,
        ),
        decreased_times(t, k).horizontal_due == (t.horizontal_due != (k % 2 == 1)),
    decreases k,
{
    if k > 0 {
        lemma_decreased_times(t.decreased(), (k - 1) as nat);
    }
}

/// The speed-up law of a new game: after `k` calls of `decrease` on
/// `TickRate::new(v, h)` with `v` and `h` at or above their floors, the
/// vertical delay is `max(v - k, 10)` and the horizontal one
/// `max(h - k / 2, 20)`: it first drops on the second call.
pub proof fn lemma_new_rate_after_decreases(v: u8, h: u8, k: nat)
    requires
        v >= MIN_VERTICAL,
        h >= MIN_HORIZONTAL,
    ensures
        ({
            let t = decreased_times(TickRateView { vertical: v, horizontal: h, horizontal_due: false }, k);
            &&& t.vertical == less_but_at_least(v as int, k as int, MIN_VERTICAL as int)
            &&& t.horizontal == less_but_at_least(h as int, k as int / 2, MIN_HORIZONTAL as int)
        }),
{
    lemma_decreased_times(TickRateView { vertical: v, horizontal: h, horizontal_due: false }, k);
}

/// After a call of `decrease` the delays are at least their floors.
pub proof fn lemma_decrease_respects_floors(t: TickRateView)
    ensures
        t.decreased().vertical >= MIN_VERTICAL,
        t.horizontal_due ==> t.decreased().horizontal >= MIN_HORIZONTAL,
        t.horizontal >= MIN_HORIZONTAL ==> t.decreased().horizontal >= MIN_HORIZONTAL,
        t.decreased().horizontal <= t.horizontal || t.horizontal < MIN_HORIZONTAL,
{
}

} // verus!
