//! What the player's keys do.

use vstd::prelude::*;
use crate::position::Direction;

verus! {

/// A key the player pressed.
#[derive(Clone, Copy, Debug, PartialEq, Eq, Structural)]
pub enum Key {
    Char(char),
    Up,
    Down,
    Left,
    Right,
    Other,
}

/// What a key does while the snake moves.
#[derive(Clone, Copy, Debug, PartialEq, Eq, Structural)]
pub enum PlayChoice {
    Quit,
    Pause,
    Steer,
}

/// What a key does while the game is paused.
#[derive(Clone, Copy, Debug, PartialEq, Eq, Structural)]
pub enum PauseChoice {
    Quit,
    Resume,
    Rainbow,
    Wait,
}

/// What a key does once the game is over.
#[derive(Clone, Copy, Debug, PartialEq, Eq, Structural)]
pub enum GameOverChoice {
    Quit,
    Restart,
    Wait,
}

/// The direction a key steers to: the arrows, or W, A, S and D.
pub fn direction_for_key(key: Key) -> (r: Option<Direction>)
    ensures
        r == match key {
            Key::Up | Key::Char('w') => Some(Direction::Up),
            Key::Down | Key::Char('s') => Some(Direction::Down),
            Key::Left | Key::Char('a') => Some(Direction::Left),
            Key::Right | Key::Char('d') => Some(Direction::Right),
            _ => None,
        },
{
    match key {
        Key::Up | Key::Char('w') => Some(Direction::Up),
        Key::Down | Key::Char('s') => Some(Direction::Down),
        Key::Left | Key::Char('a') => Some(Direction::Left),
        Key::Right | Key::Char('d') => Some(Direction::Right),
        _ => None,
    }
}

/// While the snake moves, Q quits and P pauses; every key steers.
pub fn play_choice(key: Key) -> (r: PlayChoice)
    ensures
        r == match key {
            Key::Char('q') => PlayChoice::Quit,
            Key::Char('p') => PlayChoice::Pause,
            _ => PlayChoice::Steer,
        },
{
    match key {
        Key::Char('q') => PlayChoice::Quit,
        Key::Char('p') => PlayChoice::Pause,
        _ => PlayChoice::Steer,
    }
}

/// While paused, Q quits, R resumes and `~` resumes with the rainbow snake;
/// other keys leave the game paused.
pub fn pause_choice(key: Key) -> (r: PauseChoice)
    ensures
        r == match key {
            Key::Char('q') => PauseChoice::Quit,
            Key::Char('r') => PauseChoice::Resume,
            Key::Char('~') => PauseChoice::Rainbow,
            _ => PauseChoice::Wait,
        },
{
    match key {
        Key::Char('q') => PauseChoice::Quit,
        Key::Char('r') => PauseChoice::Resume,
        Key::Char('~') => PauseChoice::Rainbow,
        _ => PauseChoice::Wait,
    }
}

/// Once the game is over, Q quits and R starts a new game; other keys wait.
pub fn game_over_choice(key: Key) -> (r: GameOverChoice)
    ensures
        r == match key {
            Key::Char('q') => GameOverChoice::Quit,
            Key::Char('r') => GameOverChoice::Restart,
            _ => GameOverChoice::Wait,
        },
{
    match key {
        Key::Char('q') => GameOverChoice::Quit,
        Key::Char('r') => GameOverChoice::Restart,
        _ => GameOverChoice::Wait,
    }
}

} // verus!
