//! A terminal snake game: the board geometry, the snake's movement and
//! collisions, the food it eats, the game's scoring and tick logic, and the
//! encoding of the saved high score.

pub mod position;
pub mod tick;
pub mod random;
pub mod food;
pub mod snake;
pub mod game;
pub mod high_score;
pub mod message;
pub mod controls;
pub mod screen;
