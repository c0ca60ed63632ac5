//! The state and rules of a grid snake game: a segmented snake that moves one
//! cell per tick, food that it eats to grow and score, and the collisions with
//! the walls and with its own body that end a session.

pub mod food;
pub mod game;
pub mod snake;
