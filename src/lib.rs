//! Turn-based simulation of the classic snake game: a body of grid cells moves
//! one step per tick, grows when it reaches food, and the round ends when it
//! runs into a wall or into itself.

pub mod game;

pub use game::{Game, SnakeDirection};
