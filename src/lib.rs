//! A game of Snake on a square grid whose edges wrap around: the grid and
//! its geometry, the snake, one tick of the game, and a text picture of it.

pub mod ascii_art;
pub mod directions;
pub mod game;
pub mod movement_scheduler;
pub mod point;
mod random;
pub mod snake;
pub mod state;
