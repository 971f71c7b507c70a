//! The rules of a terminal snake game: the cobra, the field it crawls on,
//! the things lying there, and the tick that moves the game forward.

pub mod position;
pub mod thing;
pub mod field;
pub mod keys;
pub mod cobra;
pub mod level;
pub mod game;
pub mod laws;
mod random;
