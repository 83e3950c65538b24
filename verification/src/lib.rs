//! A grid snake game: the game state, its per-tick transition, and the scene
//! that paces ticks, buffers player input and lays out a frame.

pub mod counting;
pub mod laws;
mod random;
pub mod scene;
mod seqs;
pub mod snake;
pub mod state;
