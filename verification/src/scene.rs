//! The scene around a game: it buffers the player's input, paces the ticks
//! and lays the game out in a window.

pub mod clock;
pub mod event;
pub mod frame;
pub mod snake_scene;
