//! What the scene hears of the keyboard.

use crate::snake::Direction;
use vstd::prelude::*;

verus! {

/// The keys that the scene tells apart.
#[derive(PartialEq, Eq, Structural, Clone, Copy, Debug)]
pub enum Keycode {
    R,
    Left,
    Right,
    Up,
    Down,
    Other,
}

impl Keycode {
    /// The direction that the key steers in, if it is one of the four arrows:
    /// left and right along `x`, up towards smaller `y`, down towards larger.
    pub open spec fn spec_direction(self) -> Option<Direction> {
        match self {
            Keycode::Left => Some(Direction::NegativeX),
            Keycode::Right => Some(Direction::PositiveX),
            Keycode::Up => Some(Direction::NegativeY),
            Keycode::Down => Some(Direction::PositiveY),
            _ => None,
        }
    }

    /// The direction that the key steers in, if it is one of the four arrows.
    #[verifier::when_used_as_spec(spec_direction)]
    pub fn direction(self) -> (direction: Option<Direction>)
        ensures
            direction == self.spec_direction(),
    {
        match self {
            Keycode::Left => Some(Direction::NegativeX),
            Keycode::Right => Some(Direction::PositiveX),
            Keycode::Up => Some(Direction::NegativeY),
            Keycode::Down => Some(Direction::PositiveY),
            _ => None,
        }
    }
}

/// An event of the window system, as far as the scene reads it.
#[derive(PartialEq, Eq, Structural, Clone, Copy, Debug)]
pub enum Event {
    /// A key went down; `keycode` is `None` where the system could not name it.
    KeyDown { keycode: Option<Keycode> },
    /// Anything else.
    Other,
}

} // verus!
