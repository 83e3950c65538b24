//! A game of snake as a scene: keys go in, frames come out.

use crate::scene::clock::longer_than;
use crate::scene::event::{Event, Keycode};
use crate::scene::frame::{frame, frame_of, Fill};
use crate::snake::{Direction, Snake, Vector2};
use crate::state::GameState;
use std::time::{Duration, Instant};
use vstd::prelude::*;

verus! {

/// A game together with what the scene needs to run it: how long a tick
/// lasts, how to start a fresh game, and the player's directions that no
/// tick has used yet.
pub struct SnakeScene {
    tick_length: Duration,
    board_size: Vector2,
    apple_count: usize,
    game: Snake,
    /// The newest direction is first; ticks take from the end, so that the
    /// directions are used in the order in which they were given.
    input_buffer: Vec<Direction>,
    last_tick: Instant,
}

/// The mathematical state of a scene. Time is not part of it.
#[verifier::ext_equal]
pub ghost struct SceneState {
    /// The board on which a fresh game starts.
    pub board_size: Vector2,
    /// The number of apples asked for when a fresh game starts.
    pub apple_count: nat,
    pub game: GameState,
    /// The directions waiting for a tick, newest first.
    pub inputs: Seq<Direction>,
}

impl View for SnakeScene {
    type V = SceneState;

    closed spec fn view(&self) -> SceneState {
        SceneState {
            board_size: self.board_size,
            apple_count: self.apple_count as nat,
            game: self.game@,
            inputs: self.input_buffer@,
        }
    }
}

impl SceneState {
    /// The game is well-formed and played on the scene's board.
    pub open spec fn wf(self) -> bool {
        &&& self.board_size.x > 0
        &&& self.board_size.y > 0
        &&& self.game.wf()
        &&& self.game.board_size == self.board_size
    }

    /// The input that the next tick uses: the oldest direction waiting.
    pub open spec fn next_input(self) -> Option<Direction> {
        if self.inputs.len() > 0 {
            Some(self.inputs.last())
        } else {
            None
        }
    }

    /// The scene after one tick of its game.
    pub open spec fn stepped(self) -> SceneState {
        SceneState {
            game: self.game.tick(self.next_input()),
            inputs: if self.inputs.len() > 0 {
                self.inputs.drop_last()
            } else {
                self.inputs
            },
            ..self
        }
    }

    /// The scene with one more direction waiting.
    pub open spec fn steered(self, direction: Direction) -> SceneState {
        SceneState { inputs: self.inputs.insert(0, direction), ..self }
    }

    /// `after` is what `event` may make of this scene: `R` starts a fresh
    /// game and leaves the waiting directions alone, an arrow key adds its
    /// direction to those waiting, and anything else changes nothing.
    pub open spec fn handles(self, event: Event, after: SceneState) -> bool {
        match event {
            Event::KeyDown { keycode: Some(Keycode::R) } => {
                &&& after.game.wf()
                &&& after.game.is_new_game(self.board_size, self.apple_count)
                &&& after == SceneState { game: after.game, ..self }
            },
            Event::KeyDown { keycode: Some(key) } => match key.spec_direction() {
                Some(direction) => after == self.steered(direction),
                None => after == self,
            },
            _ => after == self,
        }
    }
}

impl SnakeScene {
    /// The scene's game is well-formed and played on the scene's board.
    /// This holds of every scene that `new` made, whatever was done with it
    /// since.
    pub open spec fn wf(&self) -> bool {
        self@.wf()
    }

    /// How long a tick lasts.
    pub closed spec fn tick_length(&self) -> Duration {
        self.tick_length
    }

    /// The clock reading from which the next tick is counted: when the scene
    /// was made, or when its game last ticked.
    pub closed spec fn last_tick(&self) -> Instant {
        self.last_tick
    }

    /// Checks that the scene is well-formed.
    pub fn is_well_formed(&self) -> (ok: bool)
        ensures
            ok == self.wf(),
    {
        self.board_size.x > 0 && self.board_size.y > 0 && self.game.is_well_formed()
            && self.game.board_size == self.board_size
    }

    /// A scene with a fresh game on a board of `board_size`, for which
    /// `apple_count` apples are asked, and with no direction waiting. The
    /// first tick is due `tick_length` from now.
    pub fn new(tick_length: Duration, board_size: Vector2, apple_count: usize) -> (scene: SnakeScene)
        requires
            board_size.x > 0,
            board_size.y > 0,
        ensures
            scene.wf(),
            scene@.board_size == board_size,
            scene@.apple_count == apple_count,
            scene@.game.is_new_game(board_size, apple_count as nat),
            scene@.inputs.len() == 0,
            scene.tick_length() == tick_length,
    {
        SnakeScene {
            tick_length,
            board_size,
            apple_count,
            game: Snake::new(board_size, apple_count),
            input_buffer: Vec::new(),
            last_tick: Instant::now(),
        }
    }

    /// The game as it stands.
    pub fn game(&self) -> (game: &Snake)
        ensures
            game@ == self@.game,
    {
        &self.game
    }

    /// The directions waiting for a tick, newest first.
    pub fn input_buffer(&self) -> (inputs: &Vec<Direction>)
        ensures
            inputs@ == self@.inputs,
    {
        &self.input_buffer
    }

    /// Takes in one event: `R` starts a fresh game, an arrow key adds its
    /// direction to those waiting for a tick. No event touches the clock.
    pub fn event(&mut self, event: &Event)
        requires
            old(self).wf(),
        ensures
            final(self).wf(),
            old(self)@.handles(*event, final(self)@),
            final(self).tick_length() == old(self).tick_length(),
            final(self).last_tick() == old(self).last_tick(),
    {
        match event {
            Event::KeyDown { keycode: Some(Keycode::R) } => {
                self.game = Snake::new(self.board_size, self.apple_count);
            },
            Event::KeyDown { keycode: Some(key) } => {
                if let Some(direction) = key.direction() {
                    self.input_buffer.insert(0, direction);
                }
            },
            _ => {},
        }
    }

    /// Ticks the game if `due` says that it is time: the tick is steered by
    /// the oldest direction waiting, which is used up, and the time to the
    /// next tick counts from now. Otherwise nothing changes, the clock
    /// reading included.
    pub fn advance(&mut self, due: bool)
        requires
            old(self).wf(),
        ensures
            final(self).wf(),
            final(self)@ == if due {
                old(self)@.stepped()
            } else {
                old(self)@
            },
            final(self).tick_length() == old(self).tick_length(),
            !due ==> final(self).last_tick() == old(self).last_tick(),
    {
        if due {
            let input = self.input_buffer.pop();
            self.game.tick(input);
            self.last_tick = Instant::now();
        }
    }

    /// Ticks the game if the last tick is longer ago than a tick lasts, and
    /// returns the rectangles to fill, in the order of painting, to show the
    /// game in a window of the given size.
    pub fn draw(&mut self, window_size_x: u32, window_size_y: u32) -> (fills: Vec<Fill>)
        requires
            old(self).wf(),
            window_size_x <= i32::MAX,
            window_size_y <= i32::MAX,
        ensures
            final(self).wf(),
            // Either nothing changed, the clock reading included, or the game ticked once.
            (final(self)@ == old(self)@ && final(self).last_tick() == old(self).last_tick())
                || final(self)@ == old(self)@.stepped(),
            final(self).tick_length() == old(self).tick_length(),
            fills@ == frame_of(final(self)@.game, window_size_x as int, window_size_y as int),
    {
        let due = longer_than(&self.last_tick.elapsed(), &self.tick_length);
        self.advance(due);
        frame(&self.game, window_size_x, window_size_y)
    }
}

} // verus!
