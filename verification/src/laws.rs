//! What holds of every game, however it is played.

use crate::seqs::lemma_remove;
use crate::snake::{Direction, SnakeState, Vector2};
use crate::state::GameState;
use vstd::prelude::*;

verus! {

impl GameState {
    /// The state after one tick for each of `inputs`, in order.
    pub open spec fn run(self, inputs: Seq<Option<Direction>>) -> GameState
        decreases inputs.len(),
    {
        if inputs.len() == 0 {
            self
        } else {
            self.run(inputs.drop_last()).tick(inputs.last())
        }
    }

    /// However long a game is played, its state stays well-formed; in
    /// particular the snake always has at least its head.
    pub proof fn lemma_run_preserves_wf(self, inputs: Seq<Option<Direction>>)
        requires
            self.wf(),
        ensures
            self.run(inputs).wf(),
            self.run(inputs).body.len() >= 1,
        decreases inputs.len(),
    {
        if inputs.len() > 0 {
            self.lemma_run_preserves_wf(inputs.drop_last());
            self.run(inputs.drop_last()).lemma_tick_preserves_wf(inputs.last());
        }
    }

    /// A tick never takes the snake's last cell away.
    pub proof fn lemma_body_stays_nonempty(self, input: Option<Direction>)
        requires
            self.body.len() >= 1,
        ensures
            self.tick(input).body.len() >= 1,
    {
    }

    /// Unless the tick ends the game at the edge of the board, the head
    /// after it is the cell one step on from the old head, and that cell
    /// lies on the board.
    pub proof fn lemma_head_stays_on_board(self, input: Option<Direction>)
        requires
            self.body.len() >= 1,
            self.status == SnakeState::Running,
            self.tick(input).status != SnakeState::DeadByOutOfBounds,
        ensures
            self.tick(input).body[0] == self.next_head(input),
            self.tick(input).body[0].x == self.body[0].x + self.tick(input).heading.dx(),
            self.tick(input).body[0].y == self.body[0].y + self.tick(input).heading.dy(),
            self.on_board(self.tick(input).body[0]),
    {
    }

    /// A tick that leaves the game running either eats an apple, and then
    /// the snake is one cell longer and the first apple on the head's new
    /// cell is gone, or eats none, and then the snake is as long as before
    /// and the apples are untouched.
    pub proof fn lemma_lengths(self, input: Option<Direction>)
        requires
            self.body.len() >= 1,
            self.status == SnakeState::Running,
            self.tick(input).status == SnakeState::Running,
        ensures
            self.food.contains(self.next_head(input)) ==> {
                &&& self.tick(input).body.len() == self.body.len() + 1
                &&& self.tick(input).food.len() == self.food.len() - 1
                &&& self.tick(input).food == self.food.remove_value(self.next_head(input))
            },
            !self.food.contains(self.next_head(input)) ==> {
                &&& self.tick(input).body.len() == self.body.len()
                &&& self.tick(input).food == self.food
            },
    {
        let next = self.next_head(input);
        if self.food.contains(next) {
            self.food.index_of_first_ensures(next);
        }
    }

    /// Where no two apples share a cell, the apple that a tick eats is gone
    /// from the board and every other apple is still there.
    pub proof fn lemma_eaten_apple(self, input: Option<Direction>, p: Vector2)
        requires
            self.food.no_duplicates(),
            self.status == SnakeState::Running,
            self.tick(input).status == SnakeState::Running,
        ensures
            self.tick(input).food.contains(p) <==> self.food.contains(p) && p != self.next_head(
                input,
            ),
    {
        let next = self.next_head(input);
        if self.food.contains(next) {
            self.food.index_of_first_ensures(next);
            lemma_remove(self.food, self.food.index_of_first(next).unwrap());
        }
    }

    /// An input that would turn the snake back onto itself counts for
    /// nothing: the tick is the one that no input gives, the heading stays,
    /// and unless the game ends at the edge the head moves one cell in the
    /// direction of the old heading.
    pub proof fn lemma_reversal_ignored(self)
        requires
            self.body.len() >= 1,
            self.status == SnakeState::Running,
        ensures
            self.tick(Some(self.heading.spec_flip())) == self.tick(None),
            self.tick(Some(self.heading.spec_flip())).heading == self.heading,
            self.tick(Some(self.heading.spec_flip())).status != SnakeState::DeadByOutOfBounds ==> {
                let head = self.tick(Some(self.heading.spec_flip())).body[0];
                &&& head.x == self.body[0].x + self.heading.dx()
                &&& head.y == self.body[0].y + self.heading.dy()
            },
    {
    }

    /// A game that has ended stays exactly as it is, whatever is ticked
    /// into it and however often.
    pub proof fn lemma_ended_game_stays(self, inputs: Seq<Option<Direction>>)
        requires
            self.status != SnakeState::Running,
        ensures
            self.run(inputs) == self,
        decreases inputs.len(),
    {
        if inputs.len() > 0 {
            self.lemma_ended_game_stays(inputs.drop_last());
        }
    }

    /// A game never starts running again: once ended, it is ended after
    /// every further tick, and with the same verdict.
    pub proof fn lemma_status_is_final(self, input: Option<Direction>)
        ensures
            self.status != SnakeState::Running ==> self.tick(input) == self,
            self.tick(input).status == SnakeState::Running ==> self.status == SnakeState::Running,
    {
    }

    /// A step off the board ends the game at the edge and leaves snake and
    /// apples where they were, also where the cell stepped on would
    /// otherwise count as part of the snake: the edge is looked at first.
    /// A game that ends by the snake running into itself has therefore
    /// stepped onto a cell of the board.
    pub proof fn lemma_edge_comes_first(self, input: Option<Direction>)
        requires
            self.status == SnakeState::Running,
        ensures
            self.leaves_board(input) ==> {
                &&& self.tick(input).status == SnakeState::DeadByOutOfBounds
                &&& self.tick(input).body == self.body
                &&& self.tick(input).food == self.food
            },
            self.tick(input).status == SnakeState::DeadByOutOfBounds <==> self.leaves_board(input),
            self.tick(input).status == SnakeState::DeadByBody <==> !self.leaves_board(input)
                && self.body.contains(self.next_head(input)),
    {
    }
}

} // verus!
