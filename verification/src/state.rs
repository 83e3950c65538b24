//! The mathematical state of a game and its transition.

use crate::seqs::{lemma_drop_last, lemma_insert_front, lemma_remove};
use crate::snake::{Direction, SnakeState, Vector2};
use vstd::prelude::*;

verus! {

/// The mathematical state of a game: what a `Snake` stands for.
#[verifier::ext_equal]
pub ghost struct GameState {
    /// Width and height of the grid.
    pub board_size: Vector2,
    /// The snake's cells, head first.
    pub body: Seq<Vector2>,
    /// The cells that hold an apple.
    pub food: Seq<Vector2>,
    pub status: SnakeState,
    /// The direction of the next step.
    pub heading: Direction,
}

impl Vector2 {
    /// The cell at the centre of a board of this size: half the width and
    /// half the height, rounded down.
    pub open spec fn centre(self) -> Vector2 {
        Vector2 { x: (self.x / 2) as i32, y: (self.y / 2) as i32 }
    }

    /// `self` comes before `other` when the grid is read row by row from the
    /// top, each row from the left.
    pub open spec fn precedes(self, other: Vector2) -> bool {
        self.y < other.y || (self.y == other.y && self.x < other.x)
    }
}

/// `cells` runs in the order in which the grid is read: row by row from
/// the top, each row from the left.
pub open spec fn in_reading_order(cells: Seq<Vector2>) -> bool {
    forall|i: int, j: int|
        0 <= i < j < cells.len() ==> (#[trigger] cells[i]).precedes(#[trigger] cells[j])
}

impl GameState {
    /// `p` lies on the grid.
    pub open spec fn on_board(self, p: Vector2) -> bool {
        0 <= p.x < self.board_size.x && 0 <= p.y < self.board_size.y
    }

    /// `p` lies on the grid and holds neither a part of the snake nor an apple.
    pub open spec fn is_free(self, p: Vector2) -> bool {
        self.on_board(p) && !self.body.contains(p) && !self.food.contains(p)
    }

    /// What holds of every game from its creation on: the board has cells,
    /// the snake has a head, snake and apples lie on the board, no two apples
    /// share a cell, no apple lies under the snake, and while the game runs
    /// the snake does not cross itself.
    pub open spec fn wf(self) -> bool {
        &&& self.board_size.x > 0
        &&& self.board_size.y > 0
        &&& self.body.len() >= 1
        &&& forall|i: int| 0 <= i < self.body.len() ==> self.on_board(#[trigger] self.body[i])
        &&& self.status == SnakeState::Running ==> self.body.no_duplicates()
        &&& forall|i: int| 0 <= i < self.food.len() ==> self.on_board(#[trigger] self.food[i])
        &&& self.food.no_duplicates()
        &&& forall|i: int| 0 <= i < self.food.len() ==> !self.body.contains(#[trigger] self.food[i])
    }

    /// The heading after the player's input: the input, unless there is none
    /// or it would turn the snake back onto itself.
    pub open spec fn steer(self, input: Option<Direction>) -> Direction {
        match input {
            Some(d) => if d != self.heading.spec_flip() { d } else { self.heading },
            None => self.heading,
        }
    }

    /// The `x` of the cell that the head enters next.
    pub open spec fn next_x(self, input: Option<Direction>) -> int {
        self.body[0].x + self.steer(input).dx()
    }

    /// The `y` of the cell that the head enters next.
    pub open spec fn next_y(self, input: Option<Direction>) -> int {
        self.body[0].y + self.steer(input).dy()
    }

    /// The cell that the head enters next lies off the grid.
    pub open spec fn leaves_board(self, input: Option<Direction>) -> bool {
        !(0 <= self.next_x(input) < self.board_size.x && 0 <= self.next_y(input)
            < self.board_size.y)
    }

    /// The cell that the head enters next, where it lies on the grid.
    pub open spec fn next_head(self, input: Option<Direction>) -> Vector2
        recommends
            !self.leaves_board(input),
    {
        Vector2 { x: self.next_x(input) as i32, y: self.next_y(input) as i32 }
    }

    /// The state one time step later.
    ///
    /// A game that has ended stays as it is. Otherwise the input steers, and
    /// the head moves one cell. Leaving the grid ends the game and leaves the
    /// snake where it was. Running into the snake ends the game with the head
    /// on the cell it ran into. Entering an apple's cell eats that apple and
    /// the snake grows by one; entering any other cell moves the tail along.
    pub open spec fn tick(self, input: Option<Direction>) -> GameState {
        if self.status != SnakeState::Running {
            self
        } else if self.leaves_board(input) {
            GameState { status: SnakeState::DeadByOutOfBounds, heading: self.steer(input), ..self }
        } else if self.body.contains(self.next_head(input)) {
            GameState {
                status: SnakeState::DeadByBody,
                heading: self.steer(input),
                body: self.body.insert(0, self.next_head(input)),
                ..self
            }
        } else if self.food.contains(self.next_head(input)) {
            GameState {
                heading: self.steer(input),
                body: self.body.insert(0, self.next_head(input)),
                food: self.food.remove_value(self.next_head(input)),
                ..self
            }
        } else {
            GameState {
                heading: self.steer(input),
                body: self.body.insert(0, self.next_head(input)).drop_last(),
                ..self
            }
        }
    }
}

impl GameState {
    /// `cells` lists the free cells, each once, in the order in which the
    /// grid is read.
    pub open spec fn lists_free_cells(self, cells: Seq<Vector2>) -> bool {
        &&& forall|p: Vector2| #[trigger] cells.contains(p) <==> self.is_free(p)
        &&& in_reading_order(cells)
    }

    /// What holds of a game just created on a board of `board_size` for
    /// which `apple_count` apples were asked: it runs, the snake is one cell
    /// at the centre of the board and heads in the positive `x` direction,
    /// and as many apples were placed as were asked for, or as the board has
    /// cells beside the snake's if that is fewer.
    pub open spec fn is_new_game(self, board_size: Vector2, apple_count: nat) -> bool {
        &&& self.board_size == board_size
        &&& self.body == seq![board_size.centre()]
        &&& self.status == SnakeState::Running
        &&& self.heading == Direction::PositiveX
        &&& self.food.len() == if apple_count < board_size.x * board_size.y - 1 {
            apple_count as int
        } else {
            board_size.x * board_size.y - 1
        }
    }

    /// The state with one more apple, on the cell `p`.
    pub open spec fn with_apple(self, p: Vector2) -> GameState {
        GameState { food: self.food.push(p), ..self }
    }
}

impl GameState {
    /// A tick leads from a well-formed state to a well-formed state.
    pub proof fn lemma_tick_preserves_wf(self, input: Option<Direction>)
        requires
            self.wf(),
        ensures
            self.tick(input).wf(),
    {
        if self.status == SnakeState::Running && !self.leaves_board(input) {
            let next = self.next_head(input);
            let grown = self.body.insert(0, next);
            lemma_insert_front(self.body, next);
            assert(self.on_board(next));
            if self.body.contains(next) {
            } else if self.food.contains(next) {
                self.food.index_of_first_ensures(next);
                lemma_remove(self.food, self.food.index_of_first(next).unwrap());
            } else {
                lemma_drop_last(grown);
            }
        }
    }

    /// An apple laid on a free cell leaves the state well-formed.
    pub proof fn lemma_apple_on_free_cell(self, p: Vector2)
        requires
            self.wf(),
            self.is_free(p),
        ensures
            self.with_apple(p).wf(),
    {
        let more = self.food.push(p);
        assert forall|i: int, j: int|
            0 <= i < more.len() && 0 <= j < more.len() && i != j implies more[i] != more[j] by {
            if i < self.food.len() {
                assert(self.food.contains(self.food[i]));
            }
            if j < self.food.len() {
                assert(self.food.contains(self.food[j]));
            }
        }
    }
}

} // verus!
