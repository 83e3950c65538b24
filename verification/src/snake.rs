//! The game state and its transition function.

use crate::random::random_below;
use crate::seqs::lemma_push;
use crate::state::GameState;
use vstd::prelude::*;

verus! {

/// One cell of the grid, or a grid size given as width and height.
#[derive(PartialEq, Eq, Structural, Clone, Copy, Debug)]
pub struct Vector2 {
    pub x: i32,
    pub y: i32,
}

/// The four unit movements on the grid.
#[derive(PartialEq, Eq, Structural, Clone, Copy, Debug)]
pub enum Direction {
    NegativeX,
    PositiveX,
    NegativeY,
    PositiveY,
}

impl Direction {
    /// The change in `x` that one step in this direction makes.
    pub open spec fn dx(self) -> int {
        match self {
            Direction::NegativeX => -1,
            Direction::PositiveX => 1,
            Direction::NegativeY => 0,
            Direction::PositiveY => 0,
        }
    }

    /// The change in `y` that one step in this direction makes.
    pub open spec fn dy(self) -> int {
        match self {
            Direction::NegativeX => 0,
            Direction::PositiveX => 0,
            Direction::NegativeY => -1,
            Direction::PositiveY => 1,
        }
    }

    /// The direction of a 180 degree reversal.
    pub open spec fn spec_flip(self) -> Direction {
        match self {
            Direction::NegativeX => Direction::PositiveX,
            Direction::PositiveX => Direction::NegativeX,
            Direction::NegativeY => Direction::PositiveY,
            Direction::PositiveY => Direction::NegativeY,
        }
    }

    /// The direction of a 180 degree reversal.
    #[verifier::when_used_as_spec(spec_flip)]
    pub fn flip(self) -> (flipped: Direction)
        ensures
            flipped == self.spec_flip(),
            flipped.dx() == -self.dx(),
            flipped.dy() == -self.dy(),
    {
        match self {
            Direction::NegativeX => Direction::PositiveX,
            Direction::PositiveX => Direction::NegativeX,
            Direction::NegativeY => Direction::PositiveY,
            Direction::PositiveY => Direction::NegativeY,
        }
    }
}

impl vstd::std_specs::ops::AddSpecImpl<Direction> for Vector2 {
    open spec fn obeys_add_spec() -> bool {
        true
    }

    open spec fn add_req(self, rhs: Direction) -> bool {
        &&& i32::MIN <= self.x + rhs.dx() <= i32::MAX
        &&& i32::MIN <= self.y + rhs.dy() <= i32::MAX
    }

    open spec fn add_spec(self, rhs: Direction) -> Vector2 {
        Vector2 { x: (self.x + rhs.dx()) as i32, y: (self.y + rhs.dy()) as i32 }
    }
}

impl core::ops::Add<Direction> for Vector2 {
    type Output = Vector2;

    /// The neighbouring cell one step away in direction `other`.
    fn add(self, other: Direction) -> Vector2 {
        let mut moved = self;
        match other {
            Direction::NegativeX => moved.x -= 1,
            Direction::PositiveX => moved.x += 1,
            Direction::NegativeY => moved.y -= 1,
            Direction::PositiveY => moved.y += 1,
        }
        moved
    }
}

/// Whether a game is still being played, and if not, how it ended.
#[derive(PartialEq, Eq, Structural, Debug)]
pub enum SnakeState {
    Running,
    DeadByBody,
    DeadByOutOfBounds,
}

/// A game: the board, the snake from head to tail, the apples on the board,
/// and the direction of the next step.
#[derive(Debug)]
pub struct Snake {
    pub board_size: Vector2,
    pub snake: Vec<Vector2>,
    pub apples: Vec<Vector2>,
    pub state: SnakeState,
    pub snake_velocity: Direction,
}

impl View for Snake {
    type V = GameState;

    open spec fn view(&self) -> GameState {
        GameState {
            board_size: self.board_size,
            body: self.snake@,
            food: self.apples@,
            status: self.state,
            heading: self.snake_velocity,
        }
    }
}

/// Whether `cells` holds `cell`.
fn contains(cells: &Vec<Vector2>, cell: Vector2) -> (found: bool)
    ensures
        found == cells@.contains(cell),
{
    let mut i: usize = 0;
    while i < cells.len()
        invariant
            i <= cells.len(),
            forall|j: int| 0 <= j < i ==> cells@[j] != cell,
        decreases cells.len() - i,
    {
        if cells[i] == cell {
            return true;
        }
        i += 1;
    }
    false
}

/// Whether no cell occurs twice in `cells`.
fn all_different(cells: &Vec<Vector2>) -> (ok: bool)
    ensures
        ok == cells@.no_duplicates(),
{
    let mut i: usize = 0;
    while i < cells.len()
        invariant
            i <= cells.len(),
            forall|a: int, b: int| 0 <= a < b < i ==> cells@[a] != cells@[b],
        decreases cells.len() - i,
    {
        let mut j: usize = 0;
        while j < i
            invariant
                j <= i < cells.len(),
                forall|a: int| 0 <= a < j ==> cells@[a] != cells@[i as int],
            decreases i - j,
        {
            if cells[j] == cells[i] {
                return false;
            }
            j += 1;
        }
        i += 1;
    }
    true
}

/// The first index at which `cells` holds `cell`.
fn position(cells: &Vec<Vector2>, cell: Vector2) -> (index: Option<usize>)
    ensures
        match index {
            Some(i) => i < cells.len() && cells@.index_of_first(cell) == Some(i as int),
            None => cells@.index_of_first(cell) is None,
        },
{
    let mut i: usize = 0;
    while i < cells.len()
        invariant
            i <= cells.len(),
            forall|j: int| 0 <= j < i ==> cells@[j] != cell,
        decreases cells.len() - i,
    {
        if cells[i] == cell {
            proof {
                cells@.index_of_first_ensures(cell);
            }
            return Some(i);
        }
        i += 1;
    }
    proof {
        cells@.index_of_first_ensures(cell);
    }
    None
}

impl Snake {
    /// The game is in a state that creation and ticks can lead to.
    pub open spec fn wf(&self) -> bool {
        self@.wf()
    }

    /// What `tick` needs: the snake has a head, and one step from the head
    /// in any direction stays within the range of the coordinates' type.
    /// Every well-formed game meets this.
    pub open spec fn can_tick(&self) -> bool {
        &&& self.snake@.len() >= 1
        &&& i32::MIN < self.snake@[0].x < i32::MAX
        &&& i32::MIN < self.snake@[0].y < i32::MAX
    }

    /// Whether every cell of `cells` lies on the board.
    fn all_on_board(&self, cells: &Vec<Vector2>) -> (ok: bool)
        ensures
            ok == forall|i: int| 0 <= i < cells@.len() ==> self@.on_board(#[trigger] cells@[i]),
    {
        let mut i: usize = 0;
        while i < cells.len()
            invariant
                i <= cells.len(),
                forall|j: int| 0 <= j < i ==> self@.on_board(#[trigger] cells@[j]),
            decreases cells.len() - i,
        {
            let cell = cells[i];
            if cell.x < 0 || cell.x >= self.board_size.x || cell.y < 0 || cell.y
                >= self.board_size.y {
                assert(!self@.on_board(cells@[i as int]));
                return false;
            }
            i += 1;
        }
        true
    }

    /// Checks that the game is well-formed. Every game that `new` made and
    /// `tick` changed is; one put together by hand may not be.
    pub fn is_well_formed(&self) -> (ok: bool)
        ensures
            ok == self.wf(),
    {
        if self.board_size.x <= 0 || self.board_size.y <= 0 || self.snake.len() == 0 {
            return false;
        }
        if !self.all_on_board(&self.snake) || !self.all_on_board(&self.apples) {
            return false;
        }
        if self.state == SnakeState::Running && !all_different(&self.snake) {
            return false;
        }
        if !all_different(&self.apples) {
            return false;
        }
        let mut i: usize = 0;
        while i < self.apples.len()
            invariant
                i <= self.apples.len(),
                forall|j: int| 0 <= j < i ==> !self.snake@.contains(#[trigger] self.apples@[j]),
            decreases self.apples.len() - i,
        {
            if contains(&self.snake, self.apples[i]) {
                assert(self.snake@.contains(self.apples@[i as int]));
                return false;
            }
            i += 1;
        }
        true
    }

    /// The free cells of the board, row by row from the top, each row from
    /// the left.
    pub fn free_cells(&self) -> (cells: Vec<Vector2>)
        ensures
            self@.lists_free_cells(cells@),
    {
        let mut cells: Vec<Vector2> = Vec::new();
        let mut y: i32 = 0;
        while y < self.board_size.y
            invariant
                0 <= y,
                forall|p: Vector2| #[trigger]
                    cells@.contains(p) <==> self@.is_free(p) && p.y < y,
                forall|i: int, j: int|
                    0 <= i < j < cells@.len() ==> (#[trigger] cells@[i]).precedes(
                        #[trigger] cells@[j],
                    ),
            decreases self.board_size.y - y,
        {
            let mut x: i32 = 0;
            while x < self.board_size.x
                invariant
                    0 <= x,
                    0 <= y < self.board_size.y,
                    forall|p: Vector2| #[trigger]
                        cells@.contains(p) <==> self@.is_free(p) && (p.y < y || (p.y == y && p.x
                            < x)),
                    forall|i: int, j: int|
                        0 <= i < j < cells@.len() ==> (#[trigger] cells@[i]).precedes(
                            #[trigger] cells@[j],
                        ),
                decreases self.board_size.x - x,
            {
                let cell = Vector2 { x, y };
                if !contains(&self.snake, cell) && !contains(&self.apples, cell) {
                    proof {
                        lemma_push(cells@, cell);
                        assert forall|i: int| 0 <= i < cells@.len() implies (#[trigger] cells@[i]).precedes(
                            cell,
                        ) by {
                            assert(cells@.contains(cells@[i]));
                        }
                    }
                    cells.push(cell);
                }
                x += 1;
            }
            y += 1;
        }
        cells
    }

    /// A new game on a board of the given size: the snake is one cell at the
    /// centre of the board, heading in the positive `x` direction, and
    /// `apple_count` apples lie on free cells, or as many as the board has
    /// room for beside the snake.
    pub fn new(board_size: Vector2, apple_count: usize) -> (game: Snake)
        requires
            board_size.x > 0,
            board_size.y > 0,
        ensures
            game.wf(),
            game@.is_new_game(board_size, apple_count as nat),
    {
        let mut new = Snake {
            board_size,
            snake: Vec::new(),
            apples: Vec::new(),
            state: SnakeState::Running,
            snake_velocity: Direction::PositiveX,
        };
        new.snake.push(Vector2 { x: board_size.x / 2, y: board_size.y / 2 });

        assert(board_size.x * board_size.y >= 1) by (nonlinear_arith)
            requires
                board_size.x >= 1,
                board_size.y >= 1,
        ;
        let mut placed: usize = 0;
        while placed < apple_count
            invariant_except_break
                new.apples@.len() == placed,
            invariant
                placed <= apple_count,
                new.wf(),
                new.board_size == board_size,
                new.snake@ == seq![board_size.centre()],
                new.state == SnakeState::Running,
                new.snake_velocity == Direction::PositiveX,
                new.apples@.len() <= board_size.x * board_size.y - 1,
            ensures
                new.apples@.len() == if apple_count < board_size.x * board_size.y - 1 {
                    apple_count as int
                } else {
                    board_size.x * board_size.y - 1
                },
            decreases apple_count - placed,
        {
            let pos_result = new.generate_valid_apple_position();
            match pos_result {
                Ok(pos) => {
                    proof {
                        new@.lemma_apple_on_free_cell(pos);
                        new@.with_apple(pos).lemma_taken_within_area();
                    }
                    new.apples.push(pos);
                    placed += 1;
                },
                Err(_) => {
                    proof {
                        new@.lemma_full_board();
                    }
                    break ;
                },
            }
        }
        new
    }

    /// Picks the cell for a new apple among the free cells, each with the
    /// same chance. `Err(false)` says that there is no room: the board has
    /// no more cells than there are apples, or no cell is free.
    fn generate_valid_apple_position(&self) -> (pos_result: Result<Vector2, bool>)
        ensures
            match pos_result {
                Ok(pos) => self@.is_free(pos) && self@.food.len() < self.board_size.x
                    * self.board_size.y,
                Err(reason) => !reason && (self.board_size.x * self.board_size.y
                    <= self@.food.len() || forall|p: Vector2| !self@.is_free(p)),
            },
    {
        assert(i64::MIN <= self.board_size.x * self.board_size.y <= i64::MAX) by (nonlinear_arith)
            requires
                i32::MIN <= self.board_size.x <= i32::MAX,
                i32::MIN <= self.board_size.y <= i32::MAX,
        ;
        let area: i64 = self.board_size.x as i64 * self.board_size.y as i64;
        if area as i128 <= self.apples.len() as i128 {
            return Err(false);
        }
        let free = self.free_cells();
        if free.len() == 0 {
            assert forall|p: Vector2| !self@.is_free(p) by {
                assert(!free@.contains(p));
            }
            return Err(false);
        }
        let pick = random_below(free.len());
        assert(free@.contains(free@[pick as int]));
        Ok(free[pick])
    }

    /// Advances the game by one time step; `input` is the player's most
    /// recent direction, if any. Always returns `true`.
    pub fn tick(&mut self, input: Option<Direction>) -> (res: bool)
        requires
            old(self).can_tick(),
        ensures
            res,
            final(self)@ == old(self)@.tick(input),
            old(self).wf() ==> final(self).wf(),
            final(self).can_tick(),
            final(self).board_size == old(self).board_size,
            // A game that has ended stays as it is.
            old(self).state != SnakeState::Running ==> final(self)@ == old(self)@,
            // A reversal is ignored.
            input == Some(old(self).snake_velocity.spec_flip()) ==> {
                &&& final(self).snake_velocity == old(self).snake_velocity
                &&& final(self)@ == old(self)@.tick(None)
            },
            // A step off the board ends the game and moves nothing.
            old(self).state == SnakeState::Running && old(self)@.leaves_board(input) ==> {
                &&& final(self).state == SnakeState::DeadByOutOfBounds
                &&& final(self).snake@ == old(self).snake@
                &&& final(self).apples@ == old(self).apples@
            },
            // Any other step puts the head on the next cell, which is on the board.
            old(self).state == SnakeState::Running && final(self).state
                != SnakeState::DeadByOutOfBounds ==> {
                &&& final(self).snake@[0] == old(self)@.next_head(input)
                &&& final(self)@.on_board(final(self).snake@[0])
            },
            // A step onto an apple eats it, and the snake grows by one cell.
            old(self).state == SnakeState::Running && final(self).state == SnakeState::Running
                && old(self).apples@.contains(final(self).snake@[0]) ==> {
                &&& final(self).snake@.len() == old(self).snake@.len() + 1
                &&& final(self).apples@.len() == old(self).apples@.len() - 1
                &&& final(self).apples@ == old(self).apples@.remove_value(final(self).snake@[0])
                &&& old(self).apples@.no_duplicates() ==> !final(self).apples@.contains(
                    final(self).snake@[0],
                )
            },
            // A step onto an empty cell keeps the length and the apples.
            old(self).state == SnakeState::Running && final(self).state == SnakeState::Running
                && !old(self).apples@.contains(final(self).snake@[0]) ==> {
                &&& final(self).snake@.len() == old(self).snake@.len()
                &&& final(self).apples@ == old(self).apples@
            },
    {
        if self.state != SnakeState::Running {
            return true;
        }
        if let Some(input) = input {
            if input != self.snake_velocity.flip() {
                self.snake_velocity = input;
            }
        }
        let next_position = self.snake[0] + self.snake_velocity;

        if next_position.x >= self.board_size.x || next_position.x < 0 || next_position.y
            >= self.board_size.y || next_position.y < 0 {
            self.state = SnakeState::DeadByOutOfBounds;
            return true;
        } else if contains(&self.snake, next_position) {
            self.state = SnakeState::DeadByBody;
            self.snake.insert(0, next_position);
            return true;
        }
        self.snake.insert(0, next_position);

        proof {
            self.apples@.index_of_first_ensures(next_position);
        }
        if let Some(index) = position(&self.apples, next_position) {
            self.apples.remove(index);
        } else {
            self.snake.pop();
        }
        proof {
            if old(self).wf() {
                old(self)@.lemma_tick_preserves_wf(input);
            }
            if old(self).apples@.no_duplicates() {
                old(self)@.lemma_eaten_apple(input, next_position);
            }
        }
        true
    }
}

} // verus!
