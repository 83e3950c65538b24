//! Laying a game out in a window: square tiles, as large as fit, with the
//! board centred.

use crate::snake::{Snake, Vector2};
use crate::state::GameState;
use vstd::prelude::*;

verus! {

/// A rectangle of pixels: its top left corner and its size.
#[derive(PartialEq, Eq, Structural, Clone, Copy, Debug)]
pub struct Rect {
    pub x: i32,
    pub y: i32,
    pub width: u32,
    pub height: u32,
}

/// What a filled rectangle shows.
#[derive(PartialEq, Eq, Structural, Clone, Copy, Debug)]
pub enum Paint {
    Board,
    SnakeBody,
    SnakeHead,
    Apple,
}

/// One rectangle to fill, and with what.
#[derive(PartialEq, Eq, Structural, Clone, Copy, Debug)]
pub struct Fill {
    pub paint: Paint,
    pub rect: Rect,
}

/// How a board lies in a window: the side of a tile in pixels and the top
/// left corner of the board.
#[derive(PartialEq, Eq, Structural, Clone, Copy, Debug)]
pub struct Layout {
    pub tile_size: u32,
    pub offset: Vector2,
}

/// The side of the largest square tile with which a board of `board_size`
/// tiles fits into a window of `window_x` by `window_y` pixels.
pub open spec fn tile_side(board_size: Vector2, window_x: int, window_y: int) -> int {
    if window_x / (board_size.x as int) < window_y / (board_size.y as int) {
        window_x / (board_size.x as int)
    } else {
        window_y / (board_size.y as int)
    }
}

impl Layout {
    /// The layout of a board of `board_size` tiles in a window of `window_x`
    /// by `window_y` pixels: tiles as large as fit, and on each axis the
    /// pixels left over split evenly between both sides.
    pub open spec fn fit(board_size: Vector2, window_x: int, window_y: int) -> Layout {
        let tile = tile_side(board_size, window_x, window_y);
        Layout {
            tile_size: tile as u32,
            offset: Vector2 {
                x: ((window_x - tile * board_size.x) / 2) as i32,
                y: ((window_y - tile * board_size.y) / 2) as i32,
            },
        }
    }

    /// The rectangle of the whole board.
    pub open spec fn spec_board_rect(self, board_size: Vector2) -> Rect {
        Rect {
            x: self.offset.x,
            y: self.offset.y,
            width: (self.tile_size * board_size.x) as u32,
            height: (self.tile_size * board_size.y) as u32,
        }
    }

    /// The rectangle of one cell.
    pub open spec fn spec_cell_rect(self, cell: Vector2) -> Rect {
        Rect {
            x: (self.tile_size * cell.x + self.offset.x) as i32,
            y: (self.tile_size * cell.y + self.offset.y) as i32,
            width: self.tile_size,
            height: self.tile_size,
        }
    }

    /// The board drawn with this layout lies inside a window of the given
    /// size.
    pub open spec fn inside(self, board_size: Vector2, window_x: int, window_y: int) -> bool {
        &&& 0 <= self.offset.x
        &&& 0 <= self.offset.y
        &&& self.offset.x + self.tile_size * board_size.x <= window_x
        &&& self.offset.y + self.tile_size * board_size.y <= window_y
    }

    /// Computes the layout of a board in a window.
    pub fn new(board_size: Vector2, window_size_x: u32, window_size_y: u32) -> (layout: Layout)
        requires
            board_size.x > 0,
            board_size.y > 0,
            window_size_x <= i32::MAX,
            window_size_y <= i32::MAX,
        ensures
            layout == Layout::fit(board_size, window_size_x as int, window_size_y as int),
            layout.tile_size == tile_side(board_size, window_size_x as int, window_size_y as int),
            layout.inside(board_size, window_size_x as int, window_size_y as int),
    {
        let across: u32 = window_size_x / board_size.x as u32;
        let down: u32 = window_size_y / board_size.y as u32;
        let tile_size: u32 = if across < down { across } else { down };
        proof {
            let w = board_size.x as int;
            let h = board_size.y as int;
            vstd::arithmetic::div_mod::lemma_fundamental_div_mod(window_size_x as int, w);
            vstd::arithmetic::div_mod::lemma_fundamental_div_mod(window_size_y as int, h);
            vstd::arithmetic::div_mod::lemma_mod_bound(window_size_x as int, w);
            vstd::arithmetic::div_mod::lemma_mod_bound(window_size_y as int, h);
            assert(tile_size * w <= across * w && 0 <= tile_size * w) by (nonlinear_arith)
                requires
                    0 <= tile_size <= across,
                    0 < w,
            ;
            assert(tile_size * h <= down * h && 0 <= tile_size * h) by (nonlinear_arith)
                requires
                    0 <= tile_size <= down,
                    0 < h,
            ;
            assert(across * w == w * across) by (nonlinear_arith);
            assert(down * h == h * down) by (nonlinear_arith);
        }
        Layout {
            tile_size,
            offset: Vector2 {
                x: ((window_size_x - (tile_size * board_size.x as u32)) / 2) as i32,
                y: ((window_size_y - (tile_size * board_size.y as u32)) / 2) as i32,
            },
        }
    }
}

impl Layout {
    /// The pixel coordinates of `cell` fit the type that holds them.
    pub open spec fn can_place(self, cell: Vector2) -> bool {
        &&& self.tile_size <= i32::MAX
        &&& i32::MIN <= self.tile_size * cell.x <= i32::MAX
        &&& i32::MIN <= self.tile_size * cell.y <= i32::MAX
        &&& i32::MIN <= self.tile_size * cell.x + self.offset.x <= i32::MAX
        &&& i32::MIN <= self.tile_size * cell.y + self.offset.y <= i32::MAX
    }

    /// A cell of the board is drawn inside the board, and so inside the
    /// window that the board lies in.
    pub proof fn lemma_cell_inside(
        self,
        board_size: Vector2,
        window_x: int,
        window_y: int,
        cell: Vector2,
    )
        requires
            self.inside(board_size, window_x, window_y),
            window_x <= i32::MAX,
            window_y <= i32::MAX,
            0 <= cell.x < board_size.x,
            0 <= cell.y < board_size.y,
        ensures
            self.can_place(cell),
            self.offset.x <= self.spec_cell_rect(cell).x,
            self.offset.y <= self.spec_cell_rect(cell).y,
            self.spec_cell_rect(cell).x + self.tile_size <= self.offset.x + self.tile_size
                * board_size.x,
            self.spec_cell_rect(cell).y + self.tile_size <= self.offset.y + self.tile_size
                * board_size.y,
    {
        let t = self.tile_size as int;
        assert(0 <= t * cell.x && t * cell.x + t <= t * board_size.x) by (nonlinear_arith)
            requires
                0 <= t,
                0 <= cell.x < board_size.x,
        ;
        assert(0 <= t * cell.y && t * cell.y + t <= t * board_size.y) by (nonlinear_arith)
            requires
                0 <= t,
                0 <= cell.y < board_size.y,
        ;
    }

    /// The rectangle of the whole board.
    pub fn board_rect(&self, board_size: Vector2) -> (rect: Rect)
        requires
            board_size.x > 0,
            board_size.y > 0,
            self.tile_size * board_size.x <= u32::MAX,
            self.tile_size * board_size.y <= u32::MAX,
        ensures
            rect == self.spec_board_rect(board_size),
    {
        Rect {
            x: self.offset.x,
            y: self.offset.y,
            width: self.tile_size * board_size.x as u32,
            height: self.tile_size * board_size.y as u32,
        }
    }

    /// The rectangle of one cell.
    pub fn cell_rect(&self, cell: Vector2) -> (rect: Rect)
        requires
            self.can_place(cell),
        ensures
            rect == self.spec_cell_rect(cell),
    {
        Rect {
            x: (self.tile_size as i32 * cell.x) + self.offset.x,
            y: (self.tile_size as i32 * cell.y) + self.offset.y,
            width: self.tile_size,
            height: self.tile_size,
        }
    }
}

/// The fills that show `cells` as parts of the snake's body.
pub open spec fn body_fills(layout: Layout, cells: Seq<Vector2>) -> Seq<Fill> {
    cells.map_values(
        |cell: Vector2| Fill { paint: Paint::SnakeBody, rect: layout.spec_cell_rect(cell) },
    )
}

/// The fills that show `cells` as apples.
pub open spec fn apple_fills(layout: Layout, cells: Seq<Vector2>) -> Seq<Fill> {
    cells.map_values(
        |cell: Vector2| Fill { paint: Paint::Apple, rect: layout.spec_cell_rect(cell) },
    )
}

/// What is to be filled to show `game` in a window of `window_x` by
/// `window_y` pixels, in the order of painting: the board, the snake's body
/// from the neck to the tail, the head, then the apples.
pub open spec fn frame_of(game: GameState, window_x: int, window_y: int) -> Seq<Fill> {
    let layout = Layout::fit(game.board_size, window_x, window_y);
    seq![Fill { paint: Paint::Board, rect: layout.spec_board_rect(game.board_size) }]
        + body_fills(layout, game.body.skip(1)) + seq![
        Fill { paint: Paint::SnakeHead, rect: layout.spec_cell_rect(game.body[0]) },
    ] + apple_fills(layout, game.food)
}

/// The rectangles to fill to show `game` in a window of the given size, in
/// the order of painting.
pub fn frame(game: &Snake, window_size_x: u32, window_size_y: u32) -> (fills: Vec<Fill>)
    requires
        game.wf(),
        window_size_x <= i32::MAX,
        window_size_y <= i32::MAX,
    ensures
        fills@ == frame_of(game@, window_size_x as int, window_size_y as int),
        fills@.len() == 1 + game.snake@.len() + game.apples@.len(),
{
    let layout = Layout::new(game.board_size, window_size_x, window_size_y);
    let mut fills: Vec<Fill> = Vec::new();
    fills.push(Fill { paint: Paint::Board, rect: layout.board_rect(game.board_size) });
    let ghost shown_board = fills@;
    assert(fills@ =~= shown_board + body_fills(layout, game.snake@.subrange(1, 1)));

    let mut i: usize = 1;
    while i < game.snake.len()
        invariant
            1 <= i <= game.snake.len(),
            game.wf(),
            window_size_x <= i32::MAX,
            window_size_y <= i32::MAX,
            layout.inside(game.board_size, window_size_x as int, window_size_y as int),
            fills@ == shown_board + body_fills(layout, game.snake@.subrange(1, i as int)),
        decreases game.snake.len() - i,
    {
        let snake_piece = game.snake[i];
        proof {
            assert(game@.on_board(game@.body[i as int]));
            layout.lemma_cell_inside(
                game.board_size,
                window_size_x as int,
                window_size_y as int,
                snake_piece,
            );
            assert(body_fills(layout, game.snake@.subrange(1, i + 1)) =~= body_fills(
                layout,
                game.snake@.subrange(1, i as int),
            ).push(Fill { paint: Paint::SnakeBody, rect: layout.spec_cell_rect(snake_piece) }));
        }
        fills.push(Fill { paint: Paint::SnakeBody, rect: layout.cell_rect(snake_piece) });
        i += 1;
    }
    assert(game.snake@.subrange(1, i as int) =~= game.snake@.skip(1));

    let head = game.snake[0];
    proof {
        assert(game@.on_board(game@.body[0]));
        layout.lemma_cell_inside(game.board_size, window_size_x as int, window_size_y as int, head);
    }
    fills.push(Fill { paint: Paint::SnakeHead, rect: layout.cell_rect(head) });
    let ghost shown_snake = fills@;
    assert(shown_snake =~= shown_snake + apple_fills(layout, game.apples@.take(0)));

    let mut j: usize = 0;
    while j < game.apples.len()
        invariant
            j <= game.apples.len(),
            game.wf(),
            window_size_x <= i32::MAX,
            window_size_y <= i32::MAX,
            layout.inside(game.board_size, window_size_x as int, window_size_y as int),
            fills@ == shown_snake + apple_fills(layout, game.apples@.take(j as int)),
        decreases game.apples.len() - j,
    {
        let apple = game.apples[j];
        proof {
            assert(game@.on_board(game@.food[j as int]));
            layout.lemma_cell_inside(
                game.board_size,
                window_size_x as int,
                window_size_y as int,
                apple,
            );
            assert(apple_fills(layout, game.apples@.take(j + 1)) =~= apple_fills(
                layout,
                game.apples@.take(j as int),
            ).push(Fill { paint: Paint::Apple, rect: layout.spec_cell_rect(apple) }));
        }
        fills.push(Fill { paint: Paint::Apple, rect: layout.cell_rect(apple) });
        j += 1;
    }
    assert(game.apples@.take(j as int) =~= game.apples@);
    fills
}

} // verus!
