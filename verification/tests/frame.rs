use snake_game::scene::frame::{frame, Fill, Layout, Paint, Rect};
use snake_game::snake::{Direction, Snake, SnakeState, Vector2};

fn cell(x: i32, y: i32) -> Vector2 {
    Vector2 { x, y }
}

fn rect(x: i32, y: i32, width: u32, height: u32) -> Rect {
    Rect { x, y, width, height }
}

#[test]
fn tiles_are_as_large_as_fit() {
    let layout = Layout::new(cell(10, 10), 640, 480);
    assert_eq!(layout.tile_size, 48);
    assert_eq!(layout.offset, cell(80, 0));
    let layout = Layout::new(cell(10, 10), 480, 640);
    assert_eq!(layout.tile_size, 48);
    assert_eq!(layout.offset, cell(0, 80));
    let layout = Layout::new(cell(3, 7), 100, 100);
    assert_eq!(layout.tile_size, 14);
    assert_eq!(layout.offset, cell(29, 1));
}

#[test]
fn a_window_too_small_gives_tiles_of_no_size() {
    let layout = Layout::new(cell(10, 10), 9, 500);
    assert_eq!(layout.tile_size, 0);
    assert_eq!(layout.offset, cell(4, 250));
    assert_eq!(layout.board_rect(cell(10, 10)), rect(4, 250, 0, 0));
    assert_eq!(layout.cell_rect(cell(9, 9)), rect(4, 250, 0, 0));
}

#[test]
fn the_board_is_centred() {
    let layout = Layout::new(cell(10, 10), 640, 480);
    assert_eq!(layout.board_rect(cell(10, 10)), rect(80, 0, 480, 480));
    let layout = Layout::new(cell(4, 2), 101, 77);
    assert_eq!(layout.tile_size, 25);
    assert_eq!(layout.board_rect(cell(4, 2)), rect(0, 13, 100, 50));
}

#[test]
fn cells_are_placed_by_their_coordinates() {
    let layout = Layout::new(cell(10, 10), 640, 480);
    assert_eq!(layout.cell_rect(cell(0, 0)), rect(80, 0, 48, 48));
    assert_eq!(layout.cell_rect(cell(5, 5)), rect(320, 240, 48, 48));
    assert_eq!(layout.cell_rect(cell(9, 9)), rect(512, 432, 48, 48));
}

#[test]
fn the_largest_window_is_laid_out() {
    let side = i32::MAX as u32;
    let layout = Layout::new(cell(1, 1), side, side);
    assert_eq!(layout.tile_size, side);
    assert_eq!(layout.offset, cell(0, 0));
    assert_eq!(layout.cell_rect(cell(0, 0)), rect(0, 0, side, side));
    let layout = Layout::new(cell(i32::MAX, 1), side, 5);
    assert_eq!(layout.tile_size, 1);
    assert_eq!(layout.cell_rect(cell(i32::MAX - 1, 0)), rect(i32::MAX - 1, 2, 1, 1));
}

#[test]
fn a_frame_paints_board_body_head_apples_in_that_order() {
    let game = Snake {
        board_size: cell(10, 10),
        snake: vec![cell(5, 5), cell(4, 5), cell(4, 6)],
        apples: vec![cell(0, 0), cell(9, 9)],
        state: SnakeState::Running,
        snake_velocity: Direction::PositiveX,
    };
    let fills = frame(&game, 640, 480);
    let expected = vec![
        Fill { paint: Paint::Board, rect: rect(80, 0, 480, 480) },
        Fill { paint: Paint::SnakeBody, rect: rect(272, 240, 48, 48) },
        Fill { paint: Paint::SnakeBody, rect: rect(272, 288, 48, 48) },
        Fill { paint: Paint::SnakeHead, rect: rect(320, 240, 48, 48) },
        Fill { paint: Paint::Apple, rect: rect(80, 0, 48, 48) },
        Fill { paint: Paint::Apple, rect: rect(512, 432, 48, 48) },
    ];
    assert_eq!(fills, expected);
}

#[test]
fn a_frame_of_a_lone_head_has_no_body() {
    let game = Snake {
        board_size: cell(3, 3),
        snake: vec![cell(1, 1)],
        apples: vec![],
        state: SnakeState::Running,
        snake_velocity: Direction::PositiveX,
    };
    let fills = frame(&game, 30, 30);
    assert_eq!(
        fills,
        vec![
            Fill { paint: Paint::Board, rect: rect(0, 0, 30, 30) },
            Fill { paint: Paint::SnakeHead, rect: rect(10, 10, 10, 10) },
        ]
    );
}

#[test]
fn every_cell_is_painted_inside_the_board() {
    let game = Snake::new(cell(7, 5), 34);
    let fills = frame(&game, 333, 222);
    assert_eq!(fills.len(), 1 + 1 + 34);
    let board = fills[0].rect;
    assert_eq!(fills[0].paint, Paint::Board);
    for fill in &fills[1..] {
        let r = fill.rect;
        assert!(board.x <= r.x && r.x as i64 + r.width as i64 <= board.x as i64 + board.width as i64);
        assert!(board.y <= r.y && r.y as i64 + r.height as i64 <= board.y as i64 + board.height as i64);
    }
    assert!(board.x >= 0 && board.x as i64 + board.width as i64 <= 333);
    assert!(board.y >= 0 && board.y as i64 + board.height as i64 <= 222);
}
