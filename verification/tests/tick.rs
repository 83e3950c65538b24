use snake_game::snake::{Direction, Snake, SnakeState, Vector2};

fn cell(x: i32, y: i32) -> Vector2 {
    Vector2 { x, y }
}

fn game(board: (i32, i32), snake: Vec<Vector2>, apples: Vec<Vector2>, heading: Direction) -> Snake {
    Snake {
        board_size: cell(board.0, board.1),
        snake,
        apples,
        state: SnakeState::Running,
        snake_velocity: heading,
    }
}

#[test]
fn flip_reverses_each_direction() {
    assert_eq!(Direction::NegativeX.flip(), Direction::PositiveX);
    assert_eq!(Direction::PositiveX.flip(), Direction::NegativeX);
    assert_eq!(Direction::NegativeY.flip(), Direction::PositiveY);
    assert_eq!(Direction::PositiveY.flip(), Direction::NegativeY);
}

#[test]
fn flip_twice_is_the_direction_itself() {
    for d in [
        Direction::NegativeX,
        Direction::PositiveX,
        Direction::NegativeY,
        Direction::PositiveY,
    ] {
        assert_eq!(d.flip().flip(), d);
        assert_ne!(d.flip(), d);
    }
}

#[test]
fn adding_a_direction_moves_one_cell() {
    assert_eq!(cell(4, 7) + Direction::NegativeX, cell(3, 7));
    assert_eq!(cell(4, 7) + Direction::PositiveX, cell(5, 7));
    assert_eq!(cell(4, 7) + Direction::NegativeY, cell(4, 6));
    assert_eq!(cell(4, 7) + Direction::PositiveY, cell(4, 8));
    assert_eq!(cell(0, 0) + Direction::NegativeX, cell(-1, 0));
}

#[test]
fn moves_then_dies_at_the_edge() {
    let mut g = game((3, 3), vec![cell(1, 1)], vec![], Direction::PositiveX);
    assert!(g.tick(None));
    assert_eq!(g.snake, vec![cell(2, 1)]);
    assert_eq!(g.state, SnakeState::Running);
    assert!(g.tick(None));
    assert_eq!(g.state, SnakeState::DeadByOutOfBounds);
    assert_eq!(g.snake, vec![cell(2, 1)]);
}

#[test]
fn eating_an_apple_grows_the_snake() {
    let mut g = game((3, 3), vec![cell(1, 1)], vec![cell(2, 1)], Direction::PositiveX);
    g.tick(None);
    assert_eq!(g.snake, vec![cell(2, 1), cell(1, 1)]);
    assert!(g.apples.is_empty());
    assert_eq!(g.state, SnakeState::Running);
}

#[test]
fn eating_takes_only_the_apple_under_the_head() {
    let mut g = game(
        (5, 5),
        vec![cell(1, 1)],
        vec![cell(0, 0), cell(2, 1), cell(4, 4)],
        Direction::PositiveX,
    );
    g.tick(None);
    assert_eq!(g.snake, vec![cell(2, 1), cell(1, 1)]);
    assert_eq!(g.apples, vec![cell(0, 0), cell(4, 4)]);
}

#[test]
fn running_into_itself_ends_the_game_with_the_head_on_the_body() {
    let mut g = game(
        (3, 3),
        vec![cell(2, 1), cell(1, 1), cell(1, 2)],
        vec![],
        Direction::NegativeY,
    );
    g.tick(Some(Direction::NegativeX));
    assert_eq!(g.state, SnakeState::DeadByBody);
    assert_eq!(g.snake, vec![cell(1, 1), cell(2, 1), cell(1, 1), cell(1, 2)]);
    assert_eq!(g.snake_velocity, Direction::NegativeX);
}

#[test]
fn stepping_onto_the_tail_cell_counts_as_a_collision() {
    let mut g = game(
        (3, 3),
        vec![cell(0, 0), cell(0, 1), cell(1, 1), cell(1, 0)],
        vec![],
        Direction::NegativeY,
    );
    g.tick(Some(Direction::PositiveX));
    assert_eq!(g.state, SnakeState::DeadByBody);
    assert_eq!(g.snake.len(), 5);
    assert_eq!(g.snake[0], cell(1, 0));
}

#[test]
fn reversal_is_ignored() {
    let mut g = game((5, 5), vec![cell(2, 2), cell(1, 2)], vec![], Direction::PositiveX);
    g.tick(Some(Direction::NegativeX));
    assert_eq!(g.snake_velocity, Direction::PositiveX);
    assert_eq!(g.snake, vec![cell(3, 2), cell(2, 2)]);
    assert_eq!(g.state, SnakeState::Running);
}

#[test]
fn reversal_is_ignored_for_a_snake_of_one_cell() {
    let mut g = game((5, 5), vec![cell(2, 2)], vec![], Direction::PositiveY);
    g.tick(Some(Direction::NegativeY));
    assert_eq!(g.snake_velocity, Direction::PositiveY);
    assert_eq!(g.snake, vec![cell(2, 3)]);
}

#[test]
fn a_turn_is_taken() {
    let mut g = game((5, 5), vec![cell(2, 2), cell(1, 2)], vec![], Direction::PositiveX);
    g.tick(Some(Direction::NegativeY));
    assert_eq!(g.snake_velocity, Direction::NegativeY);
    assert_eq!(g.snake, vec![cell(2, 1), cell(2, 2)]);
    g.tick(Some(Direction::NegativeY));
    assert_eq!(g.snake, vec![cell(2, 0), cell(2, 1)]);
}

#[test]
fn the_heading_changes_even_on_the_tick_that_ends_the_game() {
    let mut g = game((3, 3), vec![cell(1, 0)], vec![], Direction::PositiveX);
    g.tick(Some(Direction::NegativeY));
    assert_eq!(g.state, SnakeState::DeadByOutOfBounds);
    assert_eq!(g.snake_velocity, Direction::NegativeY);
    assert_eq!(g.snake, vec![cell(1, 0)]);
}

#[test]
fn every_edge_ends_the_game() {
    let cases = [
        (cell(0, 1), Direction::NegativeX),
        (cell(2, 1), Direction::PositiveX),
        (cell(1, 0), Direction::NegativeY),
        (cell(1, 2), Direction::PositiveY),
    ];
    for (head, heading) in cases {
        let mut g = game((3, 3), vec![head], vec![cell(1, 1)], heading);
        g.tick(None);
        assert_eq!(g.state, SnakeState::DeadByOutOfBounds);
        assert_eq!(g.snake, vec![head]);
        assert_eq!(g.apples, vec![cell(1, 1)]);
    }
}

#[test]
fn an_ended_game_stays_as_it_is() {
    let mut g = game((3, 3), vec![cell(2, 1), cell(1, 1)], vec![cell(0, 0)], Direction::PositiveX);
    g.tick(None);
    assert_eq!(g.state, SnakeState::DeadByOutOfBounds);
    for input in [None, Some(Direction::NegativeY), Some(Direction::NegativeX), None] {
        assert!(g.tick(input));
        assert_eq!(g.state, SnakeState::DeadByOutOfBounds);
        assert_eq!(g.snake, vec![cell(2, 1), cell(1, 1)]);
        assert_eq!(g.apples, vec![cell(0, 0)]);
        assert_eq!(g.snake_velocity, Direction::PositiveX);
    }
}

#[test]
fn a_game_ended_by_collision_stays_as_it_is() {
    let mut g = game(
        (3, 3),
        vec![cell(2, 1), cell(1, 1), cell(1, 2)],
        vec![],
        Direction::NegativeY,
    );
    g.tick(Some(Direction::NegativeX));
    let body = g.snake.clone();
    g.tick(Some(Direction::PositiveY));
    g.tick(None);
    assert_eq!(g.state, SnakeState::DeadByBody);
    assert_eq!(g.snake, body);
    assert_eq!(g.snake_velocity, Direction::NegativeX);
}

#[test]
fn the_edge_is_looked_at_before_the_body() {
    // The cell off the board is listed as part of the snake: the edge wins.
    let mut g = game((3, 3), vec![cell(2, 1), cell(3, 1)], vec![], Direction::PositiveX);
    g.tick(None);
    assert_eq!(g.state, SnakeState::DeadByOutOfBounds);
    assert_eq!(g.snake, vec![cell(2, 1), cell(3, 1)]);
}

#[test]
fn a_plain_move_keeps_the_length() {
    let mut g = game(
        (6, 6),
        vec![cell(3, 3), cell(2, 3), cell(1, 3)],
        vec![cell(0, 0)],
        Direction::PositiveX,
    );
    g.tick(None);
    assert_eq!(g.snake, vec![cell(4, 3), cell(3, 3), cell(2, 3)]);
    assert_eq!(g.apples, vec![cell(0, 0)]);
    let head = g.snake[0];
    assert!(0 <= head.x && head.x < 6 && 0 <= head.y && head.y < 6);
}

#[test]
fn the_head_stays_on_the_board_until_the_game_ends() {
    let mut g = game((4, 4), vec![cell(0, 0)], vec![cell(2, 0), cell(3, 3)], Direction::PositiveX);
    let inputs = [
        None,
        None,
        None,
        Some(Direction::PositiveY),
        None,
        None,
        Some(Direction::NegativeX),
        None,
        None,
        None,
        None,
    ];
    for input in inputs {
        let before = g.snake.len();
        let apples_before = g.apples.len();
        g.tick(input);
        assert!(!g.snake.is_empty());
        if g.state == SnakeState::Running {
            let head = g.snake[0];
            assert!(0 <= head.x && head.x < 4 && 0 <= head.y && head.y < 4);
            assert_eq!(g.snake.len() + g.apples.len(), before + apples_before);
        }
    }
    assert_eq!(g.state, SnakeState::DeadByOutOfBounds);
    assert_eq!(g.snake.len(), 3);
    assert!(g.apples.is_empty());
}

#[test]
fn well_formedness_is_checked() {
    let good = game((3, 3), vec![cell(1, 1), cell(0, 1)], vec![cell(2, 2)], Direction::PositiveX);
    assert!(good.is_well_formed());
    let no_board = game((0, 3), vec![cell(0, 0)], vec![], Direction::PositiveX);
    assert!(!no_board.is_well_formed());
    let no_snake = game((3, 3), vec![], vec![], Direction::PositiveX);
    assert!(!no_snake.is_well_formed());
    let off_board = game((3, 3), vec![cell(3, 1)], vec![], Direction::PositiveX);
    assert!(!off_board.is_well_formed());
    let apple_off_board = game((3, 3), vec![cell(1, 1)], vec![cell(1, -1)], Direction::PositiveX);
    assert!(!apple_off_board.is_well_formed());
    let crossing = game((3, 3), vec![cell(1, 1), cell(1, 1)], vec![], Direction::PositiveX);
    assert!(!crossing.is_well_formed());
    let twin_apples =
        game((3, 3), vec![cell(1, 1)], vec![cell(0, 0), cell(0, 0)], Direction::PositiveX);
    assert!(!twin_apples.is_well_formed());
    let apple_under_snake = game((3, 3), vec![cell(1, 1)], vec![cell(1, 1)], Direction::PositiveX);
    assert!(!apple_under_snake.is_well_formed());
    let mut ended = game((3, 3), vec![cell(1, 1), cell(2, 1), cell(1, 1)], vec![], Direction::PositiveX);
    ended.state = SnakeState::DeadByBody;
    assert!(ended.is_well_formed());
}

#[test]
fn free_cells_are_listed_row_by_row() {
    let g = game((3, 2), vec![cell(1, 0)], vec![cell(0, 1)], Direction::PositiveX);
    assert_eq!(g.free_cells(), vec![cell(0, 0), cell(2, 0), cell(1, 1), cell(2, 1)]);
    let full = game((2, 1), vec![cell(0, 0)], vec![cell(1, 0)], Direction::PositiveX);
    assert!(full.free_cells().is_empty());
}
