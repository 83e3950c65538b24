use snake_game::snake::{Direction, Snake, SnakeState, Vector2};

fn cell(x: i32, y: i32) -> Vector2 {
    Vector2 { x, y }
}

fn check_apples(g: &Snake) {
    for (i, a) in g.apples.iter().enumerate() {
        assert!(0 <= a.x && a.x < g.board_size.x, "apple off the board: {:?}", a);
        assert!(0 <= a.y && a.y < g.board_size.y, "apple off the board: {:?}", a);
        assert!(!g.snake.contains(a), "apple under the snake: {:?}", a);
        assert!(!g.apples[..i].contains(a), "two apples on {:?}", a);
    }
}

#[test]
fn a_new_game_starts_at_the_centre() {
    let g = Snake::new(cell(10, 10), 1);
    assert_eq!(g.board_size, cell(10, 10));
    assert_eq!(g.snake, vec![cell(5, 5)]);
    assert_eq!(g.state, SnakeState::Running);
    assert_eq!(g.snake_velocity, Direction::PositiveX);
    assert_eq!(g.apples.len(), 1);
    check_apples(&g);
    assert!(g.is_well_formed());
}

#[test]
fn the_centre_is_rounded_down() {
    assert_eq!(Snake::new(cell(3, 3), 0).snake, vec![cell(1, 1)]);
    assert_eq!(Snake::new(cell(7, 4), 0).snake, vec![cell(3, 2)]);
    assert_eq!(Snake::new(cell(1, 1), 0).snake, vec![cell(0, 0)]);
    assert_eq!(Snake::new(cell(2, 9), 0).snake, vec![cell(1, 4)]);
}

#[test]
fn no_apples_where_none_are_asked_for() {
    let g = Snake::new(cell(4, 4), 0);
    assert!(g.apples.is_empty());
}

#[test]
fn as_many_apples_as_asked_where_there_is_room() {
    for count in 0..=8usize {
        let g = Snake::new(cell(3, 3), count);
        assert_eq!(g.apples.len(), count);
        check_apples(&g);
        assert!(g.is_well_formed());
    }
}

#[test]
fn apples_stop_when_the_board_is_full() {
    let g = Snake::new(cell(3, 3), 20);
    assert_eq!(g.apples.len(), 8);
    check_apples(&g);
    assert!(g.free_cells().is_empty());
    assert!(g.is_well_formed());
}

#[test]
fn a_board_of_one_cell_has_no_room_for_apples() {
    let g = Snake::new(cell(1, 1), 5);
    assert_eq!(g.snake, vec![cell(0, 0)]);
    assert!(g.apples.is_empty());
}

#[test]
fn the_last_free_cell_gets_the_apple() {
    for _ in 0..20 {
        let g = Snake::new(cell(2, 1), 1);
        assert_eq!(g.snake, vec![cell(1, 0)]);
        assert_eq!(g.apples, vec![cell(0, 0)]);
    }
}

#[test]
fn apples_land_on_different_cells_over_many_games() {
    let mut seen = [false; 4];
    for _ in 0..400 {
        let g = Snake::new(cell(2, 2), 1);
        check_apples(&g);
        let a = g.apples[0];
        seen[(a.y * 2 + a.x) as usize] = true;
    }
    // The snake sits on (1, 1); each of the other three cells comes up.
    assert_eq!(seen, [true, true, true, false]);
}

#[test]
fn a_new_game_can_be_played() {
    let mut g = Snake::new(cell(10, 10), 3);
    for _ in 0..4 {
        g.tick(None);
        assert_eq!(g.state, SnakeState::Running);
        assert!(g.is_well_formed());
    }
    assert_eq!(g.snake[0], cell(9, 5));
    g.tick(None);
    assert_eq!(g.state, SnakeState::DeadByOutOfBounds);
    assert_eq!(g.snake[0], cell(9, 5));
}
