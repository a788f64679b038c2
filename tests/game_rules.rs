use snake::draw::to_coordinates_u32;
use snake::food::{free_cells, spawn_food, FoodError};
use snake::game::{Game, MOVING_PERIOD_MICROS, RESTART_DELAY_MICROS};
use snake::snake::{Direction, Snake};

fn body_of(snake: &Snake) -> Vec<(i32, i32)> {
    snake.body().clone()
}

#[test]
fn opposite_is_an_involution() {
    let all = [Direction::Up, Direction::Down, Direction::Left, Direction::Right];
    for d in all {
        assert_eq!(d.opposite().opposite(), d);
        assert_ne!(d.opposite(), d);
    }
    assert_eq!(Direction::Up.opposite(), Direction::Down);
    assert_eq!(Direction::Left.opposite(), Direction::Right);
}

#[test]
fn new_snake_has_three_cells_head_first() {
    let s = Snake::new(5, 7);
    assert_eq!(body_of(&s), vec![(7, 7), (6, 7), (5, 7)]);
    assert_eq!(s.head_position(), (7, 7));
    assert_eq!(s.head_direction(), Direction::Right);
}

#[test]
fn advance_keeps_length_and_restore_adds_one() {
    let mut s = Snake::new(2, 2);
    s.move_forward(None);
    assert_eq!(body_of(&s), vec![(5, 2), (4, 2), (3, 2)]);
    s.move_forward(Some(Direction::Down));
    assert_eq!(body_of(&s), vec![(5, 3), (5, 2), (4, 2)]);
    assert_eq!(s.head_direction(), Direction::Down);
    s.restore_tail();
    assert_eq!(body_of(&s), vec![(5, 3), (5, 2), (4, 2), (3, 2)]);
}

#[test]
fn preview_leaves_the_snake_unchanged() {
    let s = Snake::new(2, 2);
    let before = body_of(&s);
    let a = s.next_head(Some(Direction::Up));
    let b = s.next_head(Some(Direction::Up));
    assert_eq!(a, (4, 1));
    assert_eq!(a, b);
    assert_eq!(s.next_head(None), (5, 2));
    assert_eq!(s.next_head(Some(Direction::Left)), (3, 2));
    assert_eq!(s.next_head(Some(Direction::Down)), (4, 3));
    assert_eq!(body_of(&s), before);
    assert_eq!(s.head_direction(), Direction::Right);
}

#[test]
fn overlap_check_skips_the_last_cell() {
    let s = Snake::new(2, 2);
    assert!(s.overlap_tail(4, 2));
    assert!(s.overlap_tail(3, 2));
    assert!(!s.overlap_tail(2, 2));
    assert!(!s.overlap_tail(9, 9));
    assert!(s.occupies(2, 2));
    assert!(!s.occupies(5, 2));
}

#[test]
fn tick_under_the_period_does_not_move() {
    let mut g = Game::new(10, 10);
    assert_eq!(g.update(MOVING_PERIOD_MICROS - 1), Ok(()));
    assert_eq!(g.snake().head_position(), (4, 2));
    assert_eq!(g.waiting_time(), MOVING_PERIOD_MICROS - 1);
}

#[test]
fn tick_reaching_the_period_moves_once() {
    let mut g = Game::new(10, 10);
    assert_eq!(g.update(MOVING_PERIOD_MICROS - 1), Ok(()));
    assert_eq!(g.update(1), Ok(()));
    assert_eq!(g.snake().head_position(), (5, 2));
    assert_eq!(g.waiting_time(), 0);
    let mut h = Game::new(10, 10);
    assert_eq!(h.update(MOVING_PERIOD_MICROS + 1), Ok(()));
    assert_eq!(body_of(h.snake()), vec![(5, 2), (4, 2), (3, 2)]);
    assert_eq!(h.waiting_time(), 0);
}

#[test]
fn reverse_input_is_discarded() {
    let mut g = Game::new(10, 10);
    g.key_pressed(Some(Direction::Left));
    assert_eq!(g.pending_direction(), None);
    assert_eq!(g.snake().head_direction(), Direction::Right);
    assert_eq!(g.update(MOVING_PERIOD_MICROS), Ok(()));
    assert_eq!(g.snake().head_position(), (5, 2));
    assert_eq!(g.snake().head_direction(), Direction::Right);
}

#[test]
fn other_key_reaffirms_heading() {
    let mut g = Game::new(10, 10);
    g.key_pressed(None);
    assert_eq!(g.pending_direction(), Some(Direction::Right));
    g.key_pressed(Some(Direction::Up));
    assert_eq!(g.pending_direction(), Some(Direction::Up));
    assert_eq!(g.update(MOVING_PERIOD_MICROS), Ok(()));
    assert_eq!(g.snake().head_position(), (4, 1));
    assert_eq!(g.pending_direction(), None);
}

#[test]
fn wall_ends_the_game_and_restart_resets() {
    let mut g = Game::new(10, 10);
    for _ in 0..4 {
        assert_eq!(g.update(MOVING_PERIOD_MICROS), Ok(()));
        assert!(!g.is_game_over());
    }
    assert_eq!(g.snake().head_position(), (8, 2));
    assert_eq!(g.update(MOVING_PERIOD_MICROS), Ok(()));
    assert!(g.is_game_over());
    assert_eq!(g.snake().head_position(), (8, 2));
    g.key_pressed(Some(Direction::Down));
    assert_eq!(g.pending_direction(), None);
    assert_eq!(g.update(RESTART_DELAY_MICROS - 1), Ok(()));
    assert!(g.is_game_over());
    assert_eq!(g.update(1), Ok(()));
    assert!(!g.is_game_over());
    assert_eq!(body_of(g.snake()), vec![(4, 2), (3, 2), (2, 2)]);
    assert_eq!(g.snake().head_direction(), Direction::Right);
    assert_eq!(g.score(), 0);
    assert_eq!(g.food(), Some((6, 4)));
    assert_eq!(g.board_dimensions(), (10, 10));
    assert_eq!(g.waiting_time(), 0);
}

#[test]
fn eating_food_grows_the_snake_and_scores() {
    let mut g = Game::new(10, 10);
    assert_eq!(g.food(), Some((6, 4)));
    assert_eq!(g.update(MOVING_PERIOD_MICROS), Ok(()));
    assert_eq!(g.update(MOVING_PERIOD_MICROS), Ok(()));
    g.key_pressed(Some(Direction::Down));
    assert_eq!(g.update(MOVING_PERIOD_MICROS), Ok(()));
    assert_eq!(g.snake().head_position(), (6, 3));
    assert_eq!(g.snake().next_head(None), (6, 4));
    assert_eq!(g.score(), 0);
    assert_eq!(g.update(MOVING_PERIOD_MICROS), Ok(()));
    assert_eq!(g.food(), None);
    assert_eq!(g.score(), 1);
    assert_eq!(body_of(g.snake()), vec![(6, 4), (6, 3), (6, 2), (5, 2)]);
    assert_eq!(g.update(1), Ok(()));
    let food = g.food().unwrap();
    assert!(!g.snake().occupies(food.0, food.1));
    assert!(food.0 > 0 && food.0 < 9 && food.1 > 0 && food.1 < 9);
}

#[test]
fn head_may_follow_the_tail_but_not_the_body() {
    let mut s = Snake::new(2, 2);
    s.move_forward(None);
    s.restore_tail();
    s.move_forward(Some(Direction::Down));
    s.move_forward(Some(Direction::Left));
    assert_eq!(body_of(&s), vec![(4, 3), (5, 3), (5, 2), (4, 2)]);
    let up = s.next_head(Some(Direction::Up));
    assert!(!s.overlap_tail(up.0, up.1));
    assert!(s.occupies(up.0, up.1));
    let right = s.next_head(Some(Direction::Right));
    assert!(s.overlap_tail(right.0, right.1));
}

#[test]
fn full_board_has_no_space_for_food() {
    let s = Snake::new(1, 1);
    assert_eq!(free_cells(5, 3, &s), Vec::<(i32, i32)>::new());
    assert_eq!(spawn_food(5, 3, &s), Err(FoodError::NoSpaceAvailable));
    assert_eq!(spawn_food(2, 2, &s), Err(FoodError::NoSpaceAvailable));
}

#[test]
fn food_lands_on_a_free_interior_cell() {
    let s = Snake::new(1, 1);
    assert_eq!(free_cells(5, 4, &s), vec![(1, 2), (2, 2), (3, 2)]);
    let mut seen = Vec::new();
    for _ in 0..200 {
        let c = spawn_food(5, 4, &s).unwrap();
        assert!(c == (1, 2) || c == (2, 2) || c == (3, 2));
        if !seen.contains(&c) {
            seen.push(c);
        }
    }
    assert!(seen.len() > 1);
}

#[test]
fn block_coordinates_in_pixels() {
    assert_eq!(to_coordinates_u32(0), 0);
    assert_eq!(to_coordinates_u32(4), 100);
    assert_eq!(to_coordinates_u32(30), 750);
    assert_eq!(to_coordinates_u32(-3), 0);
    assert_eq!(to_coordinates_u32(i32::MAX), u32::MAX);
}
