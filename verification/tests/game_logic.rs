use rand::SeedableRng;

use snake::direction::Direction;
use snake::food::Food;
use snake::game::{
    apply_turn, calculate_interval, check_collison, command_for_key, render_ready, step,
    step_ready, Collision, Command, Key, TickOutcome,
};
use snake::grid::{Vec2d, CELL_BODY, CELL_EMPTY, CELL_FOOD, CELL_HEAD};
use snake::render::{render, write_score};
use snake::snake::Snake;

fn seeded(seed: u64) -> rand::rngs::StdRng {
    rand::rngs::StdRng::seed_from_u64(seed)
}

#[test]
fn opposite_pairs() {
    assert_eq!(Direction::North.opposite(), Direction::South);
    assert_eq!(Direction::South.opposite(), Direction::North);
    assert_eq!(Direction::East.opposite(), Direction::West);
    assert_eq!(Direction::West.opposite(), Direction::East);
}

#[test]
fn reversing_turn_is_rejected() {
    let grid = Vec2d::new(10, 10);
    let headings = [
        Direction::North,
        Direction::East,
        Direction::South,
        Direction::West,
    ];
    for heading in headings {
        let mut s = Snake::new(&grid);
        s.direction = heading;
        apply_turn(&mut s, heading, heading.opposite());
        assert_eq!(s.direction, heading);
    }
}

#[test]
fn repeated_heading_changes_nothing_and_side_turn_works() {
    let grid = Vec2d::new(10, 10);
    let mut s = Snake::new(&grid);
    apply_turn(&mut s, Direction::North, Direction::North);
    assert_eq!(s.direction, Direction::North);
    apply_turn(&mut s, Direction::North, Direction::East);
    assert_eq!(s.direction, Direction::East);
}

#[test]
fn update_position_keeps_length_and_moves_head() {
    let grid = Vec2d::new(20, 20);
    let mut s = Snake::new(&grid);
    assert_eq!(s.body[0], (10, 10));
    assert_eq!(s.body.len(), 2);
    let r = s.update_position();
    assert!(r.is_ok());
    assert_eq!(s.body[0], (10, 9));
    assert_eq!(s.body.len(), 2);
    assert_eq!(s.last, Some((10, 11)));
}

#[test]
fn north_run_reaches_start_row_minus_n() {
    let grid = Vec2d::new(20, 20);
    let mut s = Snake::new(&grid);
    let start_row = s.body[0].1;
    for _ in 0..5 {
        assert!(s.update_position().is_ok());
    }
    assert_eq!(s.body[0], (10, start_row - 5));
    assert_eq!(s.body.len(), 2);
}

#[test]
fn north_move_at_top_row_is_out_of_bounds() {
    let mut s = Snake {
        direction: Direction::North,
        body: vec![(2, 0), (2, 1)],
        last: None,
    };
    let r = s.update_position();
    assert!(r.is_err());
    assert_eq!(r.unwrap_err().message(), "Snake out of bounds");
    assert_eq!(s.body, vec![(2, 0), (2, 1)]);
}

#[test]
fn west_move_at_left_column_is_out_of_bounds() {
    let mut s = Snake {
        direction: Direction::West,
        body: vec![(0, 3), (1, 3)],
        last: None,
    };
    assert!(s.update_position().is_err());
    assert_eq!(s.body, vec![(0, 3), (1, 3)]);
}

#[test]
fn food_is_always_inside_interior_bounds() {
    let grid = Vec2d::new(17, 9);
    let mut rng = seeded(11);
    let mut previous: Option<Food> = None;
    for _ in 0..100 {
        let f = Food::new(&grid, previous, &mut rng);
        assert!(f.x < 17);
        assert!(f.y >= 1 && f.y < 9);
        previous = Some(f);
    }
}

#[test]
fn seeded_food_placement_is_deterministic() {
    let grid = Vec2d::new(31, 23);
    let mut rng_a = seeded(42);
    let mut rng_b = seeded(42);
    let a = Food::new(&grid, None, &mut rng_a);
    let b = Food::new(&grid, None, &mut rng_b);
    assert_eq!((a.x, a.y), (b.x, b.y));
    let a2 = Food::new(&grid, Some(a), &mut rng_a);
    let b2 = Food::new(&grid, Some(b), &mut rng_b);
    assert_eq!((a2.x, a2.y), (b2.x, b2.y));
}

#[test]
fn eating_food_grows_by_exactly_one() {
    let mut grid = Vec2d::new(10, 10);
    let food = Food { x: 5, y: 4 };
    grid.write_food(&food);
    let mut s = Snake::new(&grid);
    assert!(s.update_position().is_ok());
    let c = check_collison(&mut s, &grid);
    assert_eq!(c, Some(Collision::Food));
    assert_eq!(s.body.len(), 3);
    assert_eq!(s.body[0], (5, 3));
}

#[test]
fn empty_cell_is_no_collision() {
    let grid = Vec2d::new(10, 10);
    let mut s = Snake::new(&grid);
    assert!(s.update_position().is_ok());
    let before = s.body.clone();
    assert_eq!(check_collison(&mut s, &grid), None);
    assert_eq!(s.body, before);
}

#[test]
fn body_cell_is_an_obstacle() {
    let mut grid = Vec2d::new(10, 10);
    grid.set_cell(5, 4, CELL_BODY);
    let mut s = Snake::new(&grid);
    assert!(s.update_position().is_ok());
    assert_eq!(check_collison(&mut s, &grid), Some(Collision::Obstacle));
}

#[test]
fn east_edge_is_an_obstacle() {
    let grid = Vec2d::new(10, 10);
    let mut s = Snake {
        direction: Direction::East,
        body: vec![(9, 3), (8, 3)],
        last: None,
    };
    assert!(s.update_position().is_ok());
    assert_eq!(s.body[0], (10, 3));
    assert_eq!(check_collison(&mut s, &grid), Some(Collision::Obstacle));
}

#[test]
fn step_on_food_grows_and_scores_in_the_same_tick() {
    let mut grid = Vec2d::new(10, 10);
    let mut food = Food { x: 5, y: 4 };
    grid.write_food(&food);
    let mut s = Snake::new(&grid);
    let mut score: u16 = 0;
    let mut rng = seeded(3);
    assert!(grid.check_shape());
    assert!(step_ready(&s, &grid, &food, score));
    let outcome = step(&mut s, &mut grid, &mut food, &mut score, &mut rng);
    assert_eq!(outcome, TickOutcome::AteFood);
    assert_eq!(score, 1);
    assert_eq!(s.body.len(), 3);
    // the eaten food's cell is erased and a fresh one lies inside the grid
    assert_eq!(grid.cell_at(5, 4), Some(CELL_EMPTY));
    assert!(food.x < 10 && food.y >= 1 && food.y < 10);
}

#[test]
fn step_without_food_keeps_length_and_score() {
    let mut grid = Vec2d::new(10, 10);
    let mut food = Food { x: 1, y: 1 };
    let mut s = Snake::new(&grid);
    let mut score: u16 = 0;
    let mut rng = seeded(3);
    assert!(step_ready(&s, &grid, &food, score));
    let outcome = step(&mut s, &mut grid, &mut food, &mut score, &mut rng);
    assert_eq!(outcome, TickOutcome::Continue);
    assert_eq!(score, 0);
    assert_eq!(s.body.len(), 2);
    assert_eq!(food, Food { x: 1, y: 1 });
}

#[test]
fn step_across_north_edge_ends_the_game() {
    let mut grid = Vec2d::new(10, 10);
    let mut food = Food { x: 1, y: 1 };
    let mut s = Snake {
        direction: Direction::North,
        body: vec![(4, 0), (4, 1)],
        last: None,
    };
    let mut score: u16 = 0;
    let mut rng = seeded(5);
    assert!(step_ready(&s, &grid, &food, score));
    let outcome = step(&mut s, &mut grid, &mut food, &mut score, &mut rng);
    assert_eq!(outcome, TickOutcome::OutOfBounds);
    assert_eq!(s.body, vec![(4, 0), (4, 1)]);
}

#[test]
fn step_into_east_border_hits_an_obstacle() {
    let mut grid = Vec2d::new(10, 10);
    let mut food = Food { x: 1, y: 1 };
    let mut s = Snake {
        direction: Direction::East,
        body: vec![(9, 3), (8, 3)],
        last: None,
    };
    let mut score: u16 = 0;
    let mut rng = seeded(5);
    assert!(step_ready(&s, &grid, &food, score));
    let outcome = step(&mut s, &mut grid, &mut food, &mut score, &mut rng);
    assert_eq!(outcome, TickOutcome::HitObstacle);
    assert_eq!(score, 0);
}

#[test]
fn interval_formula_exact_values() {
    assert_eq!(calculate_interval(150), 150);
    assert_eq!(calculate_interval(250), 50);
    assert_eq!(calculate_interval(0), 300);
}

#[test]
fn key_bindings() {
    assert_eq!(command_for_key(Key::Char('w')), Some(Command::Turn(Direction::North)));
    assert_eq!(command_for_key(Key::Char('d')), Some(Command::Turn(Direction::East)));
    assert_eq!(command_for_key(Key::Char('s')), Some(Command::Turn(Direction::South)));
    assert_eq!(command_for_key(Key::Char('a')), Some(Command::Turn(Direction::West)));
    assert_eq!(command_for_key(Key::Char('q')), Some(Command::Quit));
    assert_eq!(command_for_key(Key::Char('Q')), Some(Command::Quit));
    assert_eq!(command_for_key(Key::Esc), Some(Command::Quit));
    assert_eq!(command_for_key(Key::Char('x')), None);
    assert_eq!(command_for_key(Key::Other), None);
}

#[test]
fn grid_cells_and_shape() {
    let mut grid = Vec2d::new(4, 4);
    assert!(grid.check_shape());
    assert_eq!(grid.cell_at(0, 0), Some(CELL_EMPTY));
    assert_eq!(grid.cell_at(3, 3), Some(CELL_EMPTY));
    assert_eq!(grid.cell_at(4, 3), None);
    assert_eq!(grid.cell_at(3, 4), None);
    grid.set_cell(2, 1, CELL_FOOD);
    assert_eq!(grid.cell_at(2, 1), Some(CELL_FOOD));
}

#[test]
fn write_snake_draws_head_body_and_erases_the_vacated_tail() {
    let mut grid = Vec2d::new(10, 10);
    grid.set_cell(1, 1, CELL_BODY);
    let s = Snake {
        direction: Direction::North,
        body: vec![(2, 2), (2, 3)],
        last: Some((1, 1)),
    };
    grid.write_snake(&s);
    assert_eq!(grid.cell_at(2, 2), Some(CELL_HEAD));
    assert_eq!(grid.cell_at(2, 3), Some(CELL_BODY));
    assert_eq!(grid.cell_at(1, 1), Some(CELL_EMPTY));
}

#[test]
fn rendered_frame_matches_expected_bytes() {
    let mut grid = Vec2d::new(4, 4);
    let food = Food { x: 1, y: 1 };
    let snake_piece = Snake::new(&grid);
    assert!(render_ready(&snake_piece, &grid, &food));
    let mut buffer: Vec<u8> = Vec::new();
    render(&mut grid, &mut buffer, &food, &snake_piece, 0);
    let mut expected: Vec<u8> = Vec::new();
    expected.extend_from_slice(b"\x1B[H\x1B[J");
    expected.extend_from_slice(b"\r\n");
    expected.extend_from_slice(b"    +-----+\r\n");
    expected.extend_from_slice(b"    |O    |\r\n");
    expected.extend_from_slice(b"    |  0  |\r\n");
    expected.extend_from_slice(b"    |  o  |\r\n");
    expected.extend_from_slice(b"    +-----+\r\n");
    expected.extend_from_slice(b"           Score: 0");
    assert_eq!(
        String::from_utf8(buffer).unwrap(),
        String::from_utf8(expected).unwrap()
    );
}

#[test]
fn score_line_prints_all_digits() {
    let grid = Vec2d::new(4, 4);
    let mut buffer: Vec<u8> = Vec::new();
    write_score(&mut buffer, 1234, &grid);
    assert_eq!(buffer, b"           Score: 1234".to_vec());
}
