use snake_game::food::{free_cell_at, free_cell_count, occupies};
use snake_game::game::GameState;
use snake_game::grid::{Grid, Point};
use std::collections::VecDeque;

fn at(x: usize, y: usize) -> Point {
    Point { x, y }
}

fn snake_of(cells: &[(usize, usize)]) -> VecDeque<Point> {
    cells.iter().map(|&(x, y)| at(x, y)).collect()
}

#[test]
fn occupies_finds_each_segment() {
    let snake = snake_of(&[(1, 1), (2, 1), (2, 2)]);
    assert!(occupies(&snake, at(1, 1)));
    assert!(occupies(&snake, at(2, 1)));
    assert!(occupies(&snake, at(2, 2)));
    assert!(!occupies(&snake, at(1, 2)));
    assert!(!occupies(&snake, at(0, 0)));
    assert!(!occupies(&VecDeque::new(), at(0, 0)));
}

#[test]
fn free_cell_count_leaves_out_the_snake() {
    let grid = Grid::new(3, 2).unwrap();
    assert_eq!(free_cell_count(&grid, &VecDeque::new()), 6);
    assert_eq!(free_cell_count(&grid, &snake_of(&[(0, 0)])), 5);
    assert_eq!(free_cell_count(&grid, &snake_of(&[(0, 0), (1, 0), (1, 1)])), 3);
    assert_eq!(
        free_cell_count(&grid, &snake_of(&[(0, 0), (1, 0), (2, 0), (2, 1), (1, 1), (0, 1)])),
        0
    );
}

#[test]
fn free_cell_count_ignores_segments_off_the_grid() {
    let grid = Grid::new(3, 2).unwrap();
    assert_eq!(free_cell_count(&grid, &snake_of(&[(7, 7), (0, 1)])), 5);
}

#[test]
fn free_cell_at_counts_free_cells_row_by_row() {
    let grid = Grid::new(3, 2).unwrap();
    let snake = snake_of(&[(0, 0), (1, 0), (1, 1)]);
    assert_eq!(free_cell_at(&grid, &snake, 0), Some(at(2, 0)));
    assert_eq!(free_cell_at(&grid, &snake, 1), Some(at(0, 1)));
    assert_eq!(free_cell_at(&grid, &snake, 2), Some(at(2, 1)));
    assert_eq!(free_cell_at(&grid, &snake, 3), None);
    assert_eq!(free_cell_at(&grid, &snake, usize::MAX), None);
}

#[test]
fn free_cell_at_on_an_empty_grid_is_the_cell_itself() {
    let grid = Grid::new(4, 3).unwrap();
    let nothing = VecDeque::new();
    for k in 0..12 {
        assert_eq!(free_cell_at(&grid, &nothing, k), Some(grid.cell_at(k)));
    }
    assert_eq!(free_cell_at(&grid, &nothing, 12), None);
}

#[test]
fn free_cell_at_on_a_full_grid_is_none() {
    let grid = Grid::new(2, 1).unwrap();
    let snake = snake_of(&[(0, 0), (1, 0)]);
    assert_eq!(free_cell_at(&grid, &snake, 0), None);
}

#[test]
fn random_food_is_a_free_cell_of_the_grid() {
    let grid = Grid::new(6, 4).unwrap();
    let snake = snake_of(&[(2, 2), (3, 2), (3, 3), (4, 3)]);
    for _ in 0..500 {
        let food = GameState::random_food(&grid, &snake).unwrap();
        assert!(grid.contains(food));
        assert!(food.x < 6 && food.y < 4);
        assert!(!occupies(&snake, food));
    }
}

#[test]
fn random_food_stays_on_a_one_cell_wide_grid() {
    let column = Grid::new(1, 50).unwrap();
    let row = Grid::new(50, 1).unwrap();
    let nothing = VecDeque::new();
    for _ in 0..200 {
        let food = GameState::random_food(&column, &nothing).unwrap();
        assert_eq!(food.x, 0);
        assert!(food.y < 50);
        let food = GameState::random_food(&row, &nothing).unwrap();
        assert_eq!(food.y, 0);
        assert!(food.x < 50);
    }
}

#[test]
fn random_food_finds_the_last_free_cell() {
    let grid = Grid::new(3, 3).unwrap();
    let snake =
        snake_of(&[(0, 0), (1, 0), (2, 0), (2, 1), (1, 1), (0, 1), (0, 2), (1, 2)]);
    for _ in 0..100 {
        assert_eq!(GameState::random_food(&grid, &snake), Some(at(2, 2)));
    }
}

#[test]
fn random_food_on_a_full_grid_is_none() {
    let grid = Grid::new(2, 2).unwrap();
    let snake = snake_of(&[(0, 0), (1, 0), (1, 1), (0, 1)]);
    assert_eq!(GameState::random_food(&grid, &snake), None);
}

#[test]
fn random_food_reaches_every_free_cell() {
    let grid = Grid::new(2, 2).unwrap();
    let snake = snake_of(&[(0, 0)]);
    let mut seen = [false; 4];
    for _ in 0..2000 {
        let food = GameState::random_food(&grid, &snake).unwrap();
        seen[food.y * 2 + food.x] = true;
    }
    assert_eq!(seen, [false, true, true, true]);
}
