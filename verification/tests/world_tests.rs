use backrooms::camera::RaycastableWorld;
use backrooms::util::{Axis, Line};
use backrooms::world::{ArrayWorld, Grid};
use backrooms::worldgen::draw_hallway;

fn grid_of(rows: usize, cols: usize, cells: &[u8]) -> Grid {
    Grid::from_shape_vec(rows, cols, cells.iter().map(|c| *c != 0).collect()).unwrap()
}

fn cells_of(g: &Grid, rows: usize, cols: usize) -> Vec<u8> {
    let mut cells = vec![];
    for row in 0..rows {
        for col in 0..cols {
            cells.push(g.get(row, col).unwrap() as u8);
        }
    }
    cells
}

#[test]
fn grid_holds_its_cells_in_row_major_order() {
    let g = grid_of(2, 3, &[1, 0, 0, 0, 1, 1]);
    assert_eq!(g.get(0, 0), Some(true));
    assert_eq!(g.get(0, 1), Some(false));
    assert_eq!(g.get(0, 2), Some(false));
    assert_eq!(g.get(1, 0), Some(false));
    assert_eq!(g.get(1, 1), Some(true));
    assert_eq!(g.get(1, 2), Some(true));
}

#[test]
fn grid_has_no_cell_beyond_its_shape() {
    let g = grid_of(2, 3, &[1, 1, 1, 1, 1, 1]);
    assert_eq!(g.get(2, 0), None);
    assert_eq!(g.get(0, 3), None);
    assert_eq!(g.get(usize::MAX, usize::MAX), None);
}

#[test]
fn grid_refuses_a_shape_that_does_not_fit() {
    assert!(Grid::from_shape_vec(2, 3, vec![true; 5]).is_none());
    assert!(Grid::from_shape_vec(2, 3, vec![true; 7]).is_none());
    assert!(Grid::from_shape_vec(0, 3, vec![true; 1]).is_none());
    assert!(Grid::from_shape_vec(usize::MAX, 0, vec![]).is_none());
    assert!(Grid::from_shape_vec(usize::MAX, 2, vec![]).is_none());
}

#[test]
fn grid_may_be_empty() {
    let g = Grid::from_shape_vec(0, 3, vec![]).unwrap();
    assert_eq!(g.get(0, 0), None);
    let g = Grid::from_shape_vec(4, 0, vec![]).unwrap();
    assert_eq!(g.get(0, 0), None);
}

#[test]
fn grid_clone_is_a_grid_of_its_own() {
    let mut g = grid_of(2, 2, &[1, 1, 1, 1]);
    let copy = g.clone();
    draw_hallway(&mut g, Line { x: 0, y: 0, length: 1, axis: Axis::Horizontal });
    assert_eq!(cells_of(&g, 2, 2), vec![0, 1, 0, 1]);
    assert_eq!(cells_of(&copy, 2, 2), vec![1, 1, 1, 1]);
}

#[test]
fn world_cell_stands_in_row_y_and_column_x() {
    let world = ArrayWorld::from(grid_of(2, 3, &[0, 0, 1, 0, 0, 0]));
    assert!(world.exists_at((2, 0)));
    assert!(!world.exists_at((0, 2)));
    assert!(!world.exists_at((0, 0)));
    assert!(!world.exists_at((1, 1)));
}

#[test]
fn world_is_empty_at_negative_coordinates() {
    let world = ArrayWorld::from(grid_of(2, 2, &[1, 1, 1, 1]));
    assert!(world.exists_at((0, 0)));
    assert!(!world.exists_at((-1, 0)));
    assert!(!world.exists_at((0, -1)));
    assert!(!world.exists_at((-1, -1)));
    assert!(!world.exists_at((isize::MIN, isize::MIN)));
}

#[test]
fn world_is_empty_beyond_the_stored_grid() {
    let world = ArrayWorld::from(grid_of(2, 2, &[1, 1, 1, 1]));
    assert!(world.exists_at((1, 1)));
    assert!(!world.exists_at((2, 0)));
    assert!(!world.exists_at((0, 2)));
    assert!(!world.exists_at((isize::MAX, isize::MAX)));
}

#[test]
fn world_clone_answers_alike() {
    let world = ArrayWorld::from(grid_of(2, 3, &[0, 0, 1, 0, 1, 0]));
    let copy = world.clone();
    for x in -1..4 {
        for y in -1..3 {
            assert_eq!(copy.exists_at((x, y)), world.exists_at((x, y)));
        }
    }
}

#[test]
fn hallway_clears_the_cells_on_the_line() {
    let mut g = grid_of(3, 4, &[1; 12]);
    draw_hallway(&mut g, Line { x: 1, y: 1, length: 2, axis: Axis::Vertical });
    assert_eq!(cells_of(&g, 3, 4), vec![1, 1, 1, 1, 1, 0, 0, 0, 1, 1, 1, 1]);
    draw_hallway(&mut g, Line { x: 0, y: 2, length: 2, axis: Axis::Horizontal });
    assert_eq!(cells_of(&g, 3, 4), vec![1, 1, 0, 1, 1, 0, 0, 0, 1, 1, 0, 1]);
}

#[test]
fn hallway_passes_over_points_beside_the_grid() {
    let mut g = grid_of(2, 2, &[1; 4]);
    draw_hallway(&mut g, Line { x: -2, y: 1, length: 6, axis: Axis::Horizontal });
    assert_eq!(cells_of(&g, 2, 2), vec![1, 0, 1, 0]);
    draw_hallway(&mut g, Line { x: 5, y: 5, length: 3, axis: Axis::Vertical });
    draw_hallway(&mut g, Line { x: 0, y: -9, length: 3, axis: Axis::Vertical });
    assert_eq!(cells_of(&g, 2, 2), vec![1, 0, 1, 0]);
}

#[test]
fn hallway_keeps_cleared_cells_clear() {
    let mut g = grid_of(1, 3, &[0, 1, 0]);
    draw_hallway(&mut g, Line { x: 0, y: 0, length: 2, axis: Axis::Vertical });
    assert_eq!(cells_of(&g, 1, 3), vec![0, 0, 0]);
}

#[test]
fn walls_are_black_and_hallways_white() {
    assert_eq!(backrooms::worldgen::cell_rgb(true), [0, 0, 0]);
    assert_eq!(backrooms::worldgen::cell_rgb(false), [255, 255, 255]);
}
