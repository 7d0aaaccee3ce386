//! Laying out a level on a grid of cells.

pub mod hallways;

use crate::util::Line;
use crate::world::{grid_cells, grid_get_mut, Grid};
use vstd::prelude::*;

verus! {

/// Whether a hallway along `l` clears the cell at `at`: the cell whose row
/// and column are the two coordinates of a point of `l`, where neither is
/// negative.
pub open spec fn on_hallway(l: Line, at: (int, int)) -> bool {
    l.has_point(at) && at.0 >= 0 && at.1 >= 0
}

/// The cells of a grid after a hallway has been drawn along `l`: the cells
/// on the hallway are `false`, the others are as they were.
pub open spec fn hallway_drawn(cells: Map<(int, int), bool>, l: Line) -> Map<(int, int), bool> {
    Map::new(
        |at: (int, int)| cells.dom().contains(at),
        |at: (int, int)|
            if on_hallway(l, at) {
                false
            } else {
                cells[at]
            },
    )
}

/// The cells of a grid after the first `k` points of a hallway along `l`
/// have been drawn.
spec fn hallway_begun(cells: Map<(int, int), bool>, l: Line, k: int) -> Map<
    (int, int),
    bool,
> {
    Map::new(
        |at: (int, int)| cells.dom().contains(at),
        |at: (int, int)|
            if on_hallway(l, at) && l.index_of(at) < k {
                false
            } else {
                cells[at]
            },
    )
}

/// Draws a hallway into a grid: each point of `l` that is a cell of the
/// grid, taken as `(row, column)`, is set to `false`. Points beside the grid
/// are passed over.
pub fn draw_hallway(a: &mut Grid, l: Line)
    requires
        l.in_range(),
    ensures
        grid_cells(*final(a)) == hallway_drawn(grid_cells(*old(a)), l),
{
    let pts = l.points();
    let mut k: usize = 0;
    while k < pts.len()
        invariant
            k <= pts@.len(),
            l.in_range(),
            pts@ == l.spec_points(),
            grid_cells(*a) == hallway_begun(grid_cells(*old(a)), l, k as int),
        decreases pts@.len() - k,
    {
        let pos = pts[k];
        if pos.0 >= 0 && pos.1 >= 0 {
            if let Some(c) = grid_get_mut(a, pos.0 as usize, pos.1 as usize) {
                *c = false
            }
        }
        k = k + 1;
    }
}

/// The colour of a cell in a picture of a grid, as red, green and blue: a
/// `true` cell is black, a `false` cell is white.
pub fn cell_rgb(cell: bool) -> (rgb: [u8; 3])
    ensures
        rgb@ == if cell {
            seq![0u8, 0u8, 0u8]
        } else {
            seq![255u8, 255u8, 255u8]
        },
{
    if cell {
        [0u8, 0, 0]
    } else {
        [255, 255, 255]
    }
}

} // verus!
