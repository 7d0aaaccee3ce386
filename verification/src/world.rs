//! A world stored as a two-dimensional array of cells.

use crate::camera::RaycastableWorld;
use ndarray::Array2;
use vstd::prelude::*;
use vstd::std_specs::convert::FromSpecImpl;

verus! {

/// A two-dimensional array of cells, each of them `true` or `false`,
/// addressed by `(row, column)`.
///
/// The cells are held by an `ndarray::Array2<bool>`, of which the verifier
/// sees nothing but `grid_cells`.
#[derive(Debug)]
#[verifier::external_body]
pub struct Grid {
    cells: Array2<bool>,
}

/// The cells of a grid, by `(row, column)`. The domain is the set of
/// indices that the grid holds.
pub uninterp spec fn grid_cells(g: Grid) -> Map<(int, int), bool>;

/// `1` for an axis without cells, else its length.
pub open spec fn non_zero(len: nat) -> nat {
    if len == 0 {
        1
    } else {
        len
    }
}

/// Whether `len` cells fill a grid of `rows` rows and `cols` columns that
/// can be addressed.
pub open spec fn shape_fits(rows: nat, cols: nat, len: nat) -> bool {
    rows * cols == len && non_zero(rows) * non_zero(cols) <= isize::MAX
}

/// The grid of `rows` rows and `cols` columns whose rows stand one after
/// the other in `cells`.
pub open spec fn row_major(rows: nat, cols: nat, cells: Seq<bool>) -> Map<(int, int), bool> {
    Map::new(
        |at: (int, int)| 0 <= at.0 < rows && 0 <= at.1 < cols,
        |at: (int, int)| cells[at.0 * cols + at.1],
    )
}

/// `Array2::from_shape_vec` with the shape `(rows, cols)`, which takes the
/// cells in row-major order. It refuses a vector whose length is not
/// `rows * cols`, and a shape whose axes that have cells multiply to more
/// than `isize::MAX`; nothing else.
#[verifier::external_body]
fn grid_from_shape_vec(rows: usize, cols: usize, cells: Vec<bool>) -> (r: Option<Grid>)
    ensures
        r is Some <==> shape_fits(rows as nat, cols as nat, cells@.len()),
        r matches Some(g) ==> grid_cells(g) == row_major(rows as nat, cols as nat, cells@),
{
    match Array2::from_shape_vec((rows, cols), cells) {
        Ok(cells) => Some(Grid { cells }),
        Err(_) => None,
    }
}

/// `ArrayBase::get` with a `(row, column)` index: the cell there, or `None`
/// where the grid has no such index.
#[verifier::external_body]
fn grid_get(g: &Grid, row: usize, col: usize) -> (r: Option<bool>)
    ensures
        r == if grid_cells(*g).dom().contains((row as int, col as int)) {
            Some(grid_cells(*g)[(row as int, col as int)])
        } else {
            None::<bool>
        },
{
    g.cells.get((row, col)).copied()
}

/// `ArrayBase::get_mut` with a `(row, column)` index: the cell there, to be
/// written through, or `None` where the grid has no such index. No other
/// cell changes, and the grid keeps its indices.
#[verifier::external_body]
pub(crate) fn grid_get_mut(g: &mut Grid, row: usize, col: usize) -> (r: Option<&mut bool>)
    ensures
        match r {
            Some(cell) => {
                &&& grid_cells(*old(g)).dom().contains((row as int, col as int))
                &&& *cell == grid_cells(*old(g))[(row as int, col as int)]
                &&& grid_cells(*final(g)) == grid_cells(*old(g)).insert(
                    (row as int, col as int),
                    *final(cell),
                )
            },
            None => {
                &&& !grid_cells(*old(g)).dom().contains((row as int, col as int))
                &&& grid_cells(*final(g)) == grid_cells(*old(g))
            },
        },
{
    g.cells.get_mut((row, col))
}

/// `Clone::clone` of the array: a grid of its own with the same cells.
#[verifier::external_body]
fn grid_clone(g: &Grid) -> (r: Grid)
    ensures
        grid_cells(r) == grid_cells(*g),
{
    Grid { cells: g.cells.clone() }
}

impl Clone for Grid {
    fn clone(&self) -> (r: Grid)
        ensures
            grid_cells(r) == grid_cells(*self),
    {
        grid_clone(self)
    }
}

impl Grid {
    /// Makes a grid of `rows` rows and `cols` columns from its cells in
    /// row-major order; `None` where the shape does not fit the cells.
    pub fn from_shape_vec(rows: usize, cols: usize, cells: Vec<bool>) -> (r: Option<Grid>)
        ensures
            r is Some <==> shape_fits(rows as nat, cols as nat, cells@.len()),
            r matches Some(g) ==> grid_cells(g) == row_major(rows as nat, cols as nat, cells@),
    {
        grid_from_shape_vec(rows, cols, cells)
    }

    /// The cell at `(row, col)`, or `None` where the grid has no such cell.
    pub fn get(&self, row: usize, col: usize) -> (r: Option<bool>)
        ensures
            r == if grid_cells(*self).dom().contains((row as int, col as int)) {
                Some(grid_cells(*self)[(row as int, col as int)])
            } else {
                None::<bool>
            },
    {
        grid_get(self, row, col)
    }
}

/// A world whose objects are the `true` cells of a grid. The cell at the
/// grid coordinate `(x, y)` stands in row `y` and column `x`.
#[derive(Debug)]
pub struct ArrayWorld {
    map: Grid,
}

impl View for ArrayWorld {
    type V = Map<(int, int), bool>;

    /// The cells of the world's grid, by `(row, column)`.
    closed spec fn view(&self) -> Map<(int, int), bool> {
        grid_cells(self.map)
    }
}

impl RaycastableWorld for ArrayWorld {
    /// An object occupies `(x, y)` where neither coordinate is negative and
    /// the grid has a `true` cell in row `y` and column `x`.
    open spec fn occupied(&self, pos: (int, int)) -> bool {
        &&& pos.0 >= 0
        &&& pos.1 >= 0
        &&& self@.dom().contains((pos.1, pos.0))
        &&& self@[(pos.1, pos.0)]
    }

    fn exists_at(&self, pos: (isize, isize)) -> (r: bool) {
        let (x, y) = pos;
        if x < 0 || y < 0 {
            return false;
        }
        match grid_get(&self.map, y as usize, x as usize) {
            Some(cell) => cell,
            None => false,
        }
    }
}

impl Clone for ArrayWorld {
    fn clone(&self) -> (r: ArrayWorld)
        ensures
            r@ == self@,
    {
        ArrayWorld { map: self.map.clone() }
    }
}

impl From<Grid> for ArrayWorld {
    /// The world whose cells are those of `map`.
    fn from(map: Grid) -> (r: ArrayWorld)
        ensures
            r@ == grid_cells(map),
    {
        Self { map }
    }
}

impl FromSpecImpl<Grid> for ArrayWorld {
    open spec fn obeys_from_spec() -> bool {
        true
    }

    closed spec fn from_spec(map: Grid) -> ArrayWorld {
        ArrayWorld { map }
    }
}

} // verus!
