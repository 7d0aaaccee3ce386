//! What a ray march decides: which side of a grid cell a ray leaves through,
//! and what it meets in the cell beyond that side.

use crate::util::Direction;
use vstd::prelude::*;

verus! {

/// A world that a ray can be cast through.
pub trait RaycastableWorld {
    /// Whether an object occupies the cell at a grid coordinate `(x, y)`.
    spec fn occupied(&self, pos: (int, int)) -> bool;

    /// Given a grid coordinate, return if there is an object there or not.
    /// No cell with a negative coordinate holds one.
    fn exists_at(&self, pos: (isize, isize)) -> (r: bool)
        ensures
            r == self.occupied((pos.0 as int, pos.1 as int)),
            pos.0 < 0 || pos.1 < 0 ==> !r,
    ;
}

impl<'a, T: RaycastableWorld + ?Sized> RaycastableWorld for &'a T {
    open spec fn occupied(&self, pos: (int, int)) -> bool {
        (**self).occupied(pos)
    }

    fn exists_at(&self, pos: (isize, isize)) -> (r: bool) {
        (**self).exists_at(pos)
    }
}

impl<T: RaycastableWorld + ?Sized> RaycastableWorld for Box<T> {
    open spec fn occupied(&self, pos: (int, int)) -> bool {
        (**self).occupied(pos)
    }

    fn exists_at(&self, pos: (isize, isize)) -> (r: bool) {
        (**self).exists_at(pos)
    }
}

impl<T: RaycastableWorld + ?Sized> RaycastableWorld for std::sync::Arc<T> {
    open spec fn occupied(&self, pos: (int, int)) -> bool {
        (**self).occupied(pos)
    }

    fn exists_at(&self, pos: (isize, isize)) -> (r: bool) {
        (**self).exists_at(pos)
    }
}

/// Where one component of a ray points along its axis.
#[derive(Debug, Clone, Copy, PartialEq, Eq, Structural)]
pub enum Heading {
    Negative,
    Zero,
    Positive,
}

impl Heading {
    /// The heading of a ray component `c` of which two comparisons are
    /// known: whether `c > 0`, and whether `c == 0`.
    pub open spec fn spec_from_comparisons(gt_zero: bool, eq_zero: bool) -> Heading {
        if gt_zero {
            Heading::Positive
        } else if eq_zero {
            Heading::Zero
        } else {
            Heading::Negative
        }
    }

    /// The heading of the component negated.
    pub open spec fn flipped(self) -> Heading {
        match self {
            Heading::Negative => Heading::Positive,
            Heading::Zero => Heading::Zero,
            Heading::Positive => Heading::Negative,
        }
    }

    /// The sign of a component with this heading: -1, 0 or 1.
    pub open spec fn sign(self) -> int {
        match self {
            Heading::Negative => -1,
            Heading::Zero => 0,
            Heading::Positive => 1,
        }
    }

    /// Classifies a ray component `c` from the outcome of the comparisons
    /// `c > 0` and `c == 0`. A component for which neither holds counts as
    /// negative, whatever it is.
    #[verifier::when_used_as_spec(spec_from_comparisons)]
    pub fn from_comparisons(gt_zero: bool, eq_zero: bool) -> (r: Heading)
        ensures
            r == Heading::spec_from_comparisons(gt_zero, eq_zero),
    {
        if gt_zero {
            Heading::Positive
        } else if eq_zero {
            Heading::Zero
        } else {
            Heading::Negative
        }
    }
}

/// Whether a ray with these headings goes nowhere: it has no exit side.
pub open spec fn degenerate(x: Heading, y: Heading) -> bool {
    x is Zero && y is Zero
}

/// The side of the unit box through which a ray leaves it.
///
/// A ray along an axis leaves through the side that it points at. Any other
/// ray points at a vertical and at a horizontal side; `vertical_first` says
/// that it reaches the line of the vertical one first.
pub open spec fn spec_exit_side(x: Heading, y: Heading, vertical_first: bool) -> Direction {
    if x is Zero || (!(y is Zero) && !vertical_first) {
        if y is Positive {
            Direction::North
        } else {
            Direction::South
        }
    } else {
        if x is Positive {
            Direction::East
        } else {
            Direction::West
        }
    }
}

/// Decides the side of the unit box through which a ray leaves it, from the
/// headings of the ray's components.
///
/// The ray is mirrored, where a component is positive, so that it heads for
/// the origin corner. There a ray with both components non-zero crosses the
/// line `x = 0` and the line `y = 0`; `vertical_first` tells whether it
/// crosses `y = 0` at a negative `x`, that is, leaves through the side on
/// `x = 0`. A crossing exactly in the corner is not negative, so such a ray
/// leaves through the side on `y = 0`. The side found is mirrored back.
pub fn exit_side(x: Heading, y: Heading, vertical_first: bool) -> (side: Direction)
    requires
        !degenerate(x, y),
    ensures
        side == spec_exit_side(x, y, vertical_first),
        side.unit_vector().0 == 0 || side.unit_vector().0 == x.sign(),
        side.unit_vector().1 == 0 || side.unit_vector().1 == y.sign(),
{
    let x_zero = matches!(x, Heading::Zero);
    let y_zero = matches!(y, Heading::Zero);
    let towards_origin = match (x_zero, y_zero) {
        (true, _) => Direction::South,
        (false, true) => Direction::West,
        (false, false) => if vertical_first {
            Direction::West
        } else {
            Direction::South
        },
    };
    let unmirrored_ud = if matches!(y, Heading::Positive) {
        towards_origin.reflect_ud()
    } else {
        towards_origin
    };
    if matches!(x, Heading::Positive) {
        unmirrored_ud.reflect_lr()
    } else {
        unmirrored_ud
    }
}

/// Mirroring a ray left to right mirrors its exit side left to right, and
/// mirroring it up to down mirrors the side up to down, as long as the
/// mirrored ray reaches the same line first.
pub proof fn lemma_exit_side_mirrors(x: Heading, y: Heading, vertical_first: bool)
    requires
        !degenerate(x, y),
    ensures
        !degenerate(x.flipped(), y),
        !degenerate(x, y.flipped()),
        spec_exit_side(x.flipped(), y, vertical_first) == spec_exit_side(
            x,
            y,
            vertical_first,
        ).reflect_lr(),
        spec_exit_side(x, y.flipped(), vertical_first) == spec_exit_side(
            x,
            y,
            vertical_first,
        ).reflect_ud(),
{
}

/// Two decisions on the same headings and the same crossing name the same
/// side.
pub proof fn lemma_exit_side_deterministic(
    x: Heading,
    y: Heading,
    vertical_first: bool,
    first: Direction,
    second: Direction,
)
    requires
        call_ensures(exit_side, (x, y, vertical_first), first),
        call_ensures(exit_side, (x, y, vertical_first), second),
    ensures
        first == second,
{
}

/// The cell next to `cell` on its side `side`.
pub open spec fn neighbor(cell: (int, int), side: Direction) -> (int, int) {
    (cell.0 + side.unit_vector().0, cell.1 + side.unit_vector().1)
}

/// The neighbour of a cell is another cell, and the cell is the neighbour's
/// neighbour on the opposite side: a step through a side always leaves the
/// cell, and the way back leads through the side that faces it.
pub proof fn lemma_neighbor_is_adjacent(cell: (int, int), side: Direction)
    ensures
        neighbor(cell, side) != cell,
        neighbor(neighbor(cell, side), side.opposite()) == cell,
{
}

/// What a ray meets when it leaves a cell.
#[derive(Debug, Clone, Copy, PartialEq, Eq)]
pub enum MarchStep {
    /// The ray struck the occupied cell `wall` on its face `wall_side`.
    Hit { wall: (usize, usize), wall_side: Direction },
    /// The ray goes on into the unoccupied cell `cell`.
    Advance { cell: (isize, isize) },
}

/// What a ray meets when it leaves `cell` through its side `outgoing`: the
/// neighbouring cell as a wall, struck on the face that looks back at
/// `cell`, if the world has an object there; else the neighbouring cell as
/// the next one to cross.
pub open spec fn spec_march_step<W: RaycastableWorld + ?Sized>(
    world: &W,
    cell: (isize, isize),
    outgoing: Direction,
) -> MarchStep {
    let probe = neighbor((cell.0 as int, cell.1 as int), outgoing);
    if world.occupied(probe) {
        MarchStep::Hit {
            wall: (probe.0 as usize, probe.1 as usize),
            wall_side: outgoing.opposite(),
        }
    } else {
        MarchStep::Advance { cell: (probe.0 as isize, probe.1 as isize) }
    }
}

/// Whether the neighbour of `cell` on its side `outgoing` has coordinates
/// that the grid's coordinate type holds.
pub open spec fn neighbor_in_range(cell: (isize, isize), outgoing: Direction) -> bool {
    let probe = neighbor((cell.0 as int, cell.1 as int), outgoing);
    isize::MIN <= probe.0 <= isize::MAX && isize::MIN <= probe.1 <= isize::MAX
}

/// One step of a ray march: the ray leaves `cell` through its side
/// `outgoing`, and the world is asked about the cell beyond.
pub fn march_step<W: RaycastableWorld + ?Sized>(
    world: &W,
    cell: (isize, isize),
    outgoing: Direction,
) -> (r: MarchStep)
    requires
        neighbor_in_range(cell, outgoing),
    ensures
        r == spec_march_step(world, cell, outgoing),
        r matches MarchStep::Hit { wall, wall_side } ==> {
            &&& world.occupied((wall.0 as int, wall.1 as int))
            &&& (wall.0 as int, wall.1 as int) == neighbor((cell.0 as int, cell.1 as int), outgoing)
            &&& neighbor((wall.0 as int, wall.1 as int), wall_side) == (cell.0 as int, cell.1 as int)
        },
        r matches MarchStep::Advance { cell: next } ==> {
            &&& !world.occupied((next.0 as int, next.1 as int))
            &&& (next.0 as int, next.1 as int) == neighbor((cell.0 as int, cell.1 as int), outgoing)
        },
{
    let step = outgoing.to_unit_vector();
    let probe: (isize, isize) = (cell.0 + step.0, cell.1 + step.1);
    if world.exists_at(probe) {
        MarchStep::Hit { wall: (probe.0 as usize, probe.1 as usize), wall_side: outgoing.negate() }
    } else {
        MarchStep::Advance { cell: probe }
    }
}

/// In a world without objects a ray never hits: every step goes on into the
/// neighbouring cell.
pub proof fn lemma_empty_world_never_hits<W: RaycastableWorld + ?Sized>(
    world: &W,
    cell: (isize, isize),
    outgoing: Direction,
)
    requires
        forall|pos: (int, int)| !world.occupied(pos),
    ensures
        ({
            let next = neighbor((cell.0 as int, cell.1 as int), outgoing);
            spec_march_step(world, cell, outgoing) == (MarchStep::Advance {
                cell: (next.0 as isize, next.1 as isize),
            })
        }),
{
}

/// Two steps from the same cell through the same side of the same world
/// meet the same thing.
pub proof fn lemma_march_step_deterministic<W: RaycastableWorld>(
    world: &W,
    cell: (isize, isize),
    outgoing: Direction,
    first: MarchStep,
    second: MarchStep,
)
    requires
        call_ensures(march_step::<W>, (world, cell, outgoing), first),
        call_ensures(march_step::<W>, (world, cell, outgoing), second),
    ensures
        first == second,
{
}

} // verus!
