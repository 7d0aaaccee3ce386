//! Compass directions, axes, rectangles, lines and the bounds of a walker.

use core::cmp::Ordering;
use core::ops::{Add, Neg, Sub};
use vstd::prelude::*;
use vstd::std_specs::cmp::PartialOrdSpec;
use vstd::std_specs::ops::{AddSpec, NegSpec, NegSpecImpl, SubSpec};

verus! {

/// One of the four compass directions of the grid. East is `(1, 0)` and
/// North is `(0, 1)`.
#[derive(Debug, Clone, Copy, PartialEq, Eq, Structural)]
pub enum Direction {
    East,
    North,
    West,
    South,
}

/// One of the two axes of the grid.
#[derive(Debug, Clone, Copy, PartialEq, Eq, Structural)]
pub enum Axis {
    Horizontal,
    Vertical,
}

/// A quarter turn, counter-clockwise (`Left`) or clockwise (`Right`).
#[derive(Debug, Clone, Copy, PartialEq, Eq, Structural)]
pub enum TurnDir {
    Left,
    Right,
}

impl Axis {
    /// The other axis.
    pub open spec fn spec_complement(self) -> Axis {
        match self {
            Axis::Vertical => Axis::Horizontal,
            Axis::Horizontal => Axis::Vertical,
        }
    }

    /// The other axis.
    #[inline]
    #[verifier::when_used_as_spec(spec_complement)]
    pub fn complement(self) -> (r: Axis)
        ensures
            r == self.spec_complement(),
    {
        match self {
            Axis::Vertical => Axis::Horizontal,
            Axis::Horizontal => Axis::Vertical,
        }
    }
}

impl Direction {
    /// The direction that points the other way.
    pub open spec fn opposite(self) -> Direction {
        match self {
            Direction::East => Direction::West,
            Direction::North => Direction::South,
            Direction::West => Direction::East,
            Direction::South => Direction::North,
        }
    }

    /// East and West swapped, North and South kept.
    pub open spec fn spec_reflect_lr(self) -> Direction {
        match self {
            Direction::East => Direction::West,
            Direction::West => Direction::East,
            ns => ns,
        }
    }

    /// North and South swapped, East and West kept.
    pub open spec fn spec_reflect_ud(self) -> Direction {
        match self {
            Direction::North => Direction::South,
            Direction::South => Direction::North,
            ew => ew,
        }
    }

    /// The axis-aligned unit vector of a direction, as `(x, y)`.
    pub open spec fn unit_vector(self) -> (int, int) {
        match self {
            Direction::East => (1, 0),
            Direction::North => (0, 1),
            Direction::West => (-1, 0),
            Direction::South => (0, -1),
        }
    }

    /// The direction assigned to a vector `(x, y)` of which only two
    /// comparisons are known: whether `x >= y`, and whether `x >= -y`.
    pub open spec fn spec_from_comparisons(x_ge_y: bool, x_ge_neg_y: bool) -> Direction {
        if x_ge_y && x_ge_neg_y {
            Direction::North
        } else if x_ge_y {
            Direction::West
        } else if x_ge_neg_y {
            Direction::East
        } else {
            Direction::South
        }
    }

    /// The direction that points the other way. `-self` is the same.
    #[verifier::when_used_as_spec(opposite)]
    pub fn negate(self) -> (r: Direction)
        ensures
            r == self.opposite(),
    {
        match self {
            Direction::East => Direction::West,
            Direction::North => Direction::South,
            Direction::West => Direction::East,
            Direction::South => Direction::North,
        }
    }

    /// Reflect left to right, and right to left.
    #[verifier::when_used_as_spec(spec_reflect_lr)]
    pub fn reflect_lr(self) -> (r: Direction)
        ensures
            r == self.spec_reflect_lr(),
    {
        match self {
            Direction::East => Direction::West,
            Direction::West => Direction::East,
            ns => ns,
        }
    }

    /// Reflect up to down, and down to up.
    #[verifier::when_used_as_spec(spec_reflect_ud)]
    pub fn reflect_ud(self) -> (r: Direction)
        ensures
            r == self.spec_reflect_ud(),
    {
        match self {
            Direction::North => Direction::South,
            Direction::South => Direction::North,
            ew => ew,
        }
    }

    /// The unit vector of this direction, as `(x, y)`.
    pub fn to_unit_vector(self) -> (v: (isize, isize))
        ensures
            (v.0 as int, v.1 as int) == self.unit_vector(),
    {
        match self {
            Direction::East => (1, 0),
            Direction::North => (0, 1),
            Direction::West => (-1, 0),
            Direction::South => (0, -1),
        }
    }

    /// Classifies a vector `(x, y)` from the outcome of the two comparisons
    /// `x >= y` and `x >= -y`. A comparison that does not hold, for whatever
    /// reason, is passed as `false`.
    #[verifier::when_used_as_spec(spec_from_comparisons)]
    pub fn from_comparisons(x_ge_y: bool, x_ge_neg_y: bool) -> (r: Direction)
        ensures
            r == Direction::spec_from_comparisons(x_ge_y, x_ge_neg_y),
    {
        match (x_ge_y, x_ge_neg_y) {
            (true, true) => Direction::North,
            (true, false) => Direction::West,
            (false, false) => Direction::South,
            (false, true) => Direction::East,
        }
    }
}

impl Neg for Direction {
    type Output = Direction;

    fn neg(self) -> (r: Direction) {
        self.negate()
    }
}

impl NegSpecImpl for Direction {
    open spec fn obeys_neg_spec() -> bool {
        true
    }

    open spec fn neg_req(self) -> bool {
        true
    }

    open spec fn neg_spec(self) -> Direction {
        self.opposite()
    }
}

/// Negating a direction twice gives it back.
pub proof fn lemma_neg_involutive(d: Direction)
    ensures
        d.negate().negate() == d,
        NegSpec::neg_spec(NegSpec::neg_spec(d)) == d,
{
}

/// Reflecting a direction left to right twice gives it back.
pub proof fn lemma_reflect_lr_involutive(d: Direction)
    ensures
        d.reflect_lr().reflect_lr() == d,
{
}

/// Reflecting a direction up to down twice gives it back.
pub proof fn lemma_reflect_ud_involutive(d: Direction)
    ensures
        d.reflect_ud().reflect_ud() == d,
{
}

/// Reflecting both ways, in either order, is negation; the unit vector of a
/// reflection is the reflected unit vector.
pub proof fn lemma_reflections(d: Direction)
    ensures
        d.reflect_lr().reflect_ud() == d.opposite(),
        d.reflect_ud().reflect_lr() == d.opposite(),
        d.reflect_lr().unit_vector() == (-d.unit_vector().0, d.unit_vector().1),
        d.reflect_ud().unit_vector() == (d.unit_vector().0, -d.unit_vector().1),
        d.opposite().unit_vector() == (-d.unit_vector().0, -d.unit_vector().1),
{
}

/// The four directions have four different unit vectors, and every
/// axis-aligned unit vector belongs to one of them.
pub proof fn lemma_unit_vector_bijective(a: Direction, b: Direction, x: int, y: int)
    ensures
        a.unit_vector() == b.unit_vector() ==> a == b,
        (x == 0 && (y == 1 || y == -1)) || (y == 0 && (x == 1 || x == -1)) <==> exists|d: Direction|
            d.unit_vector() == (x, y),
{
    if (x == 0 && (y == 1 || y == -1)) || (y == 0 && (x == 1 || x == -1)) {
        let d = if x == 1 {
            Direction::East
        } else if x == -1 {
            Direction::West
        } else if y == 1 {
            Direction::North
        } else {
            Direction::South
        };
        assert(d.unit_vector() == (x, y));
    }
}

/// What can be turned by quarter turns.
pub trait Turnable where Self: Sized {
    /// The value after one quarter turn.
    spec fn turned(self, dir: TurnDir) -> Self;

    /// Turns by a quarter turn.
    fn rotate(self, dir: TurnDir) -> (r: Self)
        ensures
            r == self.turned(dir),
    ;

    /// Turns by a half turn, as two quarter turns to the left.
    fn rotate_180(self) -> (r: Self)
        ensures
            r == self.turned(TurnDir::Left).turned(TurnDir::Left),
    {
        self.rotate(TurnDir::Left).rotate(TurnDir::Left)
    }
}

impl Turnable for Direction {
    /// A quarter turn to the left goes East, North, West, South, East; one
    /// to the right goes the other way round.
    open spec fn turned(self, dir: TurnDir) -> Direction {
        match (dir, self) {
            (TurnDir::Left, Direction::East) => Direction::North,
            (TurnDir::Left, Direction::North) => Direction::West,
            (TurnDir::Left, Direction::West) => Direction::South,
            (TurnDir::Left, Direction::South) => Direction::East,
            (TurnDir::Right, Direction::East) => Direction::South,
            (TurnDir::Right, Direction::South) => Direction::West,
            (TurnDir::Right, Direction::West) => Direction::North,
            (TurnDir::Right, Direction::North) => Direction::East,
        }
    }

    fn rotate(self, dir: TurnDir) -> (r: Direction) {
        let left = match self {
            Direction::East => Direction::North,
            Direction::North => Direction::West,
            Direction::West => Direction::South,
            Direction::South => Direction::East,
        };
        match dir {
            TurnDir::Right => left.negate(),
            TurnDir::Left => left,
        }
    }
}

/// A right turn is the negation of a left turn, the two undo each other, two
/// equal turns negate, and four equal turns give the direction back.
pub proof fn lemma_direction_turns(d: Direction, dir: TurnDir)
    ensures
        d.turned(TurnDir::Right) == d.turned(TurnDir::Left).opposite(),
        d.turned(TurnDir::Left).turned(TurnDir::Right) == d,
        d.turned(TurnDir::Right).turned(TurnDir::Left) == d,
        d.turned(dir).turned(dir) == d.opposite(),
        d.turned(dir).turned(dir).turned(dir).turned(dir) == d,
        d.turned(TurnDir::Left).unit_vector() == (-d.unit_vector().1, d.unit_vector().0),
{
}

/// A rectangle with its origin at `(x, y)`, `w` wide and `h` high.
#[derive(Debug, Clone, PartialEq, Eq)]
pub struct Rectangle<O, L> {
    pub x: O,
    pub y: O,
    pub w: L,
    pub h: L,
}

impl<O, L: PartialOrd> Rectangle<O, L> {
    /// The axis along which the rectangle is longer, for a given outcome of
    /// comparing its width with its height.
    pub open spec fn longer_axis_for(w_to_h: Option<Ordering>) -> Option<Axis> {
        match w_to_h {
            Some(Ordering::Less) => Some(Axis::Vertical),
            Some(Ordering::Greater) => Some(Axis::Horizontal),
            _ => None,
        }
    }

    /// The axis along which the rectangle is longer; `None` for a square,
    /// and where width and height do not compare.
    pub fn longer_axis(&self) -> (r: Option<Axis>)
        ensures
            L::obeys_partial_cmp_spec() ==> r == Self::longer_axis_for(
                self.w.partial_cmp_spec(&self.h),
            ),
    {
        match self.w.partial_cmp(&self.h)? {
            Ordering::Less => Some(Axis::Vertical),
            Ordering::Equal => None,
            Ordering::Greater => Some(Axis::Horizontal),
        }
    }
}

/// Of a rectangle with whole sides, the longer axis is the horizontal one
/// where it is wider than high, the vertical one where it is higher than
/// wide, and none where it is a square.
pub proof fn lemma_longer_axis_of_whole_sides(r: Rectangle<isize, usize>)
    ensures
        usize::obeys_partial_cmp_spec(),
        Rectangle::<isize, usize>::longer_axis_for(r.w.partial_cmp_spec(&r.h)) == if r.w > r.h {
            Some(Axis::Horizontal)
        } else if r.w < r.h {
            Some(Axis::Vertical)
        } else {
            None
        },
{
}

impl<O, L: Copy> Rectangle<O, L> {
    /// The extent of the rectangle along an axis.
    pub open spec fn spec_axis_length(&self, axis: Axis) -> L {
        match axis {
            Axis::Horizontal => self.w,
            Axis::Vertical => self.h,
        }
    }

    /// The extent of the rectangle along an axis.
    #[inline]
    #[verifier::when_used_as_spec(spec_axis_length)]
    pub fn axis_length(&self, axis: Axis) -> (r: L)
        ensures
            r == self.spec_axis_length(axis),
    {
        match axis {
            Axis::Horizontal => self.w,
            Axis::Vertical => self.h,
        }
    }
}

impl<O: Copy, L> Rectangle<O, L> {
    /// The coordinate of the rectangle's origin along an axis.
    pub open spec fn spec_axis_offset(&self, axis: Axis) -> O {
        match axis {
            Axis::Horizontal => self.x,
            Axis::Vertical => self.y,
        }
    }

    /// The coordinate of the rectangle's origin along an axis.
    #[inline]
    #[verifier::when_used_as_spec(spec_axis_offset)]
    pub fn axis_offset(&self, axis: Axis) -> (r: O)
        ensures
            r == self.spec_axis_offset(axis),
    {
        match axis {
            Axis::Horizontal => self.x,
            Axis::Vertical => self.y,
        }
    }
}

impl Rectangle<isize, usize> {
    /// Whether the grid point `p` lies in the rectangle, which holds its
    /// origin and reaches up to, but not onto, its far sides.
    pub open spec fn covers(&self, p: (int, int)) -> bool {
        self.x <= p.0 < self.x + self.w && self.y <= p.1 < self.y + self.h
    }

    /// The number of grid points in the rectangle.
    pub open spec fn area(&self) -> nat {
        (self.w * self.h) as nat
    }
}

/// How far something reaches in each of the four directions that a walker
/// knows.
#[derive(Debug, Clone)]
pub struct RelativeBounds<T> {
    pub forward: T,
    pub back: T,
    pub left: T,
    pub right: T,
}

impl<T> Turnable for RelativeBounds<T> {
    /// After a turn to the right, what was to the left lies ahead; after a
    /// turn to the left, what was to the right does.
    open spec fn turned(self, dir: TurnDir) -> RelativeBounds<T> {
        match dir {
            TurnDir::Right => RelativeBounds {
                forward: self.left,
                back: self.right,
                left: self.back,
                right: self.forward,
            },
            TurnDir::Left => RelativeBounds {
                forward: self.right,
                back: self.left,
                left: self.forward,
                right: self.back,
            },
        }
    }

    fn rotate(self, dir: TurnDir) -> (r: RelativeBounds<T>) {
        match dir {
            TurnDir::Right => Self {
                forward: self.left,
                back: self.right,
                left: self.back,
                right: self.forward,
            },
            TurnDir::Left => Self {
                forward: self.right,
                back: self.left,
                left: self.forward,
                right: self.back,
            },
        }
    }
}

/// Opposite turns of bounds undo each other, and a half turn swaps forward
/// with back and left with right.
pub proof fn lemma_bounds_turns<T>(b: RelativeBounds<T>, dir: TurnDir)
    ensures
        b.turned(TurnDir::Left).turned(TurnDir::Right) == b,
        b.turned(TurnDir::Right).turned(TurnDir::Left) == b,
        b.turned(dir).turned(dir) == (RelativeBounds {
            forward: b.back,
            back: b.forward,
            left: b.right,
            right: b.left,
        }),
        b.turned(dir).turned(dir).turned(dir).turned(dir) == b,
{
}

impl<T> RelativeBounds<T> where T: Add<T, Output = T> + Sub<T, Output = T> + Copy {
    /// Whether the four sums and differences of `translate` may be formed.
    pub open spec fn can_translate(self, rhs: (T, T)) -> bool {
        &&& self.forward.add_req(rhs.1)
        &&& self.back.sub_req(rhs.1)
        &&& self.left.sub_req(rhs.0)
        &&& self.right.add_req(rhs.0)
    }

    /// The bounds after the frame has moved by `rhs`, given as `(x, y)`
    /// with `y` pointing forward and `x` to the right.
    pub open spec fn translated(self, rhs: (T, T)) -> RelativeBounds<T> {
        RelativeBounds {
            forward: self.forward.add_spec(rhs.1),
            back: self.back.sub_spec(rhs.1),
            left: self.left.sub_spec(rhs.0),
            right: self.right.add_spec(rhs.0),
        }
    }

    /// Moves the bounds by `rhs`, given as `(x, y)`: forward and right grow
    /// by `y` and `x`, back and left shrink by them.
    pub fn translate(self, rhs: (T, T)) -> (r: RelativeBounds<T>)
        requires
            self.can_translate(rhs),
        ensures
            <T as AddSpec<T>>::obeys_add_spec() && <T as SubSpec<T>>::obeys_sub_spec() ==> r
                == self.translated(rhs),
    {
        RelativeBounds {
            forward: self.forward + rhs.1,
            back: self.back - rhs.1,
            left: self.left - rhs.0,
            right: self.right + rhs.0,
        }
    }
}

impl<T> RelativeBounds<T> {
    /// Applies `f` to each of the four bounds, forward, back, left and right
    /// in this order.
    pub fn map<B, F: Fn(T) -> B>(self, f: F) -> (r: RelativeBounds<B>)
        requires
            call_requires(f, (self.forward,)),
            call_requires(f, (self.back,)),
            call_requires(f, (self.left,)),
            call_requires(f, (self.right,)),
        ensures
            call_ensures(f, (self.forward,), r.forward),
            call_ensures(f, (self.back,), r.back),
            call_ensures(f, (self.left,), r.left),
            call_ensures(f, (self.right,), r.right),
    {
        RelativeBounds {
            forward: f(self.forward),
            back: f(self.back),
            left: f(self.left),
            right: f(self.right),
        }
    }
}

/// A straight run of grid points: it starts at `(x, y)` and goes `length`
/// steps along `axis`, towards growing coordinates.
#[derive(Debug, Clone, PartialEq, Eq)]
pub struct Line {
    pub x: isize,
    pub y: isize,
    pub length: usize,
    pub axis: Axis,
}

impl Line {
    /// How many points the line has: one more than its length. A length
    /// beyond `isize::MAX` cannot be walked, and such a line has no points.
    pub open spec fn point_count(&self) -> nat {
        if self.length <= isize::MAX {
            (self.length + 1) as nat
        } else {
            0
        }
    }

    /// The point `i` steps from the start.
    pub open spec fn point_at(&self, i: int) -> (int, int) {
        match self.axis {
            Axis::Horizontal => (self.x + i, self.y as int),
            Axis::Vertical => (self.x as int, self.y + i),
        }
    }

    /// How many steps from the start a point lies, if it lies on the line.
    pub open spec fn index_of(&self, p: (int, int)) -> int {
        match self.axis {
            Axis::Horizontal => p.0 - self.x,
            Axis::Vertical => p.1 - self.y,
        }
    }

    /// Whether `p` is one of the points of the line.
    pub open spec fn has_point(&self, p: (int, int)) -> bool {
        0 <= self.index_of(p) < self.point_count() && self.point_at(self.index_of(p)) == p
    }

    /// Whether every point of the line has coordinates that fit the grid's
    /// coordinate type.
    pub open spec fn in_range(&self) -> bool {
        self.length <= isize::MAX ==> match self.axis {
            Axis::Horizontal => self.x + self.length <= isize::MAX,
            Axis::Vertical => self.y + self.length <= isize::MAX,
        }
    }

    /// The points of the line, from its start to its end.
    pub open spec fn spec_points(&self) -> Seq<(isize, isize)> {
        Seq::new(
            self.point_count(),
            |i: int| (self.point_at(i).0 as isize, self.point_at(i).1 as isize),
        )
    }

    /// The points of the line, from its start to its end.
    pub fn points(&self) -> (pts: Vec<(isize, isize)>)
        requires
            self.in_range(),
        ensures
            pts@ == self.spec_points(),
    {
        let mut pts: Vec<(isize, isize)> = Vec::new();
        if self.length > isize::MAX as usize {
            return pts;
        }
        let mut k: usize = 0;
        while k <= self.length
            invariant
                self.length <= isize::MAX,
                self.in_range(),
                k <= self.length + 1,
                pts@.len() == k,
                forall|i: int| 0 <= i < k ==> pts@[i] == #[trigger] self.spec_points()[i],
            decreases self.length + 1 - k,
        {
            let i: isize = k as isize;
            let p: (isize, isize) = match self.axis {
                Axis::Horizontal => (self.x + i, self.y),
                Axis::Vertical => (self.x, self.y + i),
            };
            pts.push(p);
            k = k + 1;
        }
        pts
    }
}

} // verus!
