//! Splitting a rectangle into rooms, with a hallway along each cut.

use crate::util::{Axis, Line, Rectangle};
use vstd::prelude::*;

verus! {

/// Whether a rectangle can be cut `offset` steps from its origin along
/// `axis`: the cut lies within the rectangle, and its coordinate fits the
/// grid's coordinate type.
pub open spec fn can_partition(r: &Rectangle<isize, usize>, offset: usize, axis: Axis) -> bool {
    &&& offset <= r.spec_axis_length(axis)
    &&& offset <= isize::MAX
    &&& r.spec_axis_offset(axis) + offset <= isize::MAX
}

/// The two parts of a rectangle cut `offset` steps from its origin along
/// `axis`, and between them the line of the cut. The first part keeps the
/// origin and is `offset` long; the second begins where the first ends. The
/// line begins at the origin of the second part, runs across the cut axis
/// and is as long as the rectangle is across it.
pub open spec fn spec_make_partition(r: &Rectangle<isize, usize>, offset: usize, axis: Axis) -> (
    Rectangle<isize, usize>,
    Line,
    Rectangle<isize, usize>,
) {
    match axis {
        Axis::Horizontal => (
            Rectangle { x: r.x, y: r.y, w: offset, h: r.h },
            Line { x: (r.x + offset) as isize, y: r.y, length: r.h, axis: Axis::Vertical },
            Rectangle { x: (r.x + offset) as isize, y: r.y, w: (r.w - offset) as usize, h: r.h },
        ),
        Axis::Vertical => (
            Rectangle { x: r.x, y: r.y, w: r.w, h: offset },
            Line { x: r.x, y: (r.y + offset) as isize, length: r.w, axis: Axis::Horizontal },
            Rectangle { x: r.x, y: (r.y + offset) as isize, w: r.w, h: (r.h - offset) as usize },
        ),
    }
}

/// Cuts a rectangle in two, `offset` steps from its origin along `axis`, and
/// gives the two parts with the line of the cut between them.
pub fn make_partition(r: &Rectangle<isize, usize>, offset: usize, axis: Axis) -> (parts: (
    Rectangle<isize, usize>,
    Line,
    Rectangle<isize, usize>,
))
    requires
        can_partition(r, offset, axis),
    ensures
        parts == spec_make_partition(r, offset, axis),
{
    match axis {
        Axis::Horizontal => {
            let r1 = Rectangle { x: r.x, y: r.y, w: offset, h: r.h };
            let r2 = Rectangle { x: r.x + offset as isize, y: r.y, w: r.w - offset, h: r.h };
            let p = Line { x: r.x + offset as isize, y: r.y, length: r.h, axis: Axis::Vertical };
            (r1, p, r2)
        },
        Axis::Vertical => {
            let r1 = Rectangle { x: r.x, y: r.y, w: r.w, h: offset };
            let r2 = Rectangle { x: r.x, y: r.y + offset as isize, w: r.w, h: r.h - offset };
            let p = Line { x: r.x, y: r.y + offset as isize, length: r.w, axis: Axis::Horizontal };
            (r1, p, r2)
        },
    }
}

/// The two parts of a cut tile the rectangle: each grid point of the
/// rectangle lies in one part and not in the other, and the parts hold no
/// other points. Their areas add up to the rectangle's, and the points of the
/// line have the coordinate of the cut.
pub proof fn lemma_partition_tiles(
    r: &Rectangle<isize, usize>,
    offset: usize,
    axis: Axis,
    p: (int, int),
    i: int,
)
    requires
        can_partition(r, offset, axis),
    ensures
        ({
            let (r1, line, r2) = spec_make_partition(r, offset, axis);
            &&& r.covers(p) <==> r1.covers(p) || r2.covers(p)
            &&& !(r1.covers(p) && r2.covers(p))
            &&& r1.area() + r2.area() == r.area()
            &&& line.axis == axis.complement()
            &&& match axis {
                Axis::Horizontal => line.point_at(i) == (r.x + offset, r.y + i),
                Axis::Vertical => line.point_at(i) == (r.x + i, r.y + offset),
            }
        }),
{
    let (r1, line, r2) = spec_make_partition(r, offset, axis);
    match axis {
        Axis::Horizontal => {
            assert(offset * r.h + (r.w - offset) * r.h == r.w * r.h) by (nonlinear_arith);
        },
        Axis::Vertical => {
            assert(r.w * offset + r.w * (r.h - offset) == r.w * r.h) by (nonlinear_arith);
        },
    }
}

/// Whether a room is too small to be cut: half of its shorter side, rounded
/// down, does not exceed `min_room_len`.
pub open spec fn too_small(r: Rectangle<isize, usize>, min_room_len: usize) -> bool {
    (if r.w <= r.h {
        r.w
    } else {
        r.h
    }) / 2 <= min_room_len
}

/// Whether the room `r` lies inside the rectangle `full`.
pub open spec fn inside(r: Rectangle<isize, usize>, full: Rectangle<isize, usize>) -> bool {
    &&& full.x <= r.x
    &&& r.x + r.w <= full.x + full.w
    &&& full.y <= r.y
    &&& r.y + r.h <= full.y + full.h
}

/// `1` where the room `r` holds the grid point `p`, else `0`.
pub open spec fn covering(r: Rectangle<isize, usize>, p: (int, int)) -> nat {
    if r.covers(p) {
        1
    } else {
        0
    }
}

/// The number of rooms among `rooms` that hold the grid point `p`.
pub open spec fn cover_count(rooms: Seq<Rectangle<isize, usize>>, p: (int, int)) -> nat
    decreases rooms.len(),
{
    if rooms.len() == 0 {
        0
    } else {
        cover_count(rooms.drop_last(), p) + covering(rooms.last(), p)
    }
}

/// One more room holds a point, or not, as the room says.
pub proof fn lemma_cover_count_push(
    rooms: Seq<Rectangle<isize, usize>>,
    r: Rectangle<isize, usize>,
    p: (int, int),
)
    ensures
        cover_count(rooms.push(r), p) == cover_count(rooms, p) + covering(r, p),
{
    assert(rooms.push(r).drop_last() =~= rooms);
}

/// A room taken away no longer counts.
pub proof fn lemma_cover_count_remove(
    rooms: Seq<Rectangle<isize, usize>>,
    i: int,
    p: (int, int),
)
    requires
        0 <= i < rooms.len(),
    ensures
        cover_count(rooms.remove(i), p) + covering(rooms[i], p) == cover_count(rooms, p),
    decreases rooms.len(),
{
    if i < rooms.len() - 1 {
        lemma_cover_count_remove(rooms.drop_last(), i, p);
        assert(rooms.remove(i).drop_last() =~= rooms.drop_last().remove(i));
        assert(rooms.remove(i).last() == rooms.last());
    }
}

/// The work list of a random binary space partition.
///
/// Rooms wait in `examining`. The driver picks one of them, by chance, and
/// takes it. A room too small to be cut is safe at once; any other is handed
/// to the driver, who either keeps it, which makes it safe, or names an axis
/// and draws an offset, at which the room is cut: the two parts go back to
/// `examining`, and the line of the cut is one more partition. The driver is
/// done when no room waits.
pub struct Partitioner {
    examining: Vec<Rectangle<isize, usize>>,
    safe: Vec<Rectangle<isize, usize>>,
    partitions: Vec<Line>,
    current: Option<Rectangle<isize, usize>>,
    min_room_len: usize,
    full_rect: Ghost<Rectangle<isize, usize>>,
}

impl Partitioner {
    /// The rooms that wait to be examined.
    pub closed spec fn examining(&self) -> Seq<Rectangle<isize, usize>> {
        self.examining@
    }

    /// The rooms that will not be cut any more.
    pub closed spec fn safe(&self) -> Seq<Rectangle<isize, usize>> {
        self.safe@
    }

    /// The lines of the cuts made so far.
    pub closed spec fn partitions(&self) -> Seq<Line> {
        self.partitions@
    }

    /// The room that the driver holds, if any.
    pub closed spec fn current(&self) -> Option<Rectangle<isize, usize>> {
        self.current
    }

    /// No room is made shorter than half of this by a cut.
    pub closed spec fn min_room_len(&self) -> usize {
        self.min_room_len
    }

    /// The rectangle that the partition began with.
    pub closed spec fn full_rect(&self) -> Rectangle<isize, usize> {
        self.full_rect@
    }

    /// The number of rooms, waiting, held or safe, that hold the grid point
    /// `p`.
    pub open spec fn rooms_at(&self, p: (int, int)) -> nat {
        cover_count(self.examining(), p) + cover_count(self.safe(), p) + match self.current() {
            Some(r) => covering(r, p),
            None => 0,
        }
    }

    /// What holds of every work list: the rooms tile the full rectangle,
    /// that is, each grid point of it lies in one room, and no room holds any
    /// other point; each room lies inside the full rectangle; and a room that
    /// the driver holds is not too small to be cut.
    pub open spec fn wf(&self) -> bool {
        &&& forall|p: (int, int)| #[trigger] self.rooms_at(p) == covering(self.full_rect(), p)
        &&& forall|i: int|
            0 <= i < self.examining().len() ==> inside(
                #[trigger] self.examining()[i],
                self.full_rect(),
            )
        &&& forall|i: int|
            0 <= i < self.safe().len() ==> inside(#[trigger] self.safe()[i], self.full_rect())
        &&& self.current() matches Some(r) ==> inside(r, self.full_rect()) && !too_small(
            r,
            self.min_room_len(),
        )
    }

    /// How many offsets a cut of the held room along `axis` can be drawn
    /// from: the offsets leave `min_room_len` of the room's length out.
    pub open spec fn spec_offset_choices(&self, axis: Axis) -> int {
        self.current().unwrap().spec_axis_length(axis) - self.min_room_len() + 1
    }

    /// The offset of the cut for a draw: the least offset is half of
    /// `min_room_len`, rounded down.
    pub open spec fn offset_for(&self, draw: usize) -> int {
        draw + self.min_room_len() / 2
    }

    /// Whether the held room can be cut along `axis` at the offset that
    /// belongs to `draw`: the draw is one of the choices, and the coordinate
    /// of the cut fits the grid's coordinate type.
    pub open spec fn can_split(&self, axis: Axis, draw: usize) -> bool {
        &&& self.current() is Some
        &&& draw < self.spec_offset_choices(axis)
        &&& self.offset_for(draw) <= isize::MAX
        &&& self.current().unwrap().spec_axis_offset(axis) + self.offset_for(draw) <= isize::MAX
    }

    /// Whether a rectangle has sides and far corner coordinates that fit the
    /// grid's coordinate type.
    pub open spec fn fits_grid(full: Rectangle<isize, usize>) -> bool {
        &&& full.w <= isize::MAX
        &&& full.h <= isize::MAX
        &&& full.x + full.w <= isize::MAX
        &&& full.y + full.h <= isize::MAX
    }

    /// Where the full rectangle fits the grid's coordinate type, every held
    /// room can be cut along either axis at every offset that can be drawn.
    pub proof fn lemma_fitting_room_can_split(self, axis: Axis, draw: usize)
        requires
            self.wf(),
            Self::fits_grid(self.full_rect()),
            self.current() is Some,
            draw < self.spec_offset_choices(axis),
        ensures
            self.spec_offset_choices(axis) <= usize::MAX,
            self.can_split(axis, draw),
    {
    }

    /// A work list on which `full_rect` waits, with nothing done yet.
    pub fn new(full_rect: Rectangle<isize, usize>, min_room_len: usize) -> (r: Partitioner)
        ensures
            r.examining() == seq![full_rect],
            r.safe() == Seq::<Rectangle<isize, usize>>::empty(),
            r.partitions() == Seq::<Line>::empty(),
            r.current() is None,
            r.min_room_len() == min_room_len,
            r.full_rect() == full_rect,
            r.wf(),
    {
        let ghost full = full_rect;
        let mut examining = Vec::new();
        examining.push(full_rect);
        let r = Partitioner {
            examining,
            safe: Vec::new(),
            partitions: Vec::new(),
            current: None,
            min_room_len,
            full_rect: Ghost(full),
        };
        proof {
            assert(r.examining() =~= seq![full]);
            assert forall|p: (int, int)| #[trigger] r.rooms_at(p) == covering(full, p) by {
                lemma_cover_count_push(Seq::empty(), full, p);
            }
        }
        r
    }

    /// The number of rooms that wait.
    pub fn pending(&self) -> (n: usize)
        ensures
            n == self.examining().len(),
    {
        self.examining.len()
    }

    /// Takes the room at `index` off the rooms that wait. A room too small
    /// to be cut becomes safe, and `None` is returned; any other room is
    /// held, and returned for the driver to judge.
    pub fn take(&mut self, index: usize) -> (r: Option<Rectangle<isize, usize>>)
        requires
            old(self).wf(),
            old(self).current() is None,
            index < old(self).examining().len(),
        ensures
            final(self).wf(),
            final(self).examining() == old(self).examining().remove(index as int),
            final(self).partitions() == old(self).partitions(),
            final(self).min_room_len() == old(self).min_room_len(),
            final(self).full_rect() == old(self).full_rect(),
            final(self).current() == r,
            r == if too_small(old(self).examining()[index as int], old(self).min_room_len()) {
                None
            } else {
                Some(old(self).examining()[index as int])
            },
            final(self).safe() == if r is None {
                old(self).safe().push(old(self).examining()[index as int])
            } else {
                old(self).safe()
            },
    {
        let room = self.examining.remove(index);
        let shorter = if room.w <= room.h {
            room.w
        } else {
            room.h
        };
        let r = if shorter / 2 <= self.min_room_len {
            self.safe.push(room);
            None
        } else {
            let held = Rectangle { x: room.x, y: room.y, w: room.w, h: room.h };
            self.current = Some(room);
            Some(held)
        };
        proof {
            assert forall|p: (int, int)| #[trigger]
                self.rooms_at(p) == covering(self.full_rect(), p) by {
                lemma_cover_count_remove(old(self).examining(), index as int, p);
                lemma_cover_count_push(old(self).safe(), room, p);
                assert(old(self).rooms_at(p) == covering(self.full_rect(), p));
            }
        }
        r
    }

    /// Keeps the held room as it is: it becomes safe.
    pub fn keep(&mut self)
        requires
            old(self).wf(),
            old(self).current() is Some,
        ensures
            final(self).wf(),
            final(self).safe() == old(self).safe().push(old(self).current().unwrap()),
            final(self).current() is None,
            final(self).examining() == old(self).examining(),
            final(self).partitions() == old(self).partitions(),
            final(self).min_room_len() == old(self).min_room_len(),
            final(self).full_rect() == old(self).full_rect(),
    {
        let room = self.current.take().unwrap();
        self.safe.push(room);
        proof {
            assert forall|i: int| 0 <= i < self.safe().len() implies inside(
                #[trigger] self.safe()[i],
                self.full_rect(),
            ) by {
                if i < old(self).safe().len() {
                    assert(self.safe()[i] == old(self).safe()[i]);
                }
            }
            assert forall|p: (int, int)| #[trigger]
                self.rooms_at(p) == covering(self.full_rect(), p) by {
                lemma_cover_count_push(old(self).safe(), room, p);
                assert(old(self).rooms_at(p) == covering(self.full_rect(), p));
            }
        }
    }

    /// How many offsets a cut of the held room along `axis` can be drawn
    /// from.
    pub fn offset_choices(&self, axis: Axis) -> (n: usize)
        requires
            self.wf(),
            self.current() is Some,
            self.spec_offset_choices(axis) <= usize::MAX,
        ensures
            n == self.spec_offset_choices(axis),
            n >= 1,
    {
        let room = self.current.as_ref().unwrap();
        room.axis_length(axis) - self.min_room_len + 1
    }

    /// Cuts the held room along `axis`, at the offset that belongs to
    /// `draw`. The two parts wait to be examined, the first part before the
    /// second, and the line of the cut is the newest partition.
    pub fn split(&mut self, axis: Axis, draw: usize)
        requires
            old(self).wf(),
            old(self).can_split(axis, draw),
        ensures
            final(self).wf(),
            old(self).offset_for(draw) <= old(self).current().unwrap().spec_axis_length(axis),
            ({
                let parts = spec_make_partition(
                    &old(self).current().unwrap(),
                    old(self).offset_for(draw) as usize,
                    axis,
                );
                &&& final(self).examining() == old(self).examining().push(parts.0).push(parts.2)
                &&& final(self).partitions() == old(self).partitions().push(parts.1)
            }),
            final(self).current() is None,
            final(self).safe() == old(self).safe(),
            final(self).min_room_len() == old(self).min_room_len(),
            final(self).full_rect() == old(self).full_rect(),
    {
        let room = self.current.take().unwrap();
        let partition_offset = draw + self.min_room_len / 2;
        let (r1, p, r2) = make_partition(&room, partition_offset, axis);
        proof {
            assert forall|at: (int, int)| #[trigger]
                cover_count(old(self).examining().push(r1).push(r2), at) == cover_count(
                    old(self).examining(),
                    at,
                ) + covering(room, at) by {
                lemma_cover_count_push(old(self).examining(), r1, at);
                lemma_cover_count_push(old(self).examining().push(r1), r2, at);
                lemma_partition_tiles(&room, partition_offset, axis, at, 0);
            }
        }
        self.examining.push(r1);
        self.examining.push(r2);
        self.partitions.push(p);
        proof {
            assert forall|i: int| 0 <= i < self.safe().len() implies inside(
                #[trigger] self.safe()[i],
                self.full_rect(),
            ) by {
                assert(self.safe()[i] == old(self).safe()[i]);
            }
            assert forall|i: int| 0 <= i < self.examining().len() implies inside(
                #[trigger] self.examining()[i],
                self.full_rect(),
            ) by {
                if i < old(self).examining().len() {
                    assert(self.examining()[i] == old(self).examining()[i]);
                }
            }
            assert forall|at: (int, int)| #[trigger]
                self.rooms_at(at) == covering(self.full_rect(), at) by {
                assert(old(self).rooms_at(at) == covering(self.full_rect(), at));
                assert(cover_count(old(self).examining().push(r1).push(r2), at) == cover_count(
                    old(self).examining(),
                    at,
                ) + covering(room, at));
            }
        }
    }

    /// Ends the partition: the safe rooms, and the lines of the cuts. Once
    /// no room waits or is held, the safe rooms tile the full rectangle.
    pub fn finish(self) -> (r: (Vec<Rectangle<isize, usize>>, Vec<Line>))
        requires
            self.wf(),
        ensures
            r.0@ == self.safe(),
            r.1@ == self.partitions(),
            forall|i: int| 0 <= i < r.0@.len() ==> inside(#[trigger] r.0@[i], self.full_rect()),
            self.examining().len() == 0 && self.current() is None ==> forall|p: (int, int)|
                #[trigger] cover_count(r.0@, p) == covering(self.full_rect(), p),
    {
        proof {
            assert forall|p: (int, int)|
                self.examining().len() == 0 && self.current() is None implies #[trigger] cover_count(
                self.safe(),
                p,
            ) == covering(self.full_rect(), p) by {
                assert(self.rooms_at(p) == covering(self.full_rect(), p));
            }
        }
        (self.safe, self.partitions)
    }
}

} // verus!
