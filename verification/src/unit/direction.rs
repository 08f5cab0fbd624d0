use crate::fixed::{Fixed, UNIT};
use crate::unit::point2d::Point2d;
use vstd::prelude::*;

verus! {

/// Raw length of each coordinate of a diagonal heading's vector. It falls a
/// little short of the square root of one half, so a step along a diagonal is
/// a little shorter than a step along an axis.
pub const DIAGONAL: i32 = 7_061;

/// One of the eight compass headings. North points up the screen, toward
/// smaller `y`.
#[derive(Clone, Copy, Debug, PartialEq, Eq, Structural)]
pub enum Direction {
    NORTH,
    NORTHEAST,
    EAST,
    SOUTHEAST,
    SOUTH,
    SOUTHWEST,
    WEST,
    NORTHWEST,
}

/// A length laid out toward the side that a sign names.
pub open spec fn toward(side: int, length: i32) -> i32 {
    if side > 0 {
        length
    } else if side < 0 {
        (-length) as i32
    } else {
        0
    }
}

impl Default for Direction {
    fn default() -> (d: Self)
        ensures
            d == Direction::NORTH,
    {
        Direction::NORTH
    }
}

impl Direction {
    /// The place of the heading on the compass ring, counted clockwise from
    /// north.
    pub open spec fn index(self) -> int {
        match self {
            Direction::NORTH => 0,
            Direction::NORTHEAST => 1,
            Direction::EAST => 2,
            Direction::SOUTHEAST => 3,
            Direction::SOUTH => 4,
            Direction::SOUTHWEST => 5,
            Direction::WEST => 6,
            Direction::NORTHWEST => 7,
        }
    }

    /// The heading at a place of the compass ring; places are taken modulo 8.
    pub open spec fn at(place: int) -> Direction {
        let k = place % 8;
        if k == 0 {
            Direction::NORTH
        } else if k == 1 {
            Direction::NORTHEAST
        } else if k == 2 {
            Direction::EAST
        } else if k == 3 {
            Direction::SOUTHEAST
        } else if k == 4 {
            Direction::SOUTH
        } else if k == 5 {
            Direction::SOUTHWEST
        } else if k == 6 {
            Direction::WEST
        } else {
            Direction::NORTHWEST
        }
    }

    /// The next heading clockwise.
    pub open spec fn clockwise(self) -> Direction {
        Self::at(self.index() + 1)
    }

    /// The next heading counter-clockwise.
    pub open spec fn counterclockwise(self) -> Direction {
        Self::at(self.index() - 1)
    }

    /// How far east one step of the heading leads: -1, 0 or 1.
    pub open spec fn east(self) -> int {
        match self {
            Direction::NORTHEAST | Direction::EAST | Direction::SOUTHEAST => 1,
            Direction::NORTHWEST | Direction::WEST | Direction::SOUTHWEST => -1,
            Direction::NORTH | Direction::SOUTH => 0,
        }
    }

    /// How far south (down the screen) one step of the heading leads: -1, 0
    /// or 1.
    pub open spec fn south(self) -> int {
        match self {
            Direction::SOUTHEAST | Direction::SOUTH | Direction::SOUTHWEST => 1,
            Direction::NORTHEAST | Direction::NORTH | Direction::NORTHWEST => -1,
            Direction::EAST | Direction::WEST => 0,
        }
    }

    /// The length of each non-zero coordinate of the heading's vector: a
    /// whole cell along an axis, [`DIAGONAL`] along both.
    pub open spec fn reach(self) -> i32 {
        if self.east() != 0 && self.south() != 0 {
            DIAGONAL
        } else {
            UNIT
        }
    }

    /// The vector of the heading: its reach, toward the side it leads to on
    /// each axis.
    pub open spec fn spec_as_coordinates(&self) -> Point2d<Fixed> {
        Point2d {
            x: Fixed { raw: toward(self.east(), self.reach()) },
            y: Fixed { raw: toward(self.south(), self.reach()) },
        }
    }

    /// The heading whose vector is `(x, y)`; north where no heading has that
    /// vector.
    pub open spec fn spec_from_xy(x: Fixed, y: Fixed) -> Direction {
        if exists|d: Direction| d.spec_as_coordinates() == (Point2d { x, y }) {
            choose|d: Direction| d.spec_as_coordinates() == (Point2d { x, y })
        } else {
            Direction::NORTH
        }
    }

    /// The vector that one step of this heading covers at full speed.
    #[verifier::when_used_as_spec(spec_as_coordinates)]
    pub fn as_coordinates(&self) -> (v: Point2d<Fixed>)
        ensures
            v == self.spec_as_coordinates(),
    {
        match self {
            Direction::NORTH => Point2d { x: Fixed { raw: 0 }, y: Fixed { raw: -UNIT } },
            Direction::NORTHEAST => Point2d {
                x: Fixed { raw: DIAGONAL },
                y: Fixed { raw: -DIAGONAL },
            },
            Direction::EAST => Point2d { x: Fixed { raw: UNIT }, y: Fixed { raw: 0 } },
            Direction::SOUTHEAST => Point2d {
                x: Fixed { raw: DIAGONAL },
                y: Fixed { raw: DIAGONAL },
            },
            Direction::SOUTH => Point2d { x: Fixed { raw: 0 }, y: Fixed { raw: UNIT } },
            Direction::SOUTHWEST => Point2d {
                x: Fixed { raw: -DIAGONAL },
                y: Fixed { raw: DIAGONAL },
            },
            Direction::WEST => Point2d { x: Fixed { raw: -UNIT }, y: Fixed { raw: 0 } },
            Direction::NORTHWEST => Point2d {
                x: Fixed { raw: -DIAGONAL },
                y: Fixed { raw: -DIAGONAL },
            },
        }
    }

    /// The heading with the vector `(x, y)`. A pair that is the vector of no
    /// heading gives north.
    #[verifier::when_used_as_spec(spec_from_xy)]
    pub fn from_xy(x: Fixed, y: Fixed) -> (d: Direction)
        ensures
            d == Self::spec_from_xy(x, y),
            forall|e: Direction| e.spec_as_coordinates() == (Point2d { x, y }) ==> d == e,
            (forall|e: Direction| e.spec_as_coordinates() != (Point2d { x, y })) ==> d
                == Direction::NORTH,
    {
        let d = if x.raw == 0 && y.raw == -UNIT {
            Direction::NORTH
        } else if x.raw == DIAGONAL && y.raw == -DIAGONAL {
            Direction::NORTHEAST
        } else if x.raw == UNIT && y.raw == 0 {
            Direction::EAST
        } else if x.raw == DIAGONAL && y.raw == DIAGONAL {
            Direction::SOUTHEAST
        } else if x.raw == 0 && y.raw == UNIT {
            Direction::SOUTH
        } else if x.raw == -DIAGONAL && y.raw == DIAGONAL {
            Direction::SOUTHWEST
        } else if x.raw == -UNIT && y.raw == 0 {
            Direction::WEST
        } else if x.raw == -DIAGONAL && y.raw == -DIAGONAL {
            Direction::NORTHWEST
        } else {
            Direction::NORTH
        };
        proof {
            let target = Point2d { x, y };
            assert forall|e: Direction| e.spec_as_coordinates() == target implies d == e by {
                Self::lemma_vectors_differ();
            }
            if d != Direction::NORTH {
                assert(d.spec_as_coordinates() == target);
            }
            if exists|e: Direction| e.spec_as_coordinates() == target {
                let e = choose|e: Direction| e.spec_as_coordinates() == target;
                assert(d == e);
            }
        }
        d
    }

    /// No two headings share a vector.
    pub proof fn lemma_vectors_differ()
        ensures
            forall|d: Direction, e: Direction|
                d.spec_as_coordinates() == e.spec_as_coordinates() ==> d == e,
    {
    }

    /// Reading a heading back from its own vector gives the heading again.
    pub proof fn lemma_vector_round_trip(d: Direction)
        ensures
            Self::spec_from_xy(d.spec_as_coordinates().x, d.spec_as_coordinates().y) == d,
    {
        Self::lemma_vectors_differ();
        let v = d.spec_as_coordinates();
        assert(d.spec_as_coordinates() == (Point2d { x: v.x, y: v.y }));
    }

    /// A turn one way followed by a turn the other way leaves the heading
    /// where it was.
    pub proof fn lemma_turns_cancel(d: Direction)
        ensures
            d.counterclockwise().clockwise() == d,
            d.clockwise().counterclockwise() == d,
    {
    }
}

} // verus!
