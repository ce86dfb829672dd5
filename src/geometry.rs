use vstd::prelude::*;

verus! {

/// Width of the playfield, in thousandths of a pixel.
pub const FIELD_WIDTH: i64 = 400_000;

/// Height of the playfield, in thousandths of a pixel.
pub const FIELD_HEIGHT: i64 = 400_000;

/// Half the side of one square cell, in thousandths of a pixel.
pub const HALF_CELL: i64 = 5_000;

/// Movement direction of the agent; `Idle` means the agent stands still.
#[derive(Clone, Copy, Debug, PartialEq, Eq, Structural)]
pub enum Direction {
    Idle,
    Up,
    Down,
    Left,
    Right,
}

/// Whether `b` is the exact opposite of `a`.
pub open spec fn is_reverse(a: Direction, b: Direction) -> bool {
    match (a, b) {
        (Direction::Up, Direction::Down) => true,
        (Direction::Down, Direction::Up) => true,
        (Direction::Left, Direction::Right) => true,
        (Direction::Right, Direction::Left) => true,
        _ => false,
    }
}

impl Direction {
    /// Tells whether `other` points exactly against `self`.
    pub fn is_invert(&self, other: &Direction) -> (r: bool)
        ensures
            r == is_reverse(*self, *other),
    {
        match (self, other) {
            (Direction::Up, Direction::Down) => true,
            (Direction::Down, Direction::Up) => true,
            (Direction::Left, Direction::Right) => true,
            (Direction::Right, Direction::Left) => true,
            _ => false,
        }
    }
}

/// What a cell on the field is.
#[derive(Clone, Copy, Debug, PartialEq, Eq, Structural)]
pub enum Category {
    BodySegment,
    Waste,
    Healing,
    Hazard,
}

/// One cell: its centre, its category and a unique identifier.
#[derive(Clone, Copy, Debug, PartialEq, Eq, Structural)]
pub struct Segment {
    pub x: i64,
    pub y: i64,
    pub category: Category,
    pub id: u64,
}

/// Two cells overlap when their closed squares share a point: their centres
/// are at most one cell apart on both axes.
pub open spec fn overlaps(a: Segment, b: Segment) -> bool {
    &&& a.x - b.x <= 2 * HALF_CELL
    &&& b.x - a.x <= 2 * HALF_CELL
    &&& a.y - b.y <= 2 * HALF_CELL
    &&& b.y - a.y <= 2 * HALF_CELL
}

impl Segment {
    pub fn new(x: i64, y: i64, category: Category, id: u64) -> (r: Segment)
        ensures
            r == (Segment { x, y, category, id }),
    {
        Segment { x, y, category, id }
    }

    /// Tells whether the squares of the two cells overlap; touching edges count.
    pub fn intersects(&self, other: &Segment) -> (r: bool)
        ensures
            r == overlaps(*self, *other),
    {
        let this_x1 = self.x as i128 - HALF_CELL as i128;
        let this_x2 = self.x as i128 + HALF_CELL as i128;
        let this_y1 = self.y as i128 - HALF_CELL as i128;
        let this_y2 = self.y as i128 + HALF_CELL as i128;
        let other_x1 = other.x as i128 - HALF_CELL as i128;
        let other_x2 = other.x as i128 + HALF_CELL as i128;
        let other_y1 = other.y as i128 - HALF_CELL as i128;
        let other_y2 = other.y as i128 + HALF_CELL as i128;
        !(this_x2 < other_x1 || other_x2 < this_x1 || this_y2 < other_y1 || other_y2 < this_y1)
    }
}

/// One axis of the wrap-around: a coordinate past the upper edge less half a
/// cell moves back by the extent, one under half a cell moves on by it.
pub open spec fn wrap_axis(c: int, extent: int) -> int {
    if c > extent - HALF_CELL {
        c - extent
    } else if c < HALF_CELL {
        c + extent
    } else {
        c
    }
}

/// Whether a coordinate needs wrapping on an axis of the given extent.
pub open spec fn outside_axis(c: int, extent: int) -> bool {
    c > extent - HALF_CELL || c < HALF_CELL
}

/// The wrap-around of a head position. The axes are checked as one chain:
/// when the x coordinate is outside, only x is wrapped on this tick.
pub open spec fn wrapped(x: int, y: int) -> (int, int) {
    if outside_axis(x, FIELD_WIDTH as int) {
        (wrap_axis(x, FIELD_WIDTH as int), y)
    } else {
        (x, wrap_axis(y, FIELD_HEIGHT as int))
    }
}

/// A coordinate strictly past the upper edge less half a cell is moved back
/// by the extent, one strictly under half a cell is moved on by the extent,
/// and every other one stays. A coordinate that lies at most one extent
/// outside the range `[HALF_CELL, extent - HALF_CELL]` lands back in it.
pub proof fn lemma_wrap_axis(c: int, extent: int)
    requires
        extent == FIELD_WIDTH || extent == FIELD_HEIGHT,
    ensures
        c > extent - HALF_CELL ==> wrap_axis(c, extent) == c - extent,
        c < HALF_CELL ==> wrap_axis(c, extent) == c + extent,
        HALF_CELL <= c <= extent - HALF_CELL ==> wrap_axis(c, extent) == c,
        (extent + HALF_CELL <= c <= 2 * extent - HALF_CELL || HALF_CELL - extent <= c <= -HALF_CELL
            || HALF_CELL <= c <= extent - HALF_CELL) ==> HALF_CELL <= wrap_axis(c, extent) <= extent
            - HALF_CELL,
{
}

} // verus!
