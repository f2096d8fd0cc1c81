//! Screen geometry in whole pixels.

use vstd::prelude::*;

verus! {

/// A point on the screen.
#[derive(Clone, Copy, Debug, PartialEq, Eq, Structural)]
pub struct Pos2 {
    pub x: i32,
    pub y: i32,
}

/// An axis-aligned rectangle, given by its top-left and bottom-right corners.
#[derive(Clone, Copy, Debug, PartialEq, Eq, Structural)]
pub struct Rect {
    pub min: Pos2,
    pub max: Pos2,
}

/// `v`, saturated into the range of a pixel coordinate.
pub open spec fn pixel(v: int) -> i32 {
    if v < i32::MIN {
        i32::MIN
    } else if v > i32::MAX {
        i32::MAX
    } else {
        v as i32
    }
}

/// `v`, saturated into the range of a pixel coordinate.
pub fn to_pixel(v: i64) -> (r: i32)
    ensures
        r == pixel(v as int),
{
    if v < i32::MIN as i64 {
        i32::MIN
    } else if v > i32::MAX as i64 {
        i32::MAX
    } else {
        v as i32
    }
}

/// The smallest rectangle that holds the points `(x0, y0)` and `(x1, y1)`,
/// each coordinate saturated into the pixel range.
pub open spec fn bounding_rect(x0: int, y0: int, x1: int, y1: int) -> Rect {
    Rect {
        min: Pos2 {
            x: pixel(if x0 <= x1 { x0 } else { x1 }),
            y: pixel(if y0 <= y1 { y0 } else { y1 }),
        },
        max: Pos2 {
            x: pixel(if x0 <= x1 { x1 } else { x0 }),
            y: pixel(if y0 <= y1 { y1 } else { y0 }),
        },
    }
}

impl Pos2 {
    pub fn new(x: i32, y: i32) -> (r: Self)
        ensures
            r == (Pos2 { x, y }),
    {
        Pos2 { x, y }
    }

    /// The origin.
    pub fn zero() -> (r: Self)
        ensures
            r == (Pos2 { x: 0, y: 0 }),
    {
        Pos2 { x: 0, y: 0 }
    }
}

impl Rect {
    /// The left edge lies at or before the right one, and the top at or
    /// above the bottom.
    pub open spec fn wf(&self) -> bool {
        self.min.x <= self.max.x && self.min.y <= self.max.y
    }

    /// The smallest rectangle that holds both points.
    pub fn from_points(x0: i64, y0: i64, x1: i64, y1: i64) -> (r: Self)
        ensures
            r == bounding_rect(x0 as int, y0 as int, x1 as int, y1 as int),
            r.wf(),
    {
        Rect {
            min: Pos2 {
                x: to_pixel(if x0 <= x1 { x0 } else { x1 }),
                y: to_pixel(if y0 <= y1 { y0 } else { y1 }),
            },
            max: Pos2 {
                x: to_pixel(if x0 <= x1 { x1 } else { x0 }),
                y: to_pixel(if y0 <= y1 { y1 } else { y0 }),
            },
        }
    }

    pub fn left(&self) -> (r: i32)
        ensures
            r == self.min.x,
    {
        self.min.x
    }

    pub fn right(&self) -> (r: i32)
        ensures
            r == self.max.x,
    {
        self.max.x
    }

    pub fn top(&self) -> (r: i32)
        ensures
            r == self.min.y,
    {
        self.min.y
    }

    pub fn bottom(&self) -> (r: i32)
        ensures
            r == self.max.y,
    {
        self.max.y
    }

    pub fn width(&self) -> (r: i64)
        ensures
            r == self.max.x - self.min.x,
    {
        self.max.x as i64 - self.min.x as i64
    }

    pub fn height(&self) -> (r: i64)
        ensures
            r == self.max.y - self.min.y,
    {
        self.max.y as i64 - self.min.y as i64
    }

    /// Whether `p` lies in the rectangle, edges included.
    pub open spec fn spec_contains(&self, p: Pos2) -> bool {
        self.min.x <= p.x <= self.max.x && self.min.y <= p.y <= self.max.y
    }

    /// Whether `p` lies in the rectangle, edges included.
    pub fn contains(&self, p: Pos2) -> (r: bool)
        ensures
            r == self.spec_contains(p),
    {
        self.min.x <= p.x && p.x <= self.max.x && self.min.y <= p.y && p.y <= self.max.y
    }

    /// Whether `p` lies strictly inside the rectangle.
    pub open spec fn spec_contains_strictly(&self, p: Pos2) -> bool {
        self.min.x < p.x < self.max.x && self.min.y < p.y < self.max.y
    }

    /// Whether `p` lies strictly inside the rectangle.
    pub fn contains_strictly(&self, p: Pos2) -> (r: bool)
        ensures
            r == self.spec_contains_strictly(p),
    {
        self.min.x < p.x && p.x < self.max.x && self.min.y < p.y && p.y < self.max.y
    }
}

} // verus!
