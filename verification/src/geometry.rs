//! Points, axis-aligned rectangles, the screen and headings.

use vstd::prelude::*;
use crate::units::{displace, displaced, UNIT};

verus! {

/// A point or a vector on the plane. `x` grows to the right, `y` downward.
#[derive(Clone, Copy, Debug, PartialEq, Eq, Structural)]
pub struct Vec2 {
    pub x: i64,
    pub y: i64,
}

/// An axis-aligned rectangle: its top-left corner, width and height.
#[derive(Clone, Copy, Debug, PartialEq, Eq, Structural)]
pub struct Rect {
    pub x: i64,
    pub y: i64,
    pub w: i64,
    pub h: i64,
}

impl Rect {
    pub open spec fn left(self) -> int {
        self.x as int
    }

    pub open spec fn right(self) -> int {
        self.x + self.w
    }

    pub open spec fn top(self) -> int {
        self.y as int
    }

    pub open spec fn bottom(self) -> int {
        self.y + self.h
    }

    /// Two rectangles touch or intersect: on each axis neither lies wholly
    /// beyond the other. Sharing only an edge or a corner counts.
    pub open spec fn touches(self, other: Rect) -> bool {
        &&& self.left() <= other.right()
        &&& self.right() >= other.left()
        &&& self.top() <= other.bottom()
        &&& self.bottom() >= other.top()
    }

    /// Whether this rectangle overlaps `other`, edges included.
    pub fn overlaps(&self, other: &Rect) -> (r: bool)
        ensures
            r == self.touches(*other),
    {
        let self_right: i128 = self.x as i128 + self.w as i128;
        let self_bottom: i128 = self.y as i128 + self.h as i128;
        let other_right: i128 = other.x as i128 + other.w as i128;
        let other_bottom: i128 = other.y as i128 + other.h as i128;
        self.x as i128 <= other_right && self_right >= other.x as i128
            && self.y as i128 <= other_bottom && self_bottom >= other.y as i128
    }
}

/// The size of the drawing surface, in whole pixels.
#[derive(Clone, Copy, Debug, PartialEq, Eq, Structural)]
pub struct Screen {
    pub width: u32,
    pub height: u32,
}

impl Screen {
    /// The x coordinate of the right edge, in length units.
    pub open spec fn right(self) -> int {
        self.width * UNIT
    }

    /// The y coordinate of the bottom edge, in length units.
    pub open spec fn bottom(self) -> int {
        self.height * UNIT
    }

    pub fn right_edge(&self) -> (r: i64)
        ensures
            r == self.right(),
            0 <= r <= u32::MAX * UNIT,
    {
        self.width as i64 * UNIT
    }

    pub fn bottom_edge(&self) -> (r: i64)
        ensures
            r == self.bottom(),
            0 <= r <= u32::MAX * UNIT,
    {
        self.height as i64 * UNIT
    }
}

/// A direction of travel: the displacement, in length units, of one pixel
/// travelled. Heading "up" is `(0, -UNIT)`; for a rotation of `a` degrees
/// clockwise from up it is `(sin a, -cos a)` scaled by `UNIT`.
#[derive(Clone, Copy, Debug, PartialEq, Eq, Structural)]
pub struct Heading {
    pub dx: i32,
    pub dy: i32,
}

impl Heading {
    /// The point reached from `from` after `pixels` pixels of travel along
    /// this heading, each coordinate saturated.
    pub open spec fn carried(self, from: Vec2, pixels: int) -> Vec2 {
        Vec2 {
            x: displaced(from.x as int, self.dx as int, pixels) as i64,
            y: displaced(from.y as int, self.dy as int, pixels) as i64,
        }
    }

    /// Travels `pixels` pixels from `from` along this heading.
    pub fn carry(&self, from: Vec2, pixels: u64) -> (to: Vec2)
        ensures
            to == self.carried(from, pixels as int),
            to.x == displaced(from.x as int, self.dx as int, pixels as int),
            to.y == displaced(from.y as int, self.dy as int, pixels as int),
    {
        Vec2 {
            x: displace(from.x, self.dx as i64, pixels),
            y: displace(from.y, self.dy as i64, pixels),
        }
    }
}

} // verus!
