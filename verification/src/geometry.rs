//! Geometry primitives: points, sizes, rectangles and colors.
//!
//! Coordinates are integers. Containment is boundary-inclusive on all four
//! edges, and every query is total: no input is rejected.
use vstd::prelude::*;

verus! {

/// A position in some coordinate space.
#[derive(Clone, Copy, Debug, PartialEq, Eq, Structural)]
pub struct Point {
    pub x: i32,
    pub y: i32,
}

/// An extent. Non-negative by convention; nothing enforces it.
#[derive(Clone, Copy, Debug, PartialEq, Eq, Structural)]
pub struct Size {
    pub width: i32,
    pub height: i32,
}

/// An axis-aligned rectangle: an origin and a size.
#[derive(Clone, Copy, Debug, PartialEq, Eq, Structural)]
pub struct Rect {
    pub origin: Point,
    pub size: Size,
}

/// A named fill color. A plain value: equality is its only behavior.
#[derive(Clone, Copy, Debug, PartialEq, Eq, Structural)]
pub enum Color {
    Default,
    Blue,
    Green,
    White,
    Turquoise,
}

/// The rectangle with origin `(x, y)` and size `(width, height)`.
pub open spec fn rect_of(x: i32, y: i32, width: i32, height: i32) -> Rect {
    Rect { origin: Point { x, y }, size: Size { width, height } }
}

impl Point {
    /// The zero point.
    pub fn new() -> (r: Point)
        ensures
            r.x == 0,
            r.y == 0,
    {
        Point { x: 0, y: 0 }
    }

    /// In-place translation: moves the point by `d`.
    pub fn move_by(&mut self, d: Point)
        requires
            i32::MIN <= old(self).x + d.x <= i32::MAX,
            i32::MIN <= old(self).y + d.y <= i32::MAX,
        ensures
            final(self).x == old(self).x + d.x,
            final(self).y == old(self).y + d.y,
    {
        self.x = self.x + d.x;
        self.y = self.y + d.y;
    }

    /// In-place inverse translation: moves the point back by `d`.
    pub fn move_back(&mut self, d: Point)
        requires
            i32::MIN <= old(self).x - d.x <= i32::MAX,
            i32::MIN <= old(self).y - d.y <= i32::MAX,
        ensures
            final(self).x == old(self).x - d.x,
            final(self).y == old(self).y - d.y,
    {
        self.x = self.x - d.x;
        self.y = self.y - d.y;
    }
}

impl Size {
    /// The zero size.
    pub fn new() -> (r: Size)
        ensures
            r.width == 0,
            r.height == 0,
    {
        Size { width: 0, height: 0 }
    }
}

impl Rect {
    /// Whether `self` contains `p`, edges included: the origin lies at or
    /// before `p` on both axes, and `p` lies at or before origin + size.
    pub open spec fn contains_spec(self, p: Point) -> bool {
        &&& self.origin.x <= p.x <= self.origin.x + self.size.width
        &&& self.origin.y <= p.y <= self.origin.y + self.size.height
    }

    /// The zero rectangle.
    pub fn new() -> (r: Rect)
        ensures
            r.origin.x == 0,
            r.origin.y == 0,
            r.size.width == 0,
            r.size.height == 0,
    {
        Rect { origin: Point { x: 0, y: 0 }, size: Size { width: 0, height: 0 } }
    }

    /// A rectangle from its four components.
    pub fn make(x: i32, y: i32, width: i32, height: i32) -> (r: Rect)
        ensures
            r.origin.x == x,
            r.origin.y == y,
            r.size.width == width,
            r.size.height == height,
    {
        Rect { origin: Point { x, y }, size: Size { width, height } }
    }

    /// A rectangle of the given size with its origin at zero.
    pub fn from_size(size: Size) -> (r: Rect)
        ensures
            r.origin.x == 0,
            r.origin.y == 0,
            r.size == size,
    {
        Rect { origin: Point { x: 0, y: 0 }, size }
    }

    /// Boundary-inclusive containment. Total: every rectangle and point is
    /// a valid input; a rectangle with a negative extent contains nothing.
    pub fn contains(&self, p: &Point) -> (r: bool)
        ensures
            r == self.contains_spec(*p),
    {
        let ox = self.origin.x as i64;
        let oy = self.origin.y as i64;
        let px = p.x as i64;
        let py = p.y as i64;
        ox <= px && px <= ox + self.size.width as i64 && oy <= py && py <= oy
            + self.size.height as i64
    }
}

} // verus!
