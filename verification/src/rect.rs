use vstd::prelude::*;

verus! {

/// An axis-aligned rectangle on the map, used during generation to
/// characterize a room. `x1/y1` is the top-left corner, `x2/y2` the
/// bottom-right corner (both inclusive for the overlap test; the carved
/// interior excludes the bounding edge).
#[derive(Clone, Copy, Debug)]
pub struct Rect {
    pub x1: i32,
    pub y1: i32,
    pub x2: i32,
    pub y2: i32,
}

/// Closed-interval overlap of two rectangles.
pub open spec fn rects_overlap(a: Rect, b: Rect) -> bool {
    a.x1 <= b.x2 && a.x2 >= b.x1 && a.y1 <= b.y2 && a.y2 >= b.y1
}

/// The point a corridor is anchored at: the midpoint, rounded down.
pub open spec fn rect_center(r: Rect) -> (int, int) {
    (((r.x1 + r.x2) as int) / 2, ((r.y1 + r.y2) as int) / 2)
}

/// (x, y) lies strictly inside `r`, off its bounding edge.
pub open spec fn rect_interior(r: Rect, x: int, y: int) -> bool {
    r.x1 < x < r.x2 && r.y1 < y < r.y2
}

impl Rect {
    /// A rectangle of width `w` and height `h` with top-left corner at
    /// `(x, y)`.
    pub fn new(x: i32, y: i32, w: i32, h: i32) -> (r: Rect)
        requires
            i32::MIN <= x + w <= i32::MAX,
            i32::MIN <= y + h <= i32::MAX,
        ensures
            r == (Rect { x1: x, y1: y, x2: (x + w) as i32, y2: (y + h) as i32 }),
    {
        Rect { x1: x, y1: y, x2: x + w, y2: y + h }
    }

    /// Midpoint of the rectangle, rounded toward negative infinity.
    pub fn center(&self) -> (c: (i32, i32))
        requires
            0 <= self.x1 + self.x2 <= i32::MAX,
            0 <= self.y1 + self.y2 <= i32::MAX,
        ensures
            (c.0 as int, c.1 as int) == rect_center(*self),
    {
        let center_x = (self.x1 + self.x2) / 2;
        let center_y = (self.y1 + self.y2) / 2;
        (center_x, center_y)
    }

    /// Closed-interval intersection test: true exactly when the two
    /// rectangles share at least one point, edges included.
    pub fn intersects_with(&self, other: &Rect) -> (r: bool)
        ensures
            r == rects_overlap(*self, *other),
    {
        (self.x1 <= other.x2) && (self.x2 >= other.x1) && (self.y1 <= other.y2) && (self.y2
            >= other.y1)
    }
}

} // verus!
