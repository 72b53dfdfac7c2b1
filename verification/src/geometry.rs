//! Axis-aligned geometry: 2D integer points and rectangles.
//!
//! Rectangle intersection uses open-interval semantics: two rectangles
//! overlap only if they strictly straddle each other on both axes, so
//! touching edges do not count as an intersection.

use vstd::prelude::*;

verus! {

/// A 2D point with integer device coordinates.
#[derive(Clone, Copy, PartialEq, Eq, Structural, Debug)]
pub struct Point {
    pub x: i16,
    pub y: i16,
}

/// An axis-aligned rectangle anchored at its top-left corner.
#[derive(Clone, Copy, PartialEq, Eq, Structural, Debug)]
pub struct Rect {
    pub position: Point,
    pub width: i16,
    pub height: i16,
}

impl Rect {
    /// The x coordinate of the right edge, as a mathematical integer.
    pub open spec fn spec_right(self) -> int {
        self.position.x + self.width
    }

    /// The y coordinate of the bottom edge, as a mathematical integer.
    pub open spec fn spec_bottom(self) -> int {
        self.position.y + self.height
    }

    /// Open-interval overlap on both axes.
    pub open spec fn spec_intersects(self, other: Rect) -> bool {
        &&& self.position.x < other.spec_right()
        &&& self.spec_right() > other.position.x
        &&& self.position.y < other.spec_bottom()
        &&& self.spec_bottom() > other.position.y
    }

    /// Both edge coordinates stay representable in `i16`.
    pub open spec fn edges_in_range(self) -> bool {
        &&& i16::MIN <= self.spec_right() <= i16::MAX
        &&& i16::MIN <= self.spec_bottom() <= i16::MAX
    }

    pub fn new(position: Point, width: i16, height: i16) -> (r: Rect)
        ensures
            r == (Rect { position, width, height }),
    {
        Rect { position, width, height }
    }

    pub fn new_from_x_y(x: i16, y: i16, width: i16, height: i16) -> (r: Rect)
        ensures
            r == (Rect { position: Point { x, y }, width, height }),
    {
        Rect::new(Point { x, y }, width, height)
    }

    pub fn intersects(&self, rect: &Rect) -> (r: bool)
        requires
            self.edges_in_range(),
            rect.edges_in_range(),
        ensures
            r == self.spec_intersects(*rect),
    {
        self.x() < rect.right() && self.right() > rect.x() && self.y() < rect.bottom()
            && self.bottom() > rect.y()
    }

    pub fn right(&self) -> (r: i16)
        requires
            i16::MIN <= self.spec_right() <= i16::MAX,
        ensures
            r == self.spec_right(),
    {
        self.x() + self.width
    }

    pub fn bottom(&self) -> (r: i16)
        requires
            i16::MIN <= self.spec_bottom() <= i16::MAX,
        ensures
            r == self.spec_bottom(),
    {
        self.y() + self.height
    }

    pub fn x(&self) -> (r: i16)
        ensures
            r == self.position.x,
    {
        self.position.x
    }

    pub fn y(&self) -> (r: i16)
        ensures
            r == self.position.y,
    {
        self.position.y
    }

    pub fn set_x(&mut self, x: i16)
        ensures
            *final(self) == (Rect { position: Point { x, y: old(self).position.y }, ..*old(self) }),
    {
        self.position.x = x;
    }

    pub fn set_y(&mut self, y: i16)
        ensures
            *final(self) == (Rect { position: Point { x: old(self).position.x, y }, ..*old(self) }),
    {
        self.position.y = y;
    }
}

/// Intersection is symmetric: `A` straddles `B` exactly when `B` straddles `A`.
pub proof fn lemma_intersects_symmetric(a: Rect, b: Rect)
    ensures
        a.spec_intersects(b) == b.spec_intersects(a),
{
}

/// A rectangle never intersects one that lies fully to its left, right,
/// top or bottom; a shared edge (zero margin) already separates them.
pub proof fn lemma_separated_rects_do_not_intersect(a: Rect, b: Rect)
    ensures
        b.spec_right() <= a.position.x ==> !a.spec_intersects(b),
        b.position.x >= a.spec_right() ==> !a.spec_intersects(b),
        b.spec_bottom() <= a.position.y ==> !a.spec_intersects(b),
        b.position.y >= a.spec_bottom() ==> !a.spec_intersects(b),
{
}

} // verus!
