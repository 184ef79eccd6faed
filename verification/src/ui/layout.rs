//! Layout helper: an element centered within another, then nudged by a
//! fixed offset.

use vstd::prelude::*;

use crate::geometry::Point;
use crate::geometry::Rect;
use crate::geometry::Size;

verus! {

/// An inner area arranged centered within an outer area, then shifted
/// by an offset.
pub struct CenteredWithOffset {
    pub outer: Rect,
    pub inner: Rect,
    pub offset: Point,
}

/// Where the inner area lands: centered in the outer area, plus the
/// offset.
pub open spec fn arranged_inner_spec(outer: Rect, inner: Size, offset: Point) -> Point {
    let centered = outer.centered_top_left_spec(inner);
    Point { x: (centered.x + offset.x) as i32, y: (centered.y + offset.y) as i32 }
}

impl CenteredWithOffset {
    pub fn new(outer: Rect, inner: Rect, offset: Point) -> (c: CenteredWithOffset)
        ensures
            c == (CenteredWithOffset { outer, inner, offset }),
    {
        CenteredWithOffset { outer, inner, offset }
    }

    /// Moves the inner area to its arranged position.
    pub fn arrange(self) -> (c: CenteredWithOffset)
        requires
            self.outer.op_ok(),
            self.inner.size.op_ok(),
            self.offset.op_ok(),
        ensures
            c.outer == self.outer,
            c.offset == self.offset,
            c.inner.size == self.inner.size,
            c.inner.top_left == arranged_inner_spec(self.outer, self.inner.size, self.offset),
    {
        let centered = self.outer.centered_top_left(self.inner.size);
        let placed = Point { x: centered.x + self.offset.x, y: centered.y + self.offset.y };
        CenteredWithOffset {
            outer: self.outer,
            inner: Rect { top_left: placed, size: self.inner.size },
            offset: self.offset,
        }
    }

    /// The smallest rectangle containing both areas.
    pub fn bounds(&self) -> (r: Rect)
        requires
            self.outer.op_ok(),
            self.inner.op_ok(),
        ensures
            r == self.outer.enveloping_spec(self.inner),
    {
        self.outer.enveloping(&self.inner)
    }
}

} // verus!
