//! A two-dimensional vector drawn as a line from its origin.

use vstd::prelude::*;

use crate::display::CmdView;
use crate::display::DisplayList;
use crate::display::DrawCommand;
use crate::geometry::max_i32;
use crate::geometry::max_int;
use crate::geometry::Circle;
use crate::geometry::Point;
use crate::geometry::Rect;

verus! {

/// A vector anchored at an origin point, drawn as a line segment.
pub struct Vector {
    pub origin: Point,
    pub vector: Point,
}

/// The bounding box: the bounding square of the circle centered on the
/// origin whose radius is the vector's largest component magnitude.
pub open spec fn vector_bounds_spec(origin: Point, vector: Point) -> Rect {
    let ax = if vector.x >= 0 {
        vector.x as int
    } else {
        -(vector.x as int)
    };
    let ay = if vector.y >= 0 {
        vector.y as int
    } else {
        -(vector.y as int)
    };
    Circle::with_center_spec(origin, 2 * max_int(ax, ay)).bounding_box_spec()
}

impl Vector {
    pub fn new(origin: Point, vector: Point) -> (v: Vector)
        ensures
            v == (Vector { origin, vector }),
    {
        Vector { origin, vector }
    }

    pub fn bounding_box(&self) -> (r: Rect)
        requires
            self.origin.op_ok(),
            -0x10000 <= self.vector.x <= 0x10000,
            -0x10000 <= self.vector.y <= 0x10000,
        ensures
            r == vector_bounds_spec(self.origin, self.vector),
    {
        let ax: i32 = if self.vector.x >= 0 {
            self.vector.x
        } else {
            -self.vector.x
        };
        let ay: i32 = if self.vector.y >= 0 {
            self.vector.y
        } else {
            -self.vector.y
        };
        let max_dim: i32 = max_i32(ax, ay);
        let circle = Circle::with_center(self.origin, 2 * (max_dim as u32));
        circle.bounding_box()
    }

    /// Appends the vector's line to the display list.
    pub fn draw_styled(&self, out: &mut DisplayList)
        requires
            self.origin.op_ok(),
            self.vector.op_ok(),
        ensures
            final(out)@ == old(out)@.push(
                CmdView::Line {
                    start: self.origin,
                    end: Point {
                        x: (self.origin.x + self.vector.x) as i32,
                        y: (self.origin.y + self.vector.y) as i32,
                    },
                },
            ),
    {
        let end_point = Point {
            x: self.origin.x + self.vector.x,
            y: self.origin.y + self.vector.y,
        };
        out.push(DrawCommand::Line { start: self.origin, end: end_point });
    }
}

} // verus!
