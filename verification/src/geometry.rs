//! Integer screen geometry: points, sizes, rectangles and circles.
//!
//! The coordinate conventions follow the usual embedded-display model:
//! `x` grows to the right, `y` grows downward, a rectangle is its top-left
//! corner plus a size. Figures that are shrunk past their extent collapse
//! to zero size, so every operation is total on its stated domain.
//!
//! Two nested bounds keep all arithmetic inside `i32`: [`Point::wf`] and
//! [`Size::wf`] bound the geometry a caller hands in (a display area), and
//! the operations themselves accept the looser [`Point::op_ok`] /
//! [`Size::op_ok`] ranges, so that figures derived from well-formed inputs
//! by a chain of operations stay within every operation's domain.

use vstd::prelude::*;

verus! {

/// Bound on coordinates of caller-supplied geometry.
pub const COORD_LIMIT: i32 = 0x100000;

/// Bound on sizes of caller-supplied geometry.
pub const SIZE_LIMIT: u32 = 0x10000;

/// Bound on coordinates accepted by the geometric operations.
pub const OP_COORD_LIMIT: i32 = 0x400000;

/// Bound on sizes accepted by the geometric operations.
pub const OP_SIZE_LIMIT: u32 = 0x40000;

/// A position on the display, in pixels.
#[derive(Clone, Copy, Debug, PartialEq, Eq, Structural)]
pub struct Point {
    pub x: i32,
    pub y: i32,
}

/// A width and height, in pixels.
#[derive(Clone, Copy, Debug, PartialEq, Eq, Structural)]
pub struct Size {
    pub width: u32,
    pub height: u32,
}

/// An axis-aligned rectangle: top-left corner plus size.
#[derive(Clone, Copy, Debug, PartialEq, Eq, Structural)]
pub struct Rect {
    pub top_left: Point,
    pub size: Size,
}

/// A circle: top-left corner of its bounding square plus diameter.
#[derive(Clone, Copy, Debug, PartialEq, Eq, Structural)]
pub struct Circle {
    pub top_left: Point,
    pub diameter: u32,
}

impl Point {
    pub open spec fn wf(self) -> bool {
        -COORD_LIMIT <= self.x <= COORD_LIMIT && -COORD_LIMIT <= self.y <= COORD_LIMIT
    }

    pub open spec fn op_ok(self) -> bool {
        -OP_COORD_LIMIT <= self.x <= OP_COORD_LIMIT && -OP_COORD_LIMIT <= self.y
            <= OP_COORD_LIMIT
    }

    /// The domain of the drawing functions; leaves the operations
    /// headroom for the figures they derive.
    pub open spec fn draw_ok(self) -> bool {
        -0x200000 <= self.x <= 0x200000 && -0x200000 <= self.y <= 0x200000
    }

    pub fn new(x: i32, y: i32) -> (p: Point)
        ensures
            p == (Point { x, y }),
    {
        Point { x, y }
    }

    pub open spec fn zero_spec() -> Point {
        Point { x: 0, y: 0 }
    }

    pub fn zero() -> (p: Point)
        ensures
            p == Point::zero_spec(),
    {
        Point { x: 0, y: 0 }
    }
}

impl Size {
    pub open spec fn wf(self) -> bool {
        self.width <= SIZE_LIMIT && self.height <= SIZE_LIMIT
    }

    pub open spec fn op_ok(self) -> bool {
        self.width <= OP_SIZE_LIMIT && self.height <= OP_SIZE_LIMIT
    }

    pub fn new(width: u32, height: u32) -> (s: Size)
        ensures
            s == (Size { width, height }),
    {
        Size { width, height }
    }
}

/// Truncating half of the difference `a - b`: the signed pixel amount by
/// which a figure of extent `b` is shifted to sit centered within an
/// extent of length `a`.
pub open spec fn half_diff_spec(a: int, b: int) -> int {
    if a >= b {
        (a - b) / 2
    } else {
        -((b - a) / 2)
    }
}

/// Centering shift along one axis; see [`half_diff_spec`].
pub fn half_diff(a: u32, b: u32) -> (d: i32)
    requires
        a <= OP_SIZE_LIMIT,
        b <= OP_SIZE_LIMIT,
    ensures
        d == half_diff_spec(a as int, b as int),
{
    if a >= b {
        ((a - b) / 2) as i32
    } else {
        -(((b - a) / 2) as i32)
    }
}

impl Rect {
    pub open spec fn wf(self) -> bool {
        self.top_left.wf() && self.size.wf()
    }

    pub open spec fn op_ok(self) -> bool {
        self.top_left.op_ok() && self.size.op_ok()
    }

    /// The domain of the drawing functions: corner coordinates may carry
    /// the drift of derived figures, sizes stay within the tight bound.
    pub open spec fn draw_ok(self) -> bool {
        self.top_left.draw_ok() && self.size.wf()
    }

    pub fn new(top_left: Point, size: Size) -> (r: Rect)
        ensures
            r == (Rect { top_left, size }),
    {
        Rect { top_left, size }
    }

    /// The center pixel of the rectangle (for even extents, the pixel just
    /// left of / above the geometric center).
    pub open spec fn center_spec(self) -> Point {
        Point {
            x: (self.top_left.x + if self.size.width == 0 {
                0
            } else {
                (self.size.width - 1) as int / 2
            }) as i32,
            y: (self.top_left.y + if self.size.height == 0 {
                0
            } else {
                (self.size.height - 1) as int / 2
            }) as i32,
        }
    }

    pub fn center(&self) -> (p: Point)
        requires
            self.op_ok(),
        ensures
            p == self.center_spec(),
    {
        let dx: u32 = if self.size.width == 0 {
            0
        } else {
            (self.size.width - 1) / 2
        };
        let dy: u32 = if self.size.height == 0 {
            0
        } else {
            (self.size.height - 1) / 2
        };
        Point { x: self.top_left.x + dx as i32, y: self.top_left.y + dy as i32 }
    }

    /// Grows (`d > 0`) or shrinks (`d < 0`) the rectangle by `d` pixels on
    /// every side; a shrink past the rectangle's extent collapses that
    /// axis to zero width.
    pub open spec fn offset_spec(self, d: int) -> Rect {
        Rect {
            top_left: Point {
                x: (self.top_left.x - d) as i32,
                y: (self.top_left.y - d) as i32,
            },
            size: Size {
                width: if self.size.width + 2 * d >= 0 {
                    (self.size.width + 2 * d) as u32
                } else {
                    0
                },
                height: if self.size.height + 2 * d >= 0 {
                    (self.size.height + 2 * d) as u32
                } else {
                    0
                },
            },
        }
    }

    pub fn offset(&self, d: i32) -> (r: Rect)
        requires
            self.op_ok(),
            -1024 <= d <= 1024,
        ensures
            r == self.offset_spec(d as int),
    {
        let w: u32 = grow_extent(self.size.width, d);
        let h: u32 = grow_extent(self.size.height, d);
        Rect {
            top_left: Point { x: self.top_left.x - d, y: self.top_left.y - d },
            size: Size { width: w, height: h },
        }
    }

    /// Keeps the left edge and sets the width.
    pub open spec fn resized_width_left_spec(self, width: int) -> Rect {
        Rect { top_left: self.top_left, size: Size { width: width as u32, ..self.size } }
    }

    pub fn resized_width_left(&self, width: u32) -> (r: Rect)
        ensures
            r == self.resized_width_left_spec(width as int),
    {
        Rect { top_left: self.top_left, size: Size { width, height: self.size.height } }
    }

    /// Keeps the bottom edge and sets the height.
    pub open spec fn resized_height_bottom_spec(self, height: int) -> Rect {
        Rect {
            top_left: Point {
                x: self.top_left.x,
                y: (self.top_left.y + self.size.height - height) as i32,
            },
            size: Size { width: self.size.width, height: height as u32 },
        }
    }

    pub fn resized_height_bottom(&self, height: u32) -> (r: Rect)
        requires
            self.op_ok(),
            height <= OP_SIZE_LIMIT,
        ensures
            r == self.resized_height_bottom_spec(height as int),
    {
        Rect {
            top_left: Point {
                x: self.top_left.x,
                y: self.top_left.y + self.size.height as i32 - height as i32,
            },
            size: Size { width: self.size.width, height },
        }
    }

    /// Top-left corner at which a figure of size `inner` sits centered
    /// within this rectangle.
    pub open spec fn centered_top_left_spec(self, inner: Size) -> Point {
        Point {
            x: (self.top_left.x + half_diff_spec(self.size.width as int, inner.width as int)) as i32,
            y: (self.top_left.y + half_diff_spec(
                self.size.height as int,
                inner.height as int,
            )) as i32,
        }
    }

    pub fn centered_top_left(&self, inner: Size) -> (p: Point)
        requires
            self.op_ok(),
            inner.op_ok(),
        ensures
            p == self.centered_top_left_spec(inner),
    {
        let dx: i32 = half_diff(self.size.width, inner.width);
        let dy: i32 = half_diff(self.size.height, inner.height);
        Point { x: self.top_left.x + dx, y: self.top_left.y + dy }
    }

    /// The smallest rectangle containing both `self` and `other`.
    pub open spec fn enveloping_spec(self, other: Rect) -> Rect {
        let x0 = min_int(self.top_left.x as int, other.top_left.x as int);
        let y0 = min_int(self.top_left.y as int, other.top_left.y as int);
        let x1 = max_int(
            self.top_left.x + self.size.width,
            other.top_left.x + other.size.width,
        );
        let y1 = max_int(
            self.top_left.y + self.size.height,
            other.top_left.y + other.size.height,
        );
        Rect {
            top_left: Point { x: x0 as i32, y: y0 as i32 },
            size: Size { width: (x1 - x0) as u32, height: (y1 - y0) as u32 },
        }
    }

    pub fn enveloping(&self, other: &Rect) -> (r: Rect)
        requires
            self.op_ok(),
            other.op_ok(),
        ensures
            r == self.enveloping_spec(*other),
    {
        let x0: i32 = min_i32(self.top_left.x, other.top_left.x);
        let y0: i32 = min_i32(self.top_left.y, other.top_left.y);
        let x1: i32 = max_i32(
            self.top_left.x + self.size.width as i32,
            other.top_left.x + other.size.width as i32,
        );
        let y1: i32 = max_i32(
            self.top_left.y + self.size.height as i32,
            other.top_left.y + other.size.height as i32,
        );
        Rect {
            top_left: Point { x: x0, y: y0 },
            size: Size { width: (x1 - x0) as u32, height: (y1 - y0) as u32 },
        }
    }
}

impl Circle {
    pub open spec fn wf(self) -> bool {
        self.top_left.wf() && self.diameter <= SIZE_LIMIT
    }

    pub fn new(top_left: Point, diameter: u32) -> (c: Circle)
        ensures
            c == (Circle { top_left, diameter }),
    {
        Circle { top_left, diameter }
    }

    /// The circle of the given diameter whose bounding square is centered
    /// on `center`.
    pub open spec fn with_center_spec(center: Point, diameter: int) -> Circle {
        Circle {
            top_left: Point {
                x: (center.x - diameter / 2) as i32,
                y: (center.y - diameter / 2) as i32,
            },
            diameter: diameter as u32,
        }
    }

    pub fn with_center(center: Point, diameter: u32) -> (c: Circle)
        requires
            center.op_ok(),
            diameter <= OP_SIZE_LIMIT,
        ensures
            c == Circle::with_center_spec(center, diameter as int),
    {
        let half: i32 = (diameter / 2) as i32;
        Circle { top_left: Point { x: center.x - half, y: center.y - half }, diameter }
    }

    /// The bounding square of the circle.
    pub open spec fn bounding_box_spec(self) -> Rect {
        Rect { top_left: self.top_left, size: Size { width: self.diameter, height: self.diameter } }
    }

    pub fn bounding_box(&self) -> (r: Rect)
        ensures
            r == self.bounding_box_spec(),
    {
        Rect {
            top_left: self.top_left,
            size: Size { width: self.diameter, height: self.diameter },
        }
    }
}

pub open spec fn min_int(a: int, b: int) -> int {
    if a <= b {
        a
    } else {
        b
    }
}

pub open spec fn max_int(a: int, b: int) -> int {
    if a >= b {
        a
    } else {
        b
    }
}

pub fn min_i32(a: i32, b: i32) -> (m: i32)
    ensures
        m == min_int(a as int, b as int),
{
    if a <= b {
        a
    } else {
        b
    }
}

pub fn max_i32(a: i32, b: i32) -> (m: i32)
    ensures
        m == max_int(a as int, b as int),
{
    if a >= b {
        a
    } else {
        b
    }
}

pub fn min_u32(a: u32, b: u32) -> (m: u32)
    ensures
        m == min_int(a as int, b as int),
{
    if a <= b {
        a
    } else {
        b
    }
}

pub fn max_u32(a: u32, b: u32) -> (m: u32)
    ensures
        m == max_int(a as int, b as int),
{
    if a >= b {
        a
    } else {
        b
    }
}

/// The fraction `x * num / den` of an extent.
pub open spec fn frac_spec(x: int, num: int, den: int) -> int {
    x * num / den
}

/// Scales an extent down by the fraction `num / den`.
pub fn frac(x: u32, num: u32, den: u32) -> (r: u32)
    requires
        x <= OP_SIZE_LIMIT,
        1 <= den <= 1000,
        num <= den,
    ensures
        r == frac_spec(x as int, num as int, den as int),
        r <= x,
{
    proof {
        assert(0 <= x * num <= x * den && x * den <= 0x40000 * 1000) by (nonlinear_arith)
            requires
                0 <= x <= 0x40000,
                0 <= num <= den,
                den <= 1000,
        ;
        vstd::arithmetic::div_mod::lemma_div_is_ordered(
            x as int * num as int,
            x as int * den as int,
            den as int,
        );
        vstd::arithmetic::div_mod::lemma_div_by_multiple(x as int, den as int);
        vstd::arithmetic::div_mod::lemma_div_pos_is_pos(x as int * num as int, den as int);
    }
    ((x as u64 * num as u64) / den as u64) as u32
}

/// `extent + 2 * d`, collapsed to zero when the shrink exceeds the extent.
fn grow_extent(extent: u32, d: i32) -> (r: u32)
    requires
        extent <= OP_SIZE_LIMIT,
        -1024 <= d <= 1024,
    ensures
        r == if extent + 2 * d >= 0 {
            extent + 2 * d
        } else {
            0
        },
{
    if d >= 0 {
        extent + 2 * (d as u32)
    } else {
        let shrink: u32 = 2 * ((-d) as u32);
        if extent >= shrink {
            extent - shrink
        } else {
            0
        }
    }
}

} // verus!
