//! A framed box displaying a two-dimensional vector from its center.

use vstd::prelude::*;

use crate::display::CmdView;
use crate::display::DisplayList;
use crate::display::DrawCommand;
use crate::geometry::min_u32;
use crate::geometry::min_int;
use crate::geometry::Point;
use crate::geometry::Rect;

verus! {

/// A two-dimensional vector with components in thousandths of a unit.
#[derive(Clone, Copy, Debug, PartialEq, Eq, Structural)]
pub struct MilliVec2 {
    pub x: i32,
    pub y: i32,
}

impl MilliVec2 {
    pub open spec fn small(self) -> bool {
        -2000 <= self.x <= 2000 && -2000 <= self.y <= 2000
    }

    pub fn new(x: i32, y: i32) -> (v: MilliVec2)
        ensures
            v == (MilliVec2 { x, y }),
    {
        MilliVec2 { x, y }
    }
}

/// One component of the displayed line: the vector component scaled by
/// `scale` (thousandths) and by the maximum line length, truncated
/// toward zero.
pub open spec fn scaled_component_spec(v: int, scale: int, max_len: int) -> int {
    if v >= 0 {
        v * scale * max_len / 1000000
    } else {
        -((-v) * scale * max_len / 1000000)
    }
}

fn scaled_component(v: i32, scale: i32, max_len: u32) -> (r: i32)
    requires
        -2000 <= v <= 2000,
        0 <= scale <= 2000,
        max_len <= 0x40000,
    ensures
        r == scaled_component_spec(v as int, scale as int, max_len as int),
        -0x100000 <= r <= 0x100000,
{
    let mag: u64 = if v >= 0 {
        v as u64
    } else {
        (-(v as i64)) as u64
    };
    proof {
        assert(0 <= mag * scale <= 2000 * 2000 && 0 <= mag * scale * max_len <= 2000 * 2000
            * 0x40000) by (nonlinear_arith)
            requires
                0 <= mag <= 2000,
                0 <= scale <= 2000,
                0 <= max_len <= 0x40000,
        ;
        vstd::arithmetic::div_mod::lemma_div_is_ordered(
            mag as int * scale as int * max_len as int,
            2000int * 2000 * 0x40000,
            1000000,
        );
        vstd::arithmetic::div_mod::lemma_div_pos_is_pos(
            mag as int * scale as int * max_len as int,
            1000000,
        );
    }
    let scaled: u64 = (mag * (scale as u64) * (max_len as u64)) / 1000000;
    if v >= 0 {
        scaled as i32
    } else {
        -(scaled as i32)
    }
}

/// The length of the displayed line at full scale: 45% of the box's
/// smallest dimension.
pub open spec fn max_line_length_spec(area: Rect) -> int {
    min_int(area.size.width as int, area.size.height as int) * 45 / 100
}

/// A framed box with a vector drawn from its center.
pub struct VectorBox {
    pub area: Rect,
    pub vector: MilliVec2,
    /// Scale factor applied to the vector, in thousandths.
    pub vector_scale: i32,
}

/// The commands a vector box draws: its frame, then the scaled vector
/// as a line from the frame's center.
pub open spec fn vector_box_commands_spec(area: Rect, vector: MilliVec2, scale: int) -> Seq<
    CmdView,
> {
    let max_len = max_line_length_spec(area);
    let start = area.center_spec();
    let end = Point {
        x: (start.x + scaled_component_spec(vector.x as int, scale, max_len)) as i32,
        y: (start.y + scaled_component_spec(vector.y as int, scale, max_len)) as i32,
    };
    seq![CmdView::RectOutline { rect: area }, CmdView::Line { start, end }]
}

impl VectorBox {
    pub fn new(area: Rect, vector: MilliVec2, vector_scale: i32) -> (b: VectorBox)
        ensures
            b == (VectorBox { area, vector, vector_scale }),
    {
        VectorBox { area, vector, vector_scale }
    }

    pub fn bounding_box(&self) -> (r: Rect)
        ensures
            r == self.area,
    {
        self.area
    }

    /// Appends the box's commands to the display list.
    pub fn draw_styled(&self, out: &mut DisplayList)
        requires
            self.area.op_ok(),
            self.vector.small(),
            0 <= self.vector_scale <= 2000,
        ensures
            final(out)@ == old(out)@ + vector_box_commands_spec(
                self.area,
                self.vector,
                self.vector_scale as int,
            ),
    {
        let smallest = min_u32(self.area.size.width, self.area.size.height);
        let max_len: u32 = smallest * 45 / 100;
        let start = self.area.center();
        let dx = scaled_component(self.vector.x, self.vector_scale, max_len);
        let dy = scaled_component(self.vector.y, self.vector_scale, max_len);
        let end = Point { x: start.x + dx, y: start.y + dy };
        out.push(DrawCommand::RectOutline { rect: self.area });
        out.push(DrawCommand::Line { start, end });
        proof {
            assert(out@ =~= old(out)@ + vector_box_commands_spec(
                self.area,
                self.vector,
                self.vector_scale as int,
            ));
        }
    }
}

} // verus!
