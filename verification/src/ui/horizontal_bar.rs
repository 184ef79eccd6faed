//! A horizontal, partially filled "loading bar"-like element.

use vstd::prelude::*;

use crate::display::CmdView;
use crate::display::DisplayList;
use crate::display::DrawCommand;
use crate::geometry::Rect;
use crate::style::Color;

verus! {

/// A deci-percent value clamped to the displayable range `[0, 1000]`.
pub open spec fn clamp_deci_spec(p: int) -> int {
    if p < 0 {
        0
    } else if p > 1000 {
        1000
    } else {
        p
    }
}

/// Clamps a deci-percent value to the displayable range `[0, 1000]`.
pub fn clamp_deci(p: i32) -> (c: i32)
    ensures
        c == clamp_deci_spec(p as int),
{
    if p < 0 {
        0
    } else if p > 1000 {
        1000
    } else {
        p
    }
}

/// The filled share of an extent, in pixels, for a deci-percent value.
pub open spec fn filled_extent_spec(extent: int, deci_pct: int) -> int {
    extent * clamp_deci_spec(deci_pct) / 1000
}

/// Computes the filled share of an extent for a deci-percent value.
pub fn filled_extent(extent: u32, deci_pct: i32) -> (w: u32)
    requires
        extent <= 0x40000,
    ensures
        w == filled_extent_spec(extent as int, deci_pct as int),
        w <= extent,
{
    let c: u32 = clamp_deci(deci_pct) as u32;
    proof {
        assert(extent * c <= extent * 1000) by (nonlinear_arith)
            requires
                c <= 1000,
                0 <= extent,
        ;
        vstd::arithmetic::div_mod::lemma_div_is_ordered(
            extent as int * c as int,
            extent as int * 1000,
            1000,
        );
        vstd::arithmetic::div_mod::lemma_div_multiples_vanish(extent as int, 1000);
        assert(1000 * extent == extent * 1000);
        vstd::arithmetic::div_mod::lemma_div_pos_is_pos(extent as int * c as int, 1000);
        assert(0 <= extent * c) by (nonlinear_arith)
            requires
                0 <= extent,
                0 <= c,
        ;
    }
    ((extent as u64 * c as u64) / 1000) as u32
}

/// A horizontal, partially filled bar.
pub struct HorizontalBar {
    /// Tenths of a percent of the bar that are filled.
    pub fill_deci_pct: i32,
    /// Color of the bar.
    pub color: Color,
    /// Area filled by the bar.
    pub area: Rect,
}

/// The commands a bar of the given fill level and area draws: its
/// outline, and — whenever the fill level is positive — a filled
/// rectangle anchored at the left of the interior, two pixels in from
/// the outline, covering the filled share of the interior width.
pub open spec fn bar_commands_spec(fill_deci_pct: int, area: Rect) -> Seq<CmdView> {
    let inner = area.offset_spec(-2);
    let fill = inner.resized_width_left_spec(
        filled_extent_spec(inner.size.width as int, fill_deci_pct),
    );
    if fill_deci_pct > 0 {
        seq![CmdView::RectOutline { rect: area }, CmdView::RectFill { rect: fill }]
    } else {
        seq![CmdView::RectOutline { rect: area }]
    }
}

impl HorizontalBar {
    pub fn new(fill_deci_pct: i32, color: Color, area: Rect) -> (b: HorizontalBar)
        ensures
            b == (HorizontalBar { fill_deci_pct, color, area }),
    {
        HorizontalBar { fill_deci_pct, color, area }
    }

    pub fn bounds(&self) -> (r: Rect)
        ensures
            r == self.area,
    {
        self.area
    }

    /// Appends the bar's commands to the display list.
    pub fn draw(&self, out: &mut DisplayList)
        requires
            self.area.op_ok(),
        ensures
            final(out)@ == old(out)@ + bar_commands_spec(self.fill_deci_pct as int, self.area),
    {
        out.push(DrawCommand::RectOutline { rect: self.area });
        let inner = self.area.offset(-2);
        if self.fill_deci_pct > 0 {
            let fill_width = filled_extent(inner.size.width, self.fill_deci_pct);
            let fill = inner.resized_width_left(fill_width);
            out.push(DrawCommand::RectFill { rect: fill });
        }
        proof {
            assert(out@ =~= old(out)@ + bar_commands_spec(self.fill_deci_pct as int, self.area));
        }
    }
}

} // verus!
