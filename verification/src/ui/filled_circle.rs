//! A circular frame with an inner filled circle displaying a percentage.

use vstd::prelude::*;

use crate::display::CmdView;
use crate::display::DisplayList;
use crate::display::DrawCommand;
use crate::geometry::min_int;
use crate::geometry::min_u32;
use crate::geometry::Circle;
use crate::geometry::Size;
use crate::style::Color;
use crate::ui::horizontal_bar::filled_extent;
use crate::ui::horizontal_bar::filled_extent_spec;

verus! {

/// A circular frame with an inner filled circle.
pub struct FilledCircle {
    /// Diameter of the inner circle in tenths of a percent of the outer
    /// circle's.
    pub fill_deci_pct: i32,
    /// Color of the element.
    pub color: Color,
    /// Position and size of the outer circle.
    pub circle: Circle,
}

/// The inner diameter: the filled share of the outer diameter, capped
/// six pixels below the outer diameter (or zero for tiny circles).
pub open spec fn inner_diameter_spec(outer: int, fill_deci_pct: int) -> int {
    min_int(
        filled_extent_spec(outer, fill_deci_pct),
        if outer >= 6 {
            outer - 6
        } else {
            0
        },
    )
}

/// The commands a filled circle draws: the outer outline, then the
/// inner filled circle centered within it.
pub open spec fn filled_circle_commands_spec(fill_deci_pct: int, circle: Circle) -> Seq<CmdView> {
    let inner_d = inner_diameter_spec(circle.diameter as int, fill_deci_pct);
    let inner_tl = circle.bounding_box_spec().centered_top_left_spec(
        Size { width: inner_d as u32, height: inner_d as u32 },
    );
    seq![
        CmdView::CircleOutline { circle },
        CmdView::CircleFill { circle: Circle { top_left: inner_tl, diameter: inner_d as u32 } },
    ]
}

impl FilledCircle {
    pub fn new(fill_deci_pct: i32, color: Color, circle: Circle) -> (c: FilledCircle)
        ensures
            c == (FilledCircle { fill_deci_pct, color, circle }),
    {
        FilledCircle { fill_deci_pct, color, circle }
    }

    pub fn bounds(&self) -> (r: crate::geometry::Rect)
        ensures
            r == self.circle.bounding_box_spec(),
    {
        self.circle.bounding_box()
    }

    /// Appends the element's commands to the display list.
    pub fn draw(&self, out: &mut DisplayList)
        requires
            self.circle.top_left.op_ok(),
            self.circle.diameter <= 0x40000,
        ensures
            final(out)@ == old(out)@ + filled_circle_commands_spec(
                self.fill_deci_pct as int,
                self.circle,
            ),
    {
        out.push(DrawCommand::CircleOutline { circle: self.circle });
        let outer_d = self.circle.diameter;
        let cap: u32 = if outer_d >= 6 {
            outer_d - 6
        } else {
            0
        };
        let inner_d = min_u32(filled_extent(outer_d, self.fill_deci_pct), cap);
        let inner_tl = self.circle.bounding_box().centered_top_left(
            Size { width: inner_d, height: inner_d },
        );
        out.push(
            DrawCommand::CircleFill { circle: Circle { top_left: inner_tl, diameter: inner_d } },
        );
        proof {
            assert(out@ =~= old(out)@ + filled_circle_commands_spec(
                self.fill_deci_pct as int,
                self.circle,
            ));
        }
    }
}

} // verus!
