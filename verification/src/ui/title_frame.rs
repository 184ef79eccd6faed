//! The title frame: a title line centered at the top of the display,
//! with a bordered content region below it for the active mode.

use vstd::prelude::*;

use crate::display::CmdView;
use crate::display::DisplayList;
use crate::display::DrawCommand;
use crate::geometry::half_diff_spec;
use crate::geometry::Point;
use crate::geometry::Rect;
use crate::style::Color;
use crate::style::FontMetrics;

verus! {

/// A title bar with a framed content region below it.
pub struct TitleFrame {
    /// The title text.
    pub title: String,
    /// Font the title is set in.
    pub title_style: FontMetrics,
    /// Color of the frame.
    pub frame_color: Color,
    /// The whole area the frame occupies, normally the full display.
    pub area: Rect,
}

/// The part of the area below the title line: the area with one title
/// line height taken off the top (collapsing to zero height for
/// displays shorter than the title).
pub open spec fn area_below_title_spec(area: Rect, title_style: FontMetrics) -> Rect {
    let remaining = if area.size.height >= title_style.line_height {
        area.size.height - title_style.line_height
    } else {
        0
    };
    area.resized_height_bottom_spec(remaining as int)
}

/// The content region handed to the active mode: the area below the
/// title, inset by five pixels.
pub open spec fn inner_area_spec(area: Rect, title_style: FontMetrics) -> Rect {
    area_below_title_spec(area, title_style).offset_spec(-5)
}

/// The commands the frame draws: the title centered at the top of the
/// area, then the border of the content region, inset by three pixels
/// from the area below the title.
pub open spec fn title_frame_commands_spec(
    title: Seq<char>,
    title_style: FontMetrics,
    area: Rect,
) -> Seq<CmdView> {
    let anchor = Point {
        x: (area.top_left.x + half_diff_spec(
            area.size.width as int,
            title_style.text_size_spec(title).width as int,
        )) as i32,
        y: area.top_left.y,
    };
    seq![
        CmdView::TitleText { text: title, anchor },
        CmdView::RectOutline { rect: area_below_title_spec(area, title_style).offset_spec(-3) },
    ]
}

impl TitleFrame {
    pub open spec fn wf(self) -> bool {
        &&& self.title@.len() <= 64
        &&& self.title_style.wf()
        &&& self.area.wf()
    }

    /// Creates a frame for the given display area.
    pub fn new_with_area(title: String, title_style: FontMetrics, frame_color: Color, area: Rect)
        -> (f: TitleFrame)
        requires
            title@.len() <= 64,
        ensures
            f == (TitleFrame { title, title_style, frame_color, area }),
    {
        TitleFrame { title, title_style, frame_color, area }
    }

    /// The part of the area below the title line.
    pub fn area_below_title(&self) -> (r: Rect)
        requires
            self.wf(),
        ensures
            r == area_below_title_spec(self.area, self.title_style),
    {
        let remaining: u32 = if self.area.size.height >= self.title_style.line_height {
            self.area.size.height - self.title_style.line_height
        } else {
            0
        };
        self.area.resized_height_bottom(remaining)
    }

    /// The content region handed to the active mode.
    pub fn inner_area(&self) -> (r: Rect)
        requires
            self.wf(),
        ensures
            r == inner_area_spec(self.area, self.title_style),
    {
        self.area_below_title().offset(-5)
    }

    /// Appends the frame's commands to the display list.
    pub fn draw(&self, out: &mut DisplayList)
        requires
            self.wf(),
        ensures
            final(out)@ == old(out)@ + title_frame_commands_spec(
                self.title@,
                self.title_style,
                self.area,
            ),
    {
        let title_size = self.title_style.text_size(self.title.as_str());
        proof {
            assert(self.title@.len() * self.title_style.char_width <= 64 * 256)
                by (nonlinear_arith)
                requires
                    self.title@.len() <= 64,
                    self.title_style.char_width <= 256,
            ;
        }
        let anchor = Point {
            x: self.area.top_left.x + crate::geometry::half_diff(
                self.area.size.width,
                title_size.width,
            ),
            y: self.area.top_left.y,
        };
        let title_text = self.title.clone();
        out.push(DrawCommand::TitleText { text: title_text, anchor });
        let border = self.area_below_title().offset(-3);
        out.push(DrawCommand::RectOutline { rect: border });
        proof {
            assert(out@ =~= old(out)@ + title_frame_commands_spec(
                self.title@,
                self.title_style,
                self.area,
            ));
        }
    }
}

} // verus!
