//! The 'Potentiometer' mode: samples a potentiometer and displays the
//! value both as a percentage and as a bar.

use vstd::prelude::*;
use vstd::string::StringExecFns;

use crate::display::CmdView;
use crate::display::DisplayList;
use crate::display::DrawCommand;
use crate::geometry::frac;
use crate::geometry::frac_spec;
use crate::geometry::half_diff;
use crate::geometry::half_diff_spec;
use crate::geometry::max_int;
use crate::geometry::max_u32;
use crate::geometry::min_int;
use crate::geometry::min_u32;
use crate::geometry::Point;
use crate::geometry::Rect;
use crate::geometry::Size;
use crate::mode::reading_value;
use crate::peripherals::PeripheralError;
use crate::style::AppStyle;
use crate::text::deci_digits;
use crate::text::fmt_deci;
use crate::text::lemma_format_lengths;
use crate::ui::horizontal_bar::bar_commands_spec;
use crate::ui::horizontal_bar::HorizontalBar;

verus! {

/// Display state of the potentiometer mode.
#[derive(Clone, Copy, Debug, PartialEq, Eq, Structural)]
pub struct PotentiometerMode {
    /// Signal value in tenths of a percent.
    pub value_deci_pct: Option<i32>,
}

/// The percentage text: the value with one decimal place and a percent
/// sign, or "???" while unknown.
pub open spec fn pot_text_spec(m: PotentiometerMode) -> Seq<char> {
    match m.value_deci_pct {
        Some(v) => deci_digits(v as int) + "%"@,
        None => "???"@,
    }
}

/// The bar's fill level: the value, or zero while unknown.
pub open spec fn displayed_pct_spec(value: Option<i32>) -> int {
    match value {
        Some(v) => v as int,
        None => 0,
    }
}

/// The geometry of the mode's vertical layout: the text above the bar,
/// five pixels apart, the bar four fifths of the area wide and at most
/// twenty pixels tall, the whole block centered in the area.
pub open spec fn pot_layout_spec(text: Seq<char>, style: AppStyle, area: Rect) -> (Point, Rect) {
    let text_size = style.text_style.text_size_spec(text);
    let bar_w = frac_spec(area.size.width as int, 8, 10);
    let bar_h = min_int(
        20,
        max_int(area.size.height - text_size.height, 0),
    );
    let total_w = max_int(text_size.width as int, bar_w);
    let total_h = text_size.height + 5 + bar_h;
    let layout = area.centered_top_left_spec(
        Size { width: total_w as u32, height: total_h as u32 },
    );
    let text_anchor = Point {
        x: (layout.x + half_diff_spec(total_w, text_size.width as int)) as i32,
        y: layout.y,
    };
    let bar_rect = Rect {
        top_left: Point {
            x: (layout.x + half_diff_spec(total_w, bar_w)) as i32,
            y: (layout.y + text_size.height + 5) as i32,
        },
        size: Size { width: bar_w as u32, height: bar_h as u32 },
    };
    (text_anchor, bar_rect)
}

/// The commands the potentiometer mode draws: the percentage text, then
/// the bar below it.
pub open spec fn pot_draw_spec(m: PotentiometerMode, style: AppStyle, area: Rect) -> Seq<CmdView> {
    let text = pot_text_spec(m);
    let (text_anchor, bar_rect) = pot_layout_spec(text, style, area);
    seq![CmdView::Text { text, anchor: text_anchor }] + bar_commands_spec(
        displayed_pct_spec(m.value_deci_pct),
        bar_rect,
    )
}

impl PotentiometerMode {
    pub fn new() -> (m: PotentiometerMode)
        ensures
            m == (PotentiometerMode { value_deci_pct: None::<i32> }),
    {
        PotentiometerMode { value_deci_pct: None }
    }

    /// Takes the newest reading; the displayed value is overwritten with
    /// its outcome.
    pub fn update(&mut self, reading: Result<i32, PeripheralError>)
        ensures
            final(self).value_deci_pct == reading_value(reading),
    {
        self.value_deci_pct = reading.ok();
    }

    /// Draws the percentage text and the bar.
    pub fn draw_with_style(&self, style: &AppStyle, draw_area: Rect, out: &mut DisplayList)
        requires
            style.wf(),
            draw_area.draw_ok(),
        ensures
            final(out)@ == old(out)@ + pot_draw_spec(*self, *style, draw_area),
    {
        proof {
            reveal_strlit("%");
            reveal_strlit("???");
        }
        let text = match self.value_deci_pct {
            Some(v) => {
                proof {
                    lemma_format_lengths(v as int);
                }
                let mut s = fmt_deci(v);
                s.append("%");
                s
            },
            None => "???".to_owned(),
        };
        proof {
            assert(text@.len() * style.text_style.char_width <= 64 * 256) by (nonlinear_arith)
                requires
                    text@.len() <= 64,
                    style.text_style.char_width <= 256,
            ;
        }
        let text_size = style.text_style.text_size(text.as_str());
        let bar_w = frac(draw_area.size.width, 8, 10);
        let bar_h = min_u32(
            20,
            if draw_area.size.height >= text_size.height {
                draw_area.size.height - text_size.height
            } else {
                0
            },
        );
        let total_w = max_u32(text_size.width, bar_w);
        let total_h = text_size.height + 5 + bar_h;
        let layout = draw_area.centered_top_left(Size { width: total_w, height: total_h });
        let text_anchor = Point {
            x: layout.x + half_diff(total_w, text_size.width),
            y: layout.y,
        };
        let bar_rect = Rect {
            top_left: Point {
                x: layout.x + half_diff(total_w, bar_w),
                y: layout.y + text_size.height as i32 + 5,
            },
            size: Size { width: bar_w, height: bar_h },
        };
        let value = match self.value_deci_pct {
            Some(v) => v,
            None => 0,
        };
        out.push(DrawCommand::Text { text, anchor: text_anchor });
        let bar = HorizontalBar::new(value, style.default_color, bar_rect);
        bar.draw(out);
        proof {
            assert(out@ =~= old(out)@ + pot_draw_spec(*self, *style, draw_area));
        }
    }
}

} // verus!
