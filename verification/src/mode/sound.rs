//! The 'Sound Sensor' mode: samples the sound sensor and displays the
//! level as a bar.

use vstd::prelude::*;

use crate::display::CmdView;
use crate::display::DisplayList;
use crate::geometry::frac;
use crate::geometry::frac_spec;
use crate::geometry::Rect;
use crate::geometry::Size;
use crate::mode::reading_value;
use crate::mode::potentiometer::displayed_pct_spec;
use crate::peripherals::PeripheralError;
use crate::style::AppStyle;
use crate::ui::horizontal_bar::bar_commands_spec;
use crate::ui::horizontal_bar::HorizontalBar;

verus! {

/// Display state of the sound sensor mode.
#[derive(Clone, Copy, Debug, PartialEq, Eq, Structural)]
pub struct SoundMode {
    /// Sound level in tenths of a percent.
    pub value_deci_pct: Option<i32>,
}

/// The bar the mode draws into: nine tenths of the area in both
/// directions, centered.
pub open spec fn sound_bar_rect_spec(area: Rect) -> Rect {
    let w = frac_spec(area.size.width as int, 9, 10);
    let h = frac_spec(area.size.height as int, 9, 10);
    Rect {
        top_left: area.centered_top_left_spec(Size { width: w as u32, height: h as u32 }),
        size: Size { width: w as u32, height: h as u32 },
    }
}

/// The commands the sound mode draws: a bar showing the sound level
/// (zero while unknown).
pub open spec fn sound_draw_spec(m: SoundMode, area: Rect) -> Seq<CmdView> {
    bar_commands_spec(displayed_pct_spec(m.value_deci_pct), sound_bar_rect_spec(area))
}

impl SoundMode {
    pub fn new() -> (m: SoundMode)
        ensures
            m == (SoundMode { value_deci_pct: None::<i32> }),
    {
        SoundMode { value_deci_pct: None }
    }

    /// Takes the newest reading; the displayed value is overwritten with
    /// its outcome.
    pub fn update(&mut self, reading: Result<i32, PeripheralError>)
        ensures
            final(self).value_deci_pct == reading_value(reading),
    {
        self.value_deci_pct = reading.ok();
    }

    /// Draws the bar.
    pub fn draw_with_style(&self, style: &AppStyle, draw_area: Rect, out: &mut DisplayList)
        requires
            style.wf(),
            draw_area.draw_ok(),
        ensures
            final(out)@ == old(out)@ + sound_draw_spec(*self, draw_area),
    {
        let bar_width = frac(draw_area.size.width, 9, 10);
        let bar_height = frac(draw_area.size.height, 9, 10);
        let top_left = draw_area.centered_top_left(
            Size { width: bar_width, height: bar_height },
        );
        let value = match self.value_deci_pct {
            Some(v) => v,
            None => 0,
        };
        let bar = HorizontalBar::new(
            value,
            style.default_color,
            Rect { top_left, size: Size { width: bar_width, height: bar_height } },
        );
        bar.draw(out);
    }
}

} // verus!
