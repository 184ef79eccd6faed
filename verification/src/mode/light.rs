//! The 'Light Sensor' mode: samples a photo-resistor and displays the
//! value as a partially filled circle.

use vstd::prelude::*;

use crate::display::CmdView;
use crate::display::DisplayList;
use crate::geometry::frac;
use crate::geometry::frac_spec;
use crate::geometry::min_int;
use crate::geometry::min_u32;
use crate::geometry::Circle;
use crate::geometry::Rect;
use crate::geometry::Size;
use crate::mode::reading_value;
use crate::mode::potentiometer::displayed_pct_spec;
use crate::peripherals::PeripheralError;
use crate::style::AppStyle;
use crate::ui::filled_circle::filled_circle_commands_spec;
use crate::ui::filled_circle::FilledCircle;

verus! {

/// Display state of the light sensor mode.
#[derive(Clone, Copy, Debug, PartialEq, Eq, Structural)]
pub struct LightSensorMode {
    /// Light level in tenths of a percent.
    pub value_deci_pct: Option<i32>,
}

/// The circle the mode draws into: nine tenths of the area's smaller
/// dimension, centered.
pub open spec fn light_circle_spec(area: Rect) -> Circle {
    let d = frac_spec(min_int(area.size.width as int, area.size.height as int), 9, 10);
    Circle {
        top_left: area.centered_top_left_spec(Size { width: d as u32, height: d as u32 }),
        diameter: d as u32,
    }
}

/// The commands the light mode draws: a filled circle showing the light
/// level (zero while unknown).
pub open spec fn light_draw_spec(m: LightSensorMode, area: Rect) -> Seq<CmdView> {
    filled_circle_commands_spec(displayed_pct_spec(m.value_deci_pct), light_circle_spec(area))
}

impl LightSensorMode {
    pub fn new() -> (m: LightSensorMode)
        ensures
            m == (LightSensorMode { value_deci_pct: None::<i32> }),
    {
        LightSensorMode { value_deci_pct: None }
    }

    /// Takes the newest reading; the displayed value is overwritten with
    /// its outcome.
    pub fn update(&mut self, reading: Result<i32, PeripheralError>)
        ensures
            final(self).value_deci_pct == reading_value(reading),
    {
        self.value_deci_pct = reading.ok();
    }

    /// Draws the filled circle.
    pub fn draw_with_style(&self, style: &AppStyle, draw_area: Rect, out: &mut DisplayList)
        requires
            style.wf(),
            draw_area.draw_ok(),
        ensures
            final(out)@ == old(out)@ + light_draw_spec(*self, draw_area),
    {
        let max_dimension = min_u32(draw_area.size.width, draw_area.size.height);
        let diameter = frac(max_dimension, 9, 10);
        let top_left = draw_area.centered_top_left(Size { width: diameter, height: diameter });
        let value = match self.value_deci_pct {
            Some(v) => v,
            None => 0,
        };
        let circle = FilledCircle::new(
            value,
            style.default_color,
            Circle { top_left, diameter },
        );
        circle.draw(out);
    }
}

} // verus!
