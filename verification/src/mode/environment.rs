//! The 'Environment' mode: samples a set of environment sensors and
//! displays the readings in a table.

use vstd::prelude::*;
use vstd::string::StringExecFns;

use crate::display::CmdView;
use crate::display::DisplayList;
use crate::geometry::Rect;
use crate::mode::reading_value;
use crate::peripherals::PeripheralError;
use crate::style::AppStyle;
use crate::text::centi_digits;
use crate::text::deci_digits;
use crate::text::fmt_centi;
use crate::text::fmt_deci;
use crate::text::lemma_format_lengths;
use crate::ui::environment::draw_env_table;
use crate::ui::environment::env_table_spec;

verus! {

/// Display state of the environment mode; every field is unknown until
/// its sensor delivers a reading.
#[derive(Clone, Copy, Debug, PartialEq, Eq, Structural)]
pub struct EnvironmentMode {
    /// Temperature in hundredths of a °C.
    pub temperature_centi: Option<i32>,
    /// Humidity in hundredths of a percent.
    pub humidity_centi: Option<i32>,
    /// Pressure in tenths of a kPa.
    pub pressure_deci: Option<i32>,
}

/// The table texts: each known value formatted with its unit, each
/// unknown one shown as "???".
pub open spec fn env_mode_texts_spec(m: EnvironmentMode) -> (Seq<char>, Seq<char>, Seq<char>) {
    (
        match m.temperature_centi {
            Some(v) => centi_digits(v as int) + "°C"@,
            None => "???"@,
        },
        match m.humidity_centi {
            Some(v) => centi_digits(v as int) + "%"@,
            None => "???"@,
        },
        match m.pressure_deci {
            Some(v) => deci_digits(v as int) + "kPa"@,
            None => "???"@,
        },
    )
}

/// The commands the environment mode draws: its three-row table.
pub open spec fn env_mode_draw_spec(m: EnvironmentMode, style: AppStyle, area: Rect) -> Seq<
    CmdView,
> {
    let (t, h, p) = env_mode_texts_spec(m);
    env_table_spec(t, h, p, style.text_style, area)
}

/// Law (partial sensor failure): a mode state in which the temperature
/// is unknown while humidity and pressure are known still draws the
/// full three-row table — the delivered humidity and pressure values
/// are rendered, and only the temperature cell shows the placeholder.
pub proof fn lemma_partial_failure_renders(
    m: EnvironmentMode,
    h: i32,
    p: i32,
    style: AppStyle,
    area: Rect,
)
    requires
        m.temperature_centi is None,
        m.humidity_centi == Some(h),
        m.pressure_deci == Some(p),
    ensures
        env_mode_draw_spec(m, style, area).len() == 6,
        env_mode_draw_spec(m, style, area)[1] matches CmdView::Text { text: t1, .. } && t1
            == "???"@,
        env_mode_draw_spec(m, style, area)[3] matches CmdView::Text { text: t3, .. } && t3
            == centi_digits(h as int) + "%"@,
        env_mode_draw_spec(m, style, area)[5] matches CmdView::Text { text: t5, .. } && t5
            == deci_digits(p as int) + "kPa"@,
{
}

impl EnvironmentMode {
    pub fn new() -> (m: EnvironmentMode)
        ensures
            m == (EnvironmentMode {
                temperature_centi: None::<i32>,
                humidity_centi: None::<i32>,
                pressure_deci: None::<i32>,
            }),
    {
        EnvironmentMode { temperature_centi: None, humidity_centi: None, pressure_deci: None }
    }

    /// Takes the newest readings; each field is overwritten with its own
    /// reading's outcome, independently of the other two.
    pub fn update(
        &mut self,
        temperature: Result<i32, PeripheralError>,
        humidity: Result<i32, PeripheralError>,
        pressure: Result<i32, PeripheralError>,
    )
        ensures
            final(self).temperature_centi == reading_value(temperature),
            final(self).humidity_centi == reading_value(humidity),
            final(self).pressure_deci == reading_value(pressure),
    {
        self.temperature_centi = temperature.ok();
        self.humidity_centi = humidity.ok();
        self.pressure_deci = pressure.ok();
    }

    /// Draws the table of readings.
    pub fn draw_with_style(&self, style: &AppStyle, draw_area: Rect, out: &mut DisplayList)
        requires
            style.wf(),
            draw_area.draw_ok(),
        ensures
            final(out)@ == old(out)@ + env_mode_draw_spec(*self, *style, draw_area),
    {
        proof {
            reveal_strlit("°C");
            reveal_strlit("%");
            reveal_strlit("kPa");
            reveal_strlit("???");
        }
        let temp = match self.temperature_centi {
            Some(v) => {
                proof {
                    lemma_format_lengths(v as int);
                }
                let mut s = fmt_centi(v);
                s.append("°C");
                s
            },
            None => "???".to_owned(),
        };
        let hum = match self.humidity_centi {
            Some(v) => {
                proof {
                    lemma_format_lengths(v as int);
                }
                let mut s = fmt_centi(v);
                s.append("%");
                s
            },
            None => "???".to_owned(),
        };
        let pres = match self.pressure_deci {
            Some(v) => {
                proof {
                    lemma_format_lengths(v as int);
                }
                let mut s = fmt_deci(v);
                s.append("kPa");
                s
            },
            None => "???".to_owned(),
        };
        draw_env_table(temp, hum, pres, &style.text_style, draw_area, out);
    }
}

} // verus!
