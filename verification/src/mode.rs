//! The application modes: each pairs a sensor or actuator with a
//! rendering of its current state.
//!
//! The mode set is closed, so the heterogeneous mode list is the tagged
//! sum [`Mode`], dispatched by a single match in `title` and
//! `draw_with_style`; updates are dispatched by the application core,
//! which hands each variant the reading from its own input.
//!
//! Failure policy: every mode overwrites its displayed state with the
//! outcome of the newest reading, so a failed reading shows as unknown
//! ("???") immediately rather than freezing the last good value.

pub mod acceleration;
pub mod buzzer;
pub mod environment;
pub mod led;
pub mod light;
pub mod potentiometer;
pub mod sound;

use vstd::prelude::*;

use crate::display::CmdView;
use crate::display::DisplayList;
use crate::geometry::Rect;
use crate::peripherals::AccelVec;
use crate::peripherals::PeripheralError;
use crate::style::AppStyle;

use acceleration::AccelerationMode;
use buzzer::BuzzerMode;
use environment::EnvironmentMode;
use led::LedMode;
use light::LightSensorMode;
use potentiometer::PotentiometerMode;
use sound::SoundMode;

verus! {

/// The value a fallible reading leaves behind: the fresh value on
/// success, unknown on failure.
pub open spec fn reading_value(r: Result<i32, PeripheralError>) -> Option<i32> {
    match r {
        Ok(v) => Some(v),
        Err(_) => None,
    }
}

/// As [`reading_value`], for acceleration readings.
pub open spec fn accel_reading_value(r: Result<AccelVec, PeripheralError>) -> Option<AccelVec> {
    match r {
        Ok(v) => Some(v),
        Err(_) => None,
    }
}

/// One display mode of the application, with its display state.
#[derive(Clone, Copy, Debug, PartialEq, Eq, Structural)]
pub enum Mode {
    Environment(EnvironmentMode),
    Potentiometer(PotentiometerMode),
    Acceleration(AccelerationMode),
    Light(LightSensorMode),
    Sound(SoundMode),
    Led(LedMode),
    Buzzer(BuzzerMode),
}

/// The title shown for each mode.
pub open spec fn title_spec(m: Mode) -> Seq<char> {
    match m {
        Mode::Environment(_) => "Environment"@,
        Mode::Potentiometer(_) => "Potentiometer"@,
        Mode::Acceleration(_) => "Acceleration"@,
        Mode::Light(_) => "Light Sensor"@,
        Mode::Sound(_) => "Sound Sensor"@,
        Mode::Led(_) => "Led"@,
        Mode::Buzzer(_) => "Buzzer"@,
    }
}

/// The commands a mode draws into an area, as a function of its state.
pub open spec fn mode_draw_spec(m: Mode, style: AppStyle, area: Rect) -> Seq<CmdView> {
    match m {
        Mode::Environment(e) => environment::env_mode_draw_spec(e, style, area),
        Mode::Potentiometer(p) => potentiometer::pot_draw_spec(p, style, area),
        Mode::Acceleration(a) => acceleration::accel_draw_spec(a, area),
        Mode::Light(l) => light::light_draw_spec(l, area),
        Mode::Sound(s) => sound::sound_draw_spec(s, area),
        Mode::Led(l) => led::led_draw_spec(l, style, area),
        Mode::Buzzer(b) => buzzer::buzzer_draw_spec(b, style, area),
    }
}

/// Well-formedness of a mode's display state.
pub open spec fn mode_wf(m: Mode) -> bool {
    match m {
        Mode::Acceleration(a) => a.wf(),
        Mode::Led(l) => l.wf(),
        _ => true,
    }
}

impl Mode {
    /// Returns the title that should be displayed.
    pub fn title(&self) -> (t: String)
        ensures
            t@ == title_spec(*self),
            t@.len() <= 16,
    {
        proof {
            reveal_strlit("Environment");
            reveal_strlit("Potentiometer");
            reveal_strlit("Acceleration");
            reveal_strlit("Light Sensor");
            reveal_strlit("Sound Sensor");
            reveal_strlit("Led");
            reveal_strlit("Buzzer");
        }
        match self {
            Mode::Environment(_) => "Environment".to_owned(),
            Mode::Potentiometer(_) => "Potentiometer".to_owned(),
            Mode::Acceleration(_) => "Acceleration".to_owned(),
            Mode::Light(_) => "Light Sensor".to_owned(),
            Mode::Sound(_) => "Sound Sensor".to_owned(),
            Mode::Led(_) => "Led".to_owned(),
            Mode::Buzzer(_) => "Buzzer".to_owned(),
        }
    }

    /// Draws the mode's content into the given area following the
    /// provided style.
    pub fn draw_with_style(&self, style: &AppStyle, draw_area: Rect, out: &mut DisplayList)
        requires
            style.wf(),
            draw_area.draw_ok(),
            mode_wf(*self),
        ensures
            final(out)@ == old(out)@ + mode_draw_spec(*self, *style, draw_area),
    {
        match self {
            Mode::Environment(e) => e.draw_with_style(style, draw_area, out),
            Mode::Potentiometer(p) => p.draw_with_style(style, draw_area, out),
            Mode::Acceleration(a) => a.draw_with_style(style, draw_area, out),
            Mode::Light(l) => l.draw_with_style(style, draw_area, out),
            Mode::Sound(s) => s.draw_with_style(style, draw_area, out),
            Mode::Led(l) => l.draw_with_style(style, draw_area, out),
            Mode::Buzzer(b) => b.draw_with_style(style, draw_area, out),
        }
    }
}

} // verus!
