//! The 'Led' mode: samples an analog input and drives an LED's
//! brightness accordingly, displaying the level as text.

use vstd::prelude::*;
use vstd::string::StringExecFns;

use crate::display::CmdView;
use crate::display::DisplayList;
use crate::display::DrawCommand;
use crate::geometry::Rect;
use crate::mode::reading_value;
use crate::peripherals::PeripheralError;
use crate::peripherals::Pwm;
use crate::style::AppStyle;
use crate::text::centi_digits;
use crate::text::fmt_centi;
use crate::text::lemma_format_lengths;
use crate::ui::horizontal_bar::clamp_deci;
use crate::ui::horizontal_bar::clamp_deci_spec;

verus! {

/// Display state of the LED mode.
#[derive(Clone, Copy, Debug, PartialEq, Eq, Structural)]
pub struct LedMode {
    /// Brightness in tenths of a percent.
    pub brightness_deci_pct: Option<i32>,
}

impl LedMode {
    /// The stored brightness stays within the range an analog channel
    /// can report.
    pub open spec fn wf(self) -> bool {
        match self.brightness_deci_pct {
            Some(v) => crate::peripherals::PCT_DECI_MIN <= v <= crate::peripherals::PCT_DECI_MAX,
            None => true,
        }
    }
}

/// The duty cycle driven onto the LED for a brightness value: the value
/// clamped to the percent range (zero while unknown).
pub open spec fn led_duty_spec(brightness: Option<i32>) -> int {
    match brightness {
        Some(v) => clamp_deci_spec(v as int) / 10,
        None => 0,
    }
}

/// Computes the duty cycle for a brightness value.
pub fn led_duty(brightness: Option<i32>) -> (d: u8)
    ensures
        d == led_duty_spec(brightness),
        d <= 100,
{
    match brightness {
        Some(v) => (clamp_deci(v) / 10) as u8,
        None => 0,
    }
}

/// The brightness text: the value with two decimal places and a
/// percent sign, or "???" while unknown. A brightness of `v` tenths of
/// a percent reads as `10 * v` hundredths.
pub open spec fn led_text_spec(m: LedMode) -> Seq<char> {
    match m.brightness_deci_pct {
        Some(v) => centi_digits(10 * v) + "%"@,
        None => "???"@,
    }
}

/// The commands the LED mode draws: the brightness text centered in
/// the area.
pub open spec fn led_draw_spec(m: LedMode, style: AppStyle, area: Rect) -> Seq<CmdView> {
    let text = led_text_spec(m);
    seq![
        CmdView::Text {
            text,
            anchor: area.centered_top_left_spec(style.text_style.text_size_spec(text)),
        },
    ]
}

impl LedMode {
    pub fn new() -> (m: LedMode)
        ensures
            m == (LedMode { brightness_deci_pct: None::<i32> }),
    {
        LedMode { brightness_deci_pct: None }
    }

    /// Takes the newest reading, overwrites the displayed brightness
    /// with its outcome and drives the LED with it (at zero after a
    /// failed reading). A rejected duty-cycle write is absorbed here.
    pub fn update<P: Pwm>(&mut self, reading: Result<i32, PeripheralError>, led: &mut P)
        requires
            reading matches Ok(v) ==> crate::peripherals::PCT_DECI_MIN <= v
                <= crate::peripherals::PCT_DECI_MAX,
        ensures
            final(self).brightness_deci_pct == reading_value(reading),
            final(self).wf(),
    {
        self.brightness_deci_pct = reading.ok();
        let duty: u8 = led_duty(self.brightness_deci_pct);
        let _ = led.set_duty_cycle_percent(duty);
    }

    /// Draws the brightness text.
    pub fn draw_with_style(&self, style: &AppStyle, draw_area: Rect, out: &mut DisplayList)
        requires
            style.wf(),
            draw_area.draw_ok(),
            self.wf(),
        ensures
            final(out)@ == old(out)@ + led_draw_spec(*self, *style, draw_area),
    {
        proof {
            reveal_strlit("%");
            reveal_strlit("???");
        }
        let text = match self.brightness_deci_pct {
            Some(v) => {
                proof {
                    lemma_format_lengths(10 * v as int);
                }
                let mut s = fmt_centi(10 * v);
                s.append("%");
                s
            },
            None => "???".to_owned(),
        };
        proof {
            assert(text@.len() * style.text_style.char_width <= 64 * 256) by (nonlinear_arith)
                requires
                    text@.len() <= 64,
                    style.text_style.char_width <= 256,
            ;
        }
        let text_size = style.text_style.text_size(text.as_str());
        let anchor = draw_area.centered_top_left(text_size);
        out.push(DrawCommand::Text { text, anchor });
        proof {
            assert(out@ =~= old(out)@ + led_draw_spec(*self, *style, draw_area));
        }
    }

    /// Switches the LED driver on at a fixed carrier frequency.
    pub fn enter<P: Pwm>(&mut self, led: &mut P) -> (r: Result<(), PeripheralError>)
        ensures
            *final(self) == *old(self),
            r is Ok ==> final(led).enabled_spec() && final(led).freq_spec() == 10000
                && final(led).duty_spec() == old(led).duty_spec(),
    {
        led.set_frequency(10000)?;
        led.enable()?;
        Ok(())
    }

    /// Silences the LED: the duty cycle reaches zero and the output
    /// stage is disabled before this returns.
    pub fn exit<P: Pwm>(&mut self, led: &mut P) -> (r: Result<(), PeripheralError>)
        ensures
            *final(self) == *old(self),
            final(led).duty_spec() == 0,
            !final(led).enabled_spec(),
    {
        led.disable()
    }
}

} // verus!
