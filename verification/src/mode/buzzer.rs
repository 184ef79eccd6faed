//! The 'Buzzer' mode: drives the buzzer with the tone mapped from an
//! analog input and displays the frequency.
//!
//! The input percentage is turned into a frequency by the board's tone
//! curve (see [`crate::peripherals::ToneMap`]); the mode stores the
//! mapped frequency, drives it onto the output, and renders it.

use vstd::prelude::*;
use vstd::string::StringExecFns;

use crate::display::CmdView;
use crate::display::DisplayList;
use crate::display::DrawCommand;
use crate::geometry::Rect;
use crate::peripherals::PeripheralError;
use crate::peripherals::Pwm;
use crate::style::AppStyle;
use crate::text::dec_digits;
use crate::text::fmt_u32;
use crate::text::lemma_dec_digits_len;
use crate::text::pow10;

verus! {

/// Display state of the buzzer mode.
#[derive(Clone, Copy, Debug, PartialEq, Eq, Structural)]
pub struct BuzzerMode {
    /// Tone frequency in Hz.
    pub frequency_hz: Option<u32>,
}

/// The frequency text: the tone in Hz, or "???" while unknown.
pub open spec fn buzzer_text_spec(m: BuzzerMode) -> Seq<char> {
    match m.frequency_hz {
        Some(f) => dec_digits(f as nat) + "Hz"@,
        None => "???"@,
    }
}

/// The commands the buzzer mode draws: the frequency text centered in
/// the area.
pub open spec fn buzzer_draw_spec(m: BuzzerMode, style: AppStyle, area: Rect) -> Seq<CmdView> {
    let text = buzzer_text_spec(m);
    seq![
        CmdView::Text {
            text,
            anchor: area.centered_top_left_spec(style.text_style.text_size_spec(text)),
        },
    ]
}

impl BuzzerMode {
    pub fn new() -> (m: BuzzerMode)
        ensures
            m == (BuzzerMode { frequency_hz: None::<u32> }),
    {
        BuzzerMode { frequency_hz: None }
    }

    /// Takes the newest input reading together with the tone frequency
    /// the board's tone curve maps it to: on success that frequency is
    /// stored and driven onto the buzzer (a rejected write is absorbed
    /// here), on a failed reading the displayed frequency becomes
    /// unknown and the output is left untouched.
    pub fn update<P: Pwm>(
        &mut self,
        reading: Result<i32, PeripheralError>,
        frequency_hz: u32,
        output: &mut P,
    )
        ensures
            final(self).frequency_hz == match reading {
                Ok(_) => Some(frequency_hz),
                Err(_) => None::<u32>,
            },
            reading is Err ==> *final(output) == *old(output),
    {
        match reading {
            Ok(_) => {
                self.frequency_hz = Some(frequency_hz);
                let _ = output.set_frequency(frequency_hz);
            },
            Err(_) => {
                self.frequency_hz = None;
            },
        }
    }

    /// Draws the frequency text.
    pub fn draw_with_style(&self, style: &AppStyle, draw_area: Rect, out: &mut DisplayList)
        requires
            style.wf(),
            draw_area.draw_ok(),
        ensures
            final(out)@ == old(out)@ + buzzer_draw_spec(*self, *style, draw_area),
    {
        proof {
            reveal_strlit("Hz");
            reveal_strlit("???");
        }
        let text = match self.frequency_hz {
            Some(f) => {
                proof {
                    assert(pow10(10) == 10000000000) by {
                        reveal_with_fuel(pow10, 11);
                    }
                    lemma_dec_digits_len(f as nat, 10);
                }
                let mut s = fmt_u32(f);
                s.append("Hz");
                s
            },
            None => "???".to_owned(),
        };
        proof {
            assert(text@.len() * style.text_style.char_width <= 64 * 256) by (nonlinear_arith)
                requires
                    text@.len() <= 64,
                    style.text_style.char_width <= 256,
            ;
        }
        let text_size = style.text_style.text_size(text.as_str());
        let anchor = draw_area.centered_top_left(text_size);
        out.push(DrawCommand::Text { text, anchor });
        proof {
            assert(out@ =~= old(out)@ + buzzer_draw_spec(*self, *style, draw_area));
        }
    }

    /// Switches the buzzer on at half duty, replaying the stored tone
    /// frequency if one is known.
    pub fn enter<P: Pwm>(&mut self, output: &mut P) -> (r: Result<(), PeripheralError>)
        ensures
            *final(self) == *old(self),
            r is Ok ==> final(output).enabled_spec() && final(output).duty_spec() == 50 && (match
                old(self).frequency_hz {
                Some(f) => final(output).freq_spec() == f,
                None => final(output).freq_spec() == old(output).freq_spec(),
            }),
    {
        output.set_duty_cycle_percent(50)?;
        output.enable()?;
        if let Some(f) = self.frequency_hz {
            output.set_frequency(f)?;
        }
        Ok(())
    }

    /// Silences the buzzer: the duty cycle reaches zero and the output
    /// stage is disabled before this returns.
    pub fn exit<P: Pwm>(&mut self, output: &mut P) -> (r: Result<(), PeripheralError>)
        ensures
            *final(self) == *old(self),
            final(output).duty_spec() == 0,
            !final(output).enabled_spec(),
    {
        output.disable()
    }
}

} // verus!
