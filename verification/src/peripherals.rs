//! Capability traits for the peripherals the modes consume, and the
//! percentage arithmetic shared by every analog channel.
//!
//! The board support layer implements these traits over the real
//! hardware; the library is verified against their contracts alone.
//! Signal percentages are carried in tenths of a percent (deci-percent),
//! computed as `1000 * raw / max` with integer division.

use vstd::arithmetic::div_mod::lemma_div_is_ordered;
use vstd::arithmetic::div_mod::lemma_div_multiples_vanish;
use vstd::arithmetic::div_mod::lemma_div_nonincreasing;
use vstd::arithmetic::div_mod::lemma_div_pos_is_pos;
use vstd::prelude::*;

use crate::geometry::Point;

verus! {

/// Error type used by peripheral implementations.
#[derive(Clone, Copy, Debug, PartialEq, Eq, Structural)]
pub enum PeripheralError {
    /// An I2C error.
    I2c,
    /// An ADC error.
    Adc,
    /// A PWM error.
    Pwm,
}

impl PeripheralError {
    /// A human-readable description of the error.
    pub fn message(&self) -> (s: &'static str)
        ensures
            *self is I2c ==> s@ == "Error during I2C transaction"@,
            *self is Adc ==> s@ == "Error during ADC operation"@,
            *self is Pwm ==> s@ == "Error during PWM operation"@,
    {
        match self {
            PeripheralError::I2c => "Error during I2C transaction",
            PeripheralError::Adc => "Error during ADC operation",
            PeripheralError::Pwm => "Error during PWM operation",
        }
    }
}

/// Largest deci-percent value a channel can report: `1000 * raw / max`
/// with `raw <= u16::MAX` and `max >= 1`.
pub const PCT_DECI_MAX: i32 = 65_535_000;

/// Smallest deci-percent value a reversed channel can report:
/// `1000 - PCT_DECI_MAX`.
pub const PCT_DECI_MIN: i32 = -65_534_000;

/// The deci-percent value of a raw reading against a channel maximum.
pub open spec fn pct_deci_spec(raw: int, max: int) -> int {
    1000 * raw / max
}

/// The deci-percent value a reversed channel reports: the complement of
/// the base channel's value.
pub open spec fn reversed_pct_deci_spec(raw: int, max: int) -> int {
    1000 - pct_deci_spec(raw, max)
}

/// Computes the deci-percent value of a raw reading.
pub fn pct_deci(raw: u16, max: u16) -> (p: i32)
    requires
        max > 0,
    ensures
        p == pct_deci_spec(raw as int, max as int),
        0 <= p <= PCT_DECI_MAX,
        raw <= max ==> p <= 1000,
{
    proof {
        lemma_div_nonincreasing(1000 * raw, max as int);
        lemma_div_pos_is_pos(1000 * raw, max as int);
        if raw <= max {
            lemma_div_is_ordered(1000 * raw, 1000 * max, max as int);
            lemma_div_multiples_vanish(1000, max as int);
            assert(max as int * 1000 == 1000 * max);
        }
    }
    ((1000u64 * raw as u64) / max as u64) as i32
}

/// Law: for every raw value in `[0, max]`, the reversed channel's
/// percentage is exactly the complement of the base channel's, and the
/// endpoints map to full scale and zero: raw `0` reads 0.0% on the base
/// channel and 100.0% reversed, raw `max` reads 100.0% on the base
/// channel and 0.0% reversed.
pub proof fn lemma_reversed_complements(raw: int, max: int)
    requires
        0 < max,
        0 <= raw <= max,
    ensures
        reversed_pct_deci_spec(raw, max) == 1000 - pct_deci_spec(raw, max),
        0 <= pct_deci_spec(raw, max) <= 1000,
        0 <= reversed_pct_deci_spec(raw, max) <= 1000,
        pct_deci_spec(0, max) == 0,
        reversed_pct_deci_spec(0, max) == 1000,
        pct_deci_spec(max, max) == 1000,
        reversed_pct_deci_spec(max, max) == 0,
{
    lemma_div_pos_is_pos(1000 * raw, max);
    lemma_div_is_ordered(1000 * raw, 1000 * max, max);
    lemma_div_multiples_vanish(1000, max);
    assert(max * 1000 == 1000 * max);
    assert(pct_deci_spec(0, max) == 0) by {
        assert(1000 * 0 == 0);
        lemma_div_multiples_vanish(0, max);
        assert(max * 0 == 0);
    }
}

/// An analog input channel.
///
/// `pct_of` is the implementation's own mapping from a raw conversion to
/// the percentage it reports; the base channels report
/// [`pct_deci_spec`], a reversed channel its complement.
pub trait AnalogInput: Sized {
    /// Well-formedness of the input handle.
    spec fn inv(&self) -> bool;

    /// The channel's fixed maximum raw value.
    spec fn max_spec(&self) -> u16;

    /// The deci-percent value this channel reports for a raw conversion.
    spec fn pct_of(&self, raw: u16) -> int;

    /// The channel maximum is nonzero.
    proof fn max_value_positive(&self)
        requires
            self.inv(),
        ensures
            self.max_spec() > 0,
    ;

    /// Reported percentages stay within the range reachable from 16-bit
    /// conversions.
    proof fn pct_of_bounded(&self, raw: u16)
        requires
            self.inv(),
        ensures
            PCT_DECI_MIN <= self.pct_of(raw) <= PCT_DECI_MAX,
    ;

    /// Raw input value.
    fn input_raw(&mut self) -> (r: Result<u16, PeripheralError>)
        requires
            old(self).inv(),
        ensures
            final(self).inv(),
            final(self).max_spec() == old(self).max_spec(),
            forall|raw: u16| final(self).pct_of(raw) == old(self).pct_of(raw),
    ;

    /// Maximum value this input can provide.
    fn max_value(&self) -> (r: Result<u16, PeripheralError>)
        requires
            self.inv(),
        ensures
            r matches Ok(m) ==> m == self.max_spec(),
    ;

    /// Relative input value, in tenths of a percent of the maximum.
    fn input_pct(&mut self) -> (r: Result<i32, PeripheralError>)
        requires
            old(self).inv(),
        ensures
            final(self).inv(),
            final(self).max_spec() == old(self).max_spec(),
            forall|raw: u16| final(self).pct_of(raw) == old(self).pct_of(raw),
            r matches Ok(p) ==> exists|raw: u16| p == old(self).pct_of(raw),
    ;
}

/// An analog input whose relative value is reversed (i.e. the maximum
/// value registers as 0.0% and 0 registers as 100.0%).
pub struct ReversedAnalogInput<T> {
    /// The underlying input.
    pub input: T,
}

impl<T> ReversedAnalogInput<T> {
    /// Create a new reversed input based on an existing input.
    pub fn new(input: T) -> (r: ReversedAnalogInput<T>)
        ensures
            r.input == input,
    {
        ReversedAnalogInput { input }
    }
}

impl<T: AnalogInput> AnalogInput for ReversedAnalogInput<T> {
    open spec fn inv(&self) -> bool {
        self.input.inv()
    }

    open spec fn max_spec(&self) -> u16 {
        self.input.max_spec()
    }

    open spec fn pct_of(&self, raw: u16) -> int {
        1000 - self.input.pct_of(raw)
    }

    proof fn max_value_positive(&self) {
        self.input.max_value_positive();
    }

    proof fn pct_of_bounded(&self, raw: u16) {
        self.input.pct_of_bounded(raw);
    }

    fn input_raw(&mut self) -> (r: Result<u16, PeripheralError>) {
        self.input.input_raw()
    }

    fn max_value(&self) -> (r: Result<u16, PeripheralError>) {
        self.input.max_value()
    }

    fn input_pct(&mut self) -> (r: Result<i32, PeripheralError>) {
        match self.input.input_pct() {
            Ok(p) => {
                proof {
                    assert(exists|raw: u16| p == old(self).input.pct_of(raw));
                    let raw = choose|raw: u16| p == old(self).input.pct_of(raw);
                    self.input.pct_of_bounded(raw);
                    assert(1000 - p == old(self).pct_of(raw));
                }
                Ok(1000 - p)
            },
            Err(e) => Err(e),
        }
    }
}

/// A PWM output with a latched duty cycle, frequency and output-enable
/// state.
pub trait Pwm: Sized {
    /// Duty cycle currently latched, in percent.
    spec fn duty_spec(&self) -> int;

    /// Output frequency currently latched, in Hz.
    spec fn freq_spec(&self) -> int;

    /// Whether the output stage is enabled.
    spec fn enabled_spec(&self) -> bool;

    /// Set duty cycle in percent.
    fn set_duty_cycle_percent(&mut self, percent: u8) -> (r: Result<(), PeripheralError>)
        requires
            percent <= 100,
        ensures
            r is Ok ==> final(self).duty_spec() == percent && final(self).freq_spec() == old(
                self,
            ).freq_spec() && final(self).enabled_spec() == old(self).enabled_spec(),
    ;

    /// Set PWM frequency in Hz.
    fn set_frequency(&mut self, freq_hz: u32) -> (r: Result<(), PeripheralError>)
        ensures
            r is Ok ==> final(self).freq_spec() == freq_hz && final(self).duty_spec() == old(
                self,
            ).duty_spec() && final(self).enabled_spec() == old(self).enabled_spec(),
    ;

    /// Enable PWM output.
    fn enable(&mut self) -> (r: Result<(), PeripheralError>)
        ensures
            r is Ok ==> final(self).enabled_spec() && final(self).duty_spec() == old(
                self,
            ).duty_spec() && final(self).freq_spec() == old(self).freq_spec(),
    ;

    /// Disable PWM output. The output must physically reach its inactive
    /// level before this returns, whatever result it reports: the duty
    /// cycle is latched to zero and the output stage is disabled.
    fn disable(&mut self) -> (r: Result<(), PeripheralError>)
        ensures
            final(self).duty_spec() == 0,
            !final(self).enabled_spec(),
            final(self).freq_spec() == old(self).freq_spec(),
    ;
}

/// The operation a recorded PWM call performed.
#[derive(Clone, Copy, Debug, PartialEq, Eq, Structural)]
pub enum PwmOp {
    SetDuty,
    SetFrequency,
    Enable,
    Disable,
}

/// One recorded call on a [`PwmModel`], with the duty cycle the timer
/// held when the call arrived.
#[derive(Clone, Copy, Debug, PartialEq, Eq, Structural)]
pub struct PwmEvent {
    pub op: PwmOp,
    pub duty_seen: u8,
}

/// The reference model of the [`Pwm`] contract: a latch holding duty
/// cycle, frequency and enable state, with no hardware underneath. It
/// records every call it receives, so a test can check the order of
/// setup and teardown calls across a mode switch.
#[derive(Clone, Debug)]
pub struct PwmModel {
    pub duty_pct: u8,
    pub freq_hz: u32,
    pub enabled: bool,
    /// Every call received, oldest first.
    pub calls: Vec<PwmEvent>,
}

impl PwmModel {
    pub fn new() -> (m: PwmModel)
        ensures
            m.duty_pct == 0,
            m.freq_hz == 0,
            !m.enabled,
            m.calls@ == Seq::<PwmEvent>::empty(),
    {
        PwmModel { duty_pct: 0, freq_hz: 0, enabled: false, calls: Vec::new() }
    }
}

impl Pwm for PwmModel {
    open spec fn duty_spec(&self) -> int {
        self.duty_pct as int
    }

    open spec fn freq_spec(&self) -> int {
        self.freq_hz as int
    }

    open spec fn enabled_spec(&self) -> bool {
        self.enabled
    }

    fn set_duty_cycle_percent(&mut self, percent: u8) -> (r: Result<(), PeripheralError>)
        ensures
            r is Ok,
            final(self).duty_pct == percent,
            final(self).freq_hz == old(self).freq_hz,
            final(self).enabled == old(self).enabled,
            final(self).calls@ == old(self).calls@.push(
                PwmEvent { op: PwmOp::SetDuty, duty_seen: old(self).duty_pct },
            ),
    {
        self.calls.push(PwmEvent { op: PwmOp::SetDuty, duty_seen: self.duty_pct });
        self.duty_pct = percent;
        Ok(())
    }

    fn set_frequency(&mut self, freq_hz: u32) -> (r: Result<(), PeripheralError>)
        ensures
            r is Ok,
            final(self).freq_hz == freq_hz,
            final(self).duty_pct == old(self).duty_pct,
            final(self).enabled == old(self).enabled,
            final(self).calls@ == old(self).calls@.push(
                PwmEvent { op: PwmOp::SetFrequency, duty_seen: old(self).duty_pct },
            ),
    {
        self.calls.push(PwmEvent { op: PwmOp::SetFrequency, duty_seen: self.duty_pct });
        self.freq_hz = freq_hz;
        Ok(())
    }

    fn enable(&mut self) -> (r: Result<(), PeripheralError>)
        ensures
            r is Ok,
            final(self).enabled,
            final(self).duty_pct == old(self).duty_pct,
            final(self).freq_hz == old(self).freq_hz,
            final(self).calls@ == old(self).calls@.push(
                PwmEvent { op: PwmOp::Enable, duty_seen: old(self).duty_pct },
            ),
    {
        self.calls.push(PwmEvent { op: PwmOp::Enable, duty_seen: self.duty_pct });
        self.enabled = true;
        Ok(())
    }

    fn disable(&mut self) -> (r: Result<(), PeripheralError>)
        ensures
            r is Ok,
            final(self).duty_pct == 0,
            !final(self).enabled,
            final(self).freq_hz == old(self).freq_hz,
            final(self).calls@ == old(self).calls@.push(
                PwmEvent { op: PwmOp::Disable, duty_seen: old(self).duty_pct },
            ),
    {
        self.calls.push(PwmEvent { op: PwmOp::Disable, duty_seen: self.duty_pct });
        self.duty_pct = 0;
        self.enabled = false;
        Ok(())
    }
}

/// An analog channel replaying a fixed list of raw conversions, then
/// holding the last one (an empty list reports a conversion error).
/// The board layers and the tests feed simulated raw sequences through
/// it; it is the library's own implementation of [`AnalogInput`], with
/// the percentage map of a plain channel.
pub struct ReplayInput {
    values: Vec<u16>,
    next: usize,
    max: u16,
}

impl ReplayInput {
    /// The scripted raw conversions.
    pub closed spec fn script(&self) -> Seq<u16> {
        self.values@
    }

    /// How many conversions have been delivered (capped at the script's
    /// length).
    pub closed spec fn position(&self) -> int {
        self.next as int
    }

    /// The conversion the channel delivers next: the script entry at
    /// the current position, or the last entry once the script has run
    /// out.
    pub open spec fn upcoming(&self) -> u16
        recommends
            self.script().len() > 0,
    {
        if self.position() < self.script().len() {
            self.script()[self.position()]
        } else {
            self.script().last()
        }
    }

    /// Creates the channel; a zero maximum is lifted to one, keeping
    /// the channel contract's nonzero full scale.
    pub fn new(values: Vec<u16>, max: u16) -> (r: ReplayInput)
        ensures
            r.inv(),
            r.script() == values@,
            r.position() == 0,
            r.max_spec() == if max == 0 {
                1u16
            } else {
                max
            },
    {
        ReplayInput { values, next: 0, max: if max == 0 { 1 } else { max } }
    }
}

impl AnalogInput for ReplayInput {
    closed spec fn inv(&self) -> bool {
        self.max >= 1
    }

    closed spec fn max_spec(&self) -> u16 {
        self.max
    }

    closed spec fn pct_of(&self, raw: u16) -> int {
        pct_deci_spec(raw as int, self.max as int)
    }

    proof fn max_value_positive(&self) {
    }

    proof fn pct_of_bounded(&self, raw: u16) {
        lemma_div_pos_is_pos(1000 * raw, self.max as int);
        lemma_div_nonincreasing(1000 * raw, self.max as int);
    }

    fn input_raw(&mut self) -> (r: Result<u16, PeripheralError>)
        ensures
            final(self).script() == old(self).script(),
            old(self).script().len() == 0 ==> r == Err::<u16, PeripheralError>(
                PeripheralError::Adc,
            ) && final(self).position() == old(self).position(),
            old(self).script().len() > 0 ==> r == Ok::<u16, PeripheralError>(old(self).upcoming())
                && final(self).position() == if old(self).position() < old(self).script().len() {
                old(self).position() + 1
            } else {
                old(self).position()
            },
    {
        if self.values.len() == 0 {
            return Err(PeripheralError::Adc);
        }
        let i = if self.next < self.values.len() {
            self.next
        } else {
            self.values.len() - 1
        };
        if self.next < self.values.len() {
            self.next += 1;
        }
        Ok(self.values[i])
    }

    fn max_value(&self) -> (r: Result<u16, PeripheralError>)
        ensures
            r == Ok::<u16, PeripheralError>(self.max_spec()),
    {
        Ok(self.max)
    }

    fn input_pct(&mut self) -> (r: Result<i32, PeripheralError>)
        ensures
            final(self).script() == old(self).script(),
            old(self).script().len() == 0 ==> r == Err::<i32, PeripheralError>(
                PeripheralError::Adc,
            ) && final(self).position() == old(self).position(),
            old(self).script().len() > 0 ==> r == Ok::<i32, PeripheralError>(
                pct_deci_spec(old(self).upcoming() as int, old(self).max_spec() as int) as i32,
            ) && final(self).position() == if old(self).position() < old(self).script().len() {
                old(self).position() + 1
            } else {
                old(self).position()
            },
    {
        let raw = match self.input_raw() {
            Ok(raw) => raw,
            Err(e) => {
                return Err(e);
            },
        };
        let p = pct_deci(raw, self.max);
        proof {
            assert(p == old(self).pct_of(raw));
        }
        Ok(p)
    }
}

/// A normalized acceleration vector, components in thousandths of g.
#[derive(Clone, Copy, Debug, PartialEq, Eq, Structural)]
pub struct AccelVec {
    pub x: i32,
    pub y: i32,
    pub z: i32,
}

impl AccelVec {
    /// Components approximate g-force fractions in `[-1, 1]`.
    pub open spec fn wf(self) -> bool {
        &&& -1000 <= self.x <= 1000
        &&& -1000 <= self.y <= 1000
        &&& -1000 <= self.z <= 1000
    }

    pub fn new(x: i32, y: i32, z: i32) -> (v: AccelVec)
        ensures
            v == (AccelVec { x, y, z }),
    {
        AccelVec { x, y, z }
    }
}

/// An accelerometer reporting normalized acceleration.
pub trait AccelerationInput {
    /// Normalized acceleration, components in thousandths of g, each
    /// within `[-1000, 1000]`.
    fn accel_norm(&mut self) -> (r: Result<AccelVec, PeripheralError>)
        ensures
            r matches Ok(v) ==> v.wf(),
    ;
}

/// The bouncing-ball simulation the acceleration mode displays. The
/// integration depends on the wall clock, so it lives with the board
/// layer; the library places the ball wherever the simulation reports,
/// within the stated bound.
pub trait BallDynamics {
    /// Advances the simulation under acceleration `acc` and returns the
    /// ball's offset from the frame center, in pixels.
    fn advance(&mut self, acc: AccelVec) -> (offset: Point)
        ensures
            -4096 <= offset.x <= 4096,
            -4096 <= offset.y <= 4096,
    ;
}

/// The buzzer's tone curve: maps an input percentage (in tenths of a
/// percent) to the tone frequency to drive, in Hz. The hardware build
/// computes a logarithmic interpolation from 10 Hz to 500 Hz in
/// floating point, which Verus refuses, so the curve lives with the
/// board layer as a capability.
pub trait ToneMap {
    /// The tone frequency for an input percentage.
    fn frequency_for(&mut self, deci_pct: i32) -> u32;
}

/// Environment sensors that report temperature, humidity and air
/// pressure; each reading may fail independently.
pub trait EnvironmentSensors {
    /// Current temperature in hundredths of a °C.
    fn get_temperature(&mut self) -> Result<i32, PeripheralError>;

    /// Current relative humidity in hundredths of a percent.
    fn get_humidity(&mut self) -> Result<i32, PeripheralError>;

    /// Current air pressure in tenths of a kPa.
    fn get_pressure(&mut self) -> Result<i32, PeripheralError>;
}

} // verus!
