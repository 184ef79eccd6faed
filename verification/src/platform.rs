//! The bundle of peripheral capabilities the application core drives.
//!
//! Each physical resource is owned exactly once and reached only by
//! exclusive borrow, so at any instant a single logical consumer is
//! mid-transaction on it. The potentiometer channel is shared by the
//! potentiometer, LED and buzzer modes, and one PWM timer is shared by
//! the LED and buzzer modes — the sharing the physical board has.

use vstd::prelude::*;

use crate::peripherals::AccelerationInput;
use crate::peripherals::AnalogInput;
use crate::peripherals::BallDynamics;
use crate::peripherals::EnvironmentSensors;
use crate::peripherals::Pwm;
use crate::peripherals::ToneMap;

verus! {

/// The peripherals of the board, one owner per physical resource.
pub struct Platform<POT, SOUND, LIGHT, ENV, ACC, BALL, TONE, PWM> where
    POT: AnalogInput,
    SOUND: AnalogInput,
    LIGHT: AnalogInput,
    ENV: EnvironmentSensors,
    ACC: AccelerationInput,
    BALL: BallDynamics,
    TONE: ToneMap,
    PWM: Pwm,
 {
    /// The potentiometer input (shared by three modes).
    pub pot: POT,
    /// The sound sensor input.
    pub sound: SOUND,
    /// The light sensor input.
    pub light: LIGHT,
    /// The environment sensors.
    pub env: ENV,
    /// The accelerometer.
    pub accel: ACC,
    /// The ball simulation fed by the accelerometer.
    pub ball: BALL,
    /// The buzzer's tone curve.
    pub tone: TONE,
    /// The PWM timer shared by the LED and buzzer modes.
    pub pwm: PWM,
}

impl<POT, SOUND, LIGHT, ENV, ACC, BALL, TONE, PWM> Platform<
    POT,
    SOUND,
    LIGHT,
    ENV,
    ACC,
    BALL,
    TONE,
    PWM,
> where
    POT: AnalogInput,
    SOUND: AnalogInput,
    LIGHT: AnalogInput,
    ENV: EnvironmentSensors,
    ACC: AccelerationInput,
    BALL: BallDynamics,
    TONE: ToneMap,
    PWM: Pwm,
 {
    pub open spec fn wf(self) -> bool {
        self.pot.inv() && self.sound.inv() && self.light.inv()
    }

    pub fn new(
        pot: POT,
        sound: SOUND,
        light: LIGHT,
        env: ENV,
        accel: ACC,
        ball: BALL,
        tone: TONE,
        pwm: PWM,
    ) -> (p: Platform<POT, SOUND, LIGHT, ENV, ACC, BALL, TONE, PWM>)
        ensures
            p.pot == pot,
            p.sound == sound,
            p.light == light,
            p.env == env,
            p.accel == accel,
            p.ball == ball,
            p.tone == tone,
            p.pwm == pwm,
    {
        Platform { pot, sound, light, env, accel, ball, tone, pwm }
    }

    /// Takes the bundle apart again.
    pub fn split(self) -> (parts: (POT, SOUND, LIGHT, ENV, ACC, BALL, TONE, PWM))
        ensures
            parts.0 == self.pot,
            parts.1 == self.sound,
            parts.2 == self.light,
            parts.3 == self.env,
            parts.4 == self.accel,
            parts.5 == self.ball,
            parts.6 == self.tone,
            parts.7 == self.pwm,
    {
        (self.pot, self.sound, self.light, self.env, self.accel, self.ball, self.tone, self.pwm)
    }
}

} // verus!
