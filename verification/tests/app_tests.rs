use sensor_kit::app::App;
use sensor_kit::app::Phase;
use sensor_kit::app::StepOutcome;
use sensor_kit::display::DisplayList;
use sensor_kit::display::DrawCommand;
use sensor_kit::geometry::Point;
use sensor_kit::geometry::Rect;
use sensor_kit::geometry::Size;
use sensor_kit::mode::buzzer::BuzzerMode;
use sensor_kit::mode::led::LedMode;
use sensor_kit::mode::light::LightSensorMode;
use sensor_kit::mode::potentiometer::PotentiometerMode;
use sensor_kit::mode::sound::SoundMode;
use sensor_kit::mode::Mode;
use sensor_kit::peripherals::AccelVec;
use sensor_kit::peripherals::AccelerationInput;
use sensor_kit::peripherals::BallDynamics;
use sensor_kit::peripherals::EnvironmentSensors;
use sensor_kit::peripherals::PeripheralError;
use sensor_kit::peripherals::PwmModel;
use sensor_kit::peripherals::PwmOp;
use sensor_kit::peripherals::ReplayInput;
use sensor_kit::peripherals::ToneMap;
use sensor_kit::platform::Platform;
use sensor_kit::signal::ButtonSignal;
use sensor_kit::style::AppStyle;
use sensor_kit::style::Color;
use sensor_kit::style::FontMetrics;

struct NoEnv;

impl EnvironmentSensors for NoEnv {
    fn get_temperature(&mut self) -> Result<i32, PeripheralError> {
        Err(PeripheralError::I2c)
    }

    fn get_humidity(&mut self) -> Result<i32, PeripheralError> {
        Err(PeripheralError::I2c)
    }

    fn get_pressure(&mut self) -> Result<i32, PeripheralError> {
        Err(PeripheralError::I2c)
    }
}

struct StillAccel;

impl AccelerationInput for StillAccel {
    fn accel_norm(&mut self) -> Result<AccelVec, PeripheralError> {
        Ok(AccelVec::new(0, 0, 1000))
    }
}

struct NoBall;

impl BallDynamics for NoBall {
    fn advance(&mut self, _acc: AccelVec) -> Point {
        Point::new(0, 0)
    }
}

/// A tone curve double: a fixed tone whatever the input.
struct FixedTone;

impl ToneMap for FixedTone {
    fn frequency_for(&mut self, _deci_pct: i32) -> u32 {
        440
    }
}

fn style() -> AppStyle {
    AppStyle::new(FontMetrics::new(10, 6), FontMetrics::new(8, 5), Color::On)
}

fn screen() -> Rect {
    Rect::new(Point::new(0, 0), Size::new(128, 64))
}

type TestPlatform = Platform<
    ReplayInput,
    ReplayInput,
    ReplayInput,
    NoEnv,
    StillAccel,
    NoBall,
    FixedTone,
    PwmModel,
>;

fn platform(pot: ReplayInput) -> TestPlatform {
    Platform::new(
        pot,
        ReplayInput::new(vec![1400], 2800),
        ReplayInput::new(vec![750], 1500),
        NoEnv,
        StillAccel,
        NoBall,
        FixedTone,
        PwmModel::new(),
    )
}

fn texts(out: &DisplayList) -> Vec<String> {
    out.commands()
        .iter()
        .filter_map(|c| match c {
            DrawCommand::Text { text, .. } => Some(text.clone()),
            _ => None,
        })
        .collect()
}

/// One button press consumed by the core: a switch tick, an exit tick
/// and an enter tick.
fn press_and_switch(
    app: &mut App,
    platform: &mut TestPlatform,
    button: &mut ButtonSignal,
    out: &mut DisplayList,
) {
    let st = style();
    button.post();
    assert_eq!(app.step(platform, button, &st, out), StepOutcome::SwitchPending);
    let leaving = app.active_index();
    assert_eq!(app.step(platform, button, &st, out), StepOutcome::Exited(leaving));
    let entering = app.active_index();
    assert_eq!(app.step(platform, button, &st, out), StepOutcome::Entered(entering));
}

#[test]
fn presses_cycle_through_the_modes_in_order() {
    let modes = vec![
        Mode::Potentiometer(PotentiometerMode::new()),
        Mode::Light(LightSensorMode::new()),
        Mode::Sound(SoundMode::new()),
    ];
    let mut app = App::new(modes, screen());
    let mut pf = platform(ReplayInput::new(vec![2048], 4096));
    let mut button = ButtonSignal::new();
    let mut out = DisplayList::new();
    let st = style();

    assert_eq!(app.active_index(), 0);
    assert_eq!(app.phase(), Phase::Entering);
    assert_eq!(app.step(&mut pf, &mut button, &st, &mut out), StepOutcome::Entered(0));

    // Presses spaced beyond the refractory interval visit 1, 2, 0, 1:
    // in order, never skipping or repeating.
    let mut visited = Vec::new();
    for _ in 0..4 {
        press_and_switch(&mut app, &mut pf, &mut button, &mut out);
        visited.push(app.active_index());
        assert_eq!(app.step(&mut pf, &mut button, &st, &mut out), StepOutcome::Rendered);
    }
    assert_eq!(visited, vec![1, 2, 0, 1]);
}

#[test]
fn rendering_without_a_press_keeps_the_mode() {
    let modes = vec![Mode::Sound(SoundMode::new())];
    let mut app = App::new(modes, screen());
    let mut pf = platform(ReplayInput::new(vec![0], 4096));
    let mut button = ButtonSignal::new();
    let mut out = DisplayList::new();
    let st = style();

    assert_eq!(app.step(&mut pf, &mut button, &st, &mut out), StepOutcome::Entered(0));
    for _ in 0..5 {
        assert_eq!(app.step(&mut pf, &mut button, &st, &mut out), StepOutcome::Rendered);
        assert_eq!(app.active_index(), 0);
        assert_eq!(app.phase(), Phase::Running);
    }
}

#[test]
fn teardown_completes_before_the_next_setup_begins() {
    // A buzzer and an LED share one physical PWM timer. On a switch,
    // the buzzer's teardown (disable) must complete before the LED's
    // setup (set_frequency, enable) begins, and the disable leaves no
    // residual duty cycle for the LED's enable to see.
    let modes = vec![Mode::Buzzer(BuzzerMode::new()), Mode::Led(LedMode::new())];
    let mut app = App::new(modes, screen());
    let mut pf = platform(ReplayInput::new(vec![4000], 4096));
    let mut button = ButtonSignal::new();
    let mut out = DisplayList::new();
    let st = style();

    // Enter the buzzer and run it: it plays at half duty.
    assert_eq!(app.step(&mut pf, &mut button, &st, &mut out), StepOutcome::Entered(0));
    assert_eq!(app.step(&mut pf, &mut button, &st, &mut out), StepOutcome::Rendered);
    assert_eq!(pf.pwm.duty_pct, 50);
    assert!(pf.pwm.enabled);

    pf.pwm.calls.clear();
    press_and_switch(&mut app, &mut pf, &mut button, &mut out);

    let ops: Vec<PwmOp> = pf.pwm.calls.iter().map(|e| e.op).collect();
    // Teardown strictly precedes setup.
    assert_eq!(ops, vec![PwmOp::Disable, PwmOp::SetFrequency, PwmOp::Enable]);
    // The teardown silenced the timer ...
    assert_eq!(pf.pwm.calls[0].duty_seen, 50);
    // ... and the LED's enable observes no residual duty cycle.
    assert_eq!(pf.pwm.calls[2].duty_seen, 0);
    assert_eq!(pf.pwm.duty_pct, 0);
}

#[test]
fn disable_leaves_no_duty_for_the_next_mode() {
    // The LED runs bright, then the mode switches away: by the time
    // anything is enabled again, the duty cycle has been zero.
    let modes = vec![Mode::Led(LedMode::new()), Mode::Buzzer(BuzzerMode::new())];
    let mut app = App::new(modes, screen());
    let mut pf = platform(ReplayInput::new(vec![4000], 4096));
    let mut button = ButtonSignal::new();
    let mut out = DisplayList::new();
    let st = style();

    assert_eq!(app.step(&mut pf, &mut button, &st, &mut out), StepOutcome::Entered(0));
    assert_eq!(app.step(&mut pf, &mut button, &st, &mut out), StepOutcome::Rendered);
    // The LED runs at 4000/4096 of full scale: 97% duty.
    assert_eq!(pf.pwm.duty_pct, 97);

    pf.pwm.calls.clear();
    press_and_switch(&mut app, &mut pf, &mut button, &mut out);
    // The LED's teardown runs first and is the last to see its 97.
    assert_eq!(pf.pwm.calls[0].op, PwmOp::Disable);
    assert_eq!(pf.pwm.calls[0].duty_seen, 97);
    // The buzzer's setup starts from a silent timer: its first write
    // sees duty 0, and its enable sees only its own half duty.
    assert_eq!(pf.pwm.calls[1].op, PwmOp::SetDuty);
    assert_eq!(pf.pwm.calls[1].duty_seen, 0);
    assert_eq!(pf.pwm.calls[2].op, PwmOp::Enable);
    assert_eq!(pf.pwm.calls[2].duty_seen, 50);
    assert_eq!(pf.pwm.duty_pct, 50);
}

#[test]
fn double_press_within_one_tick_switches_once() {
    // Two posts before the core looks collapse to a single switch.
    let modes = vec![
        Mode::Potentiometer(PotentiometerMode::new()),
        Mode::Light(LightSensorMode::new()),
        Mode::Sound(SoundMode::new()),
    ];
    let mut app = App::new(modes, screen());
    let mut pf = platform(ReplayInput::new(vec![2048], 4096));
    let mut button = ButtonSignal::new();
    let mut out = DisplayList::new();
    let st = style();

    assert_eq!(app.step(&mut pf, &mut button, &st, &mut out), StepOutcome::Entered(0));
    button.post();
    button.post();
    assert_eq!(app.step(&mut pf, &mut button, &st, &mut out), StepOutcome::SwitchPending);
    assert_eq!(app.step(&mut pf, &mut button, &st, &mut out), StepOutcome::Exited(0));
    assert_eq!(app.step(&mut pf, &mut button, &st, &mut out), StepOutcome::Entered(1));
    assert_eq!(app.active_index(), 1);
    // No second switch is pending.
    assert_eq!(app.step(&mut pf, &mut button, &st, &mut out), StepOutcome::Rendered);
    assert_eq!(app.active_index(), 1);
}

#[test]
fn simulated_adc_sequence_renders_the_expected_percentages() {
    // Three ticks in the potentiometer mode over the raw sequence
    // [4096, 0, 2048] against a full scale of 4096 read 100.0%, 0.0%
    // and 50.0%.
    let modes = vec![
        Mode::Potentiometer(PotentiometerMode::new()),
        Mode::Light(LightSensorMode::new()),
        Mode::Sound(SoundMode::new()),
    ];
    let mut app = App::new(modes, screen());
    let mut pf = platform(ReplayInput::new(vec![4096, 0, 2048], 4096));
    let mut button = ButtonSignal::new();
    let st = style();

    let mut out = DisplayList::new();
    assert_eq!(app.step(&mut pf, &mut button, &st, &mut out), StepOutcome::Entered(0));
    assert_eq!(out.len(), 0);

    let mut observed = Vec::new();
    for _ in 0..3 {
        let mut frame = DisplayList::new();
        assert_eq!(app.step(&mut pf, &mut button, &st, &mut frame), StepOutcome::Rendered);
        match app.mode_at(0) {
            Mode::Potentiometer(p) => observed.push(p.value_deci_pct),
            m => panic!("unexpected mode {m:?}"),
        }
        // The frame holds the title, the border and the mode content.
        let frame_texts = texts(&frame);
        assert_eq!(frame_texts.len(), 1);
        observed_text_matches(&frame_texts[0], observed.last().unwrap());
    }
    assert_eq!(observed, vec![Some(1000), Some(0), Some(500)]);

    fn observed_text_matches(text: &str, value: &Option<i32>) {
        match value {
            Some(1000) => assert_eq!(text, "100.0%"),
            Some(0) => assert_eq!(text, "0.0%"),
            Some(500) => assert_eq!(text, "50.0%"),
            v => panic!("unexpected value {v:?}"),
        }
    }
}

#[test]
fn rendered_frame_carries_title_and_border() {
    let modes = vec![Mode::Sound(SoundMode::new())];
    let mut app = App::new(modes, screen());
    let mut pf = platform(ReplayInput::new(vec![0], 4096));
    let mut button = ButtonSignal::new();
    let mut out = DisplayList::new();
    let st = style();

    assert_eq!(app.step(&mut pf, &mut button, &st, &mut out), StepOutcome::Entered(0));
    assert_eq!(app.step(&mut pf, &mut button, &st, &mut out), StepOutcome::Rendered);
    let cmds = out.commands();
    // Title centered at the top: "Sound Sensor" is 12 chars of width 6
    // in the title font.
    assert_eq!(
        cmds[0],
        DrawCommand::TitleText { text: "Sound Sensor".to_string(), anchor: Point::new(28, 0) }
    );
    // The border of the content region: the area below the 10-pixel
    // title line, inset by three pixels.
    assert_eq!(
        cmds[1],
        DrawCommand::RectOutline {
            rect: Rect::new(Point::new(3, 13), Size::new(122, 48)),
        }
    );
}
