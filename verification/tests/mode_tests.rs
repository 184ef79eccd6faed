use sensor_kit::display::DisplayList;
use sensor_kit::display::DrawCommand;
use sensor_kit::geometry::Circle;
use sensor_kit::geometry::Point;
use sensor_kit::geometry::Rect;
use sensor_kit::geometry::Size;
use sensor_kit::mode::acceleration::AccelerationMode;
use sensor_kit::mode::buzzer::BuzzerMode;
use sensor_kit::mode::environment::EnvironmentMode;
use sensor_kit::mode::led::LedMode;
use sensor_kit::mode::light::LightSensorMode;
use sensor_kit::mode::potentiometer::PotentiometerMode;
use sensor_kit::mode::sound::SoundMode;
use sensor_kit::mode::Mode;
use sensor_kit::peripherals::AccelVec;
use sensor_kit::peripherals::PeripheralError;
use sensor_kit::peripherals::PwmModel;
use sensor_kit::style::AppStyle;
use sensor_kit::style::Color;
use sensor_kit::style::FontMetrics;

fn style() -> AppStyle {
    AppStyle::new(FontMetrics::new(10, 6), FontMetrics::new(8, 5), Color::On)
}

fn rect(x: i32, y: i32, w: u32, h: u32) -> Rect {
    Rect::new(Point::new(x, y), Size::new(w, h))
}

fn texts(out: &DisplayList) -> Vec<String> {
    out.commands()
        .iter()
        .filter_map(|c| match c {
            DrawCommand::Text { text, .. } => Some(text.clone()),
            _ => None,
        })
        .collect()
}

#[test]
fn titles() {
    assert_eq!(Mode::Environment(EnvironmentMode::new()).title(), "Environment");
    assert_eq!(Mode::Potentiometer(PotentiometerMode::new()).title(), "Potentiometer");
    assert_eq!(Mode::Acceleration(AccelerationMode::new()).title(), "Acceleration");
    assert_eq!(Mode::Light(LightSensorMode::new()).title(), "Light Sensor");
    assert_eq!(Mode::Sound(SoundMode::new()).title(), "Sound Sensor");
    assert_eq!(Mode::Led(LedMode::new()).title(), "Led");
    assert_eq!(Mode::Buzzer(BuzzerMode::new()).title(), "Buzzer");
}

#[test]
fn environment_partial_failure_still_renders_the_table() {
    // Temperature fails, humidity and pressure succeed: the table is
    // drawn in full, with a placeholder only in the temperature cell.
    let mut m = EnvironmentMode::new();
    m.update(Err(PeripheralError::I2c), Ok(5678), Ok(1013));
    assert_eq!(m.temperature_centi, None);
    assert_eq!(m.humidity_centi, Some(5678));
    assert_eq!(m.pressure_deci, Some(1013));

    let mut out = DisplayList::new();
    m.draw_with_style(&style(), rect(0, 0, 120, 60), &mut out);
    assert_eq!(
        texts(&out),
        vec!["Temp.:", "???", "Humidity:", "56.78%", "Pressure:", "101.3kPa"]
    );
}

#[test]
fn environment_row_layout() {
    let mut m = EnvironmentMode::new();
    m.update(Err(PeripheralError::I2c), Ok(5678), Ok(1013));
    let mut out = DisplayList::new();
    m.draw_with_style(&style(), rect(0, 0, 120, 60), &mut out);
    // Three rows of line height 8, two pixels apart, centered in a
    // 60-pixel-tall area: the block starts at y = 16.
    let cmds = out.commands();
    match &cmds[0] {
        DrawCommand::Text { text, anchor } => {
            assert_eq!(text, "Temp.:");
            assert_eq!(*anchor, Point::new(0, 16));
        },
        c => panic!("unexpected command {c:?}"),
    }
    // The value is flush with the right edge: "???" is 3 chars of
    // width 5 in the body font.
    match &cmds[1] {
        DrawCommand::Text { text, anchor } => {
            assert_eq!(text, "???");
            assert_eq!(*anchor, Point::new(120 - 15, 16));
        },
        c => panic!("unexpected command {c:?}"),
    }
    match &cmds[3] {
        DrawCommand::Text { text, anchor } => {
            assert_eq!(text, "56.78%");
            assert_eq!(*anchor, Point::new(120 - 30, 26));
        },
        c => panic!("unexpected command {c:?}"),
    }
}

#[test]
fn potentiometer_renders_text_and_bar() {
    let mut m = PotentiometerMode::new();
    m.update(Ok(500));
    assert_eq!(m.value_deci_pct, Some(500));

    let mut out = DisplayList::new();
    m.draw_with_style(&style(), rect(0, 0, 100, 50), &mut out);
    let cmds = out.commands();
    assert_eq!(cmds.len(), 3);
    assert_eq!(
        cmds[0],
        DrawCommand::Text { text: "50.0%".to_string(), anchor: Point::new(37, 8) }
    );
    assert_eq!(cmds[1], DrawCommand::RectOutline { rect: rect(10, 21, 80, 20) });
    assert_eq!(cmds[2], DrawCommand::RectFill { rect: rect(12, 23, 38, 16) });
}

#[test]
fn potentiometer_failure_shows_placeholder_and_empty_bar() {
    let mut m = PotentiometerMode::new();
    m.update(Ok(500));
    m.update(Err(PeripheralError::Adc));
    assert_eq!(m.value_deci_pct, None);

    let mut out = DisplayList::new();
    m.draw_with_style(&style(), rect(0, 0, 100, 50), &mut out);
    let cmds = out.commands();
    // No fill rectangle at zero percent.
    assert_eq!(cmds.len(), 2);
    assert!(matches!(&cmds[0], DrawCommand::Text { text, .. } if text == "???"));
    assert!(matches!(&cmds[1], DrawCommand::RectOutline { .. }));
}

#[test]
fn light_renders_filled_circle() {
    let mut m = LightSensorMode::new();
    m.update(Ok(1000));
    let mut out = DisplayList::new();
    m.draw_with_style(&style(), rect(0, 0, 64, 64), &mut out);
    let cmds = out.commands();
    assert_eq!(cmds.len(), 2);
    assert_eq!(
        cmds[0],
        DrawCommand::CircleOutline { circle: Circle::new(Point::new(3, 3), 57) }
    );
    // At 100% the inner circle is capped six pixels below the outer
    // diameter and re-centered.
    assert_eq!(
        cmds[1],
        DrawCommand::CircleFill { circle: Circle::new(Point::new(6, 6), 51) }
    );
}

#[test]
fn sound_renders_bar() {
    let mut m = SoundMode::new();
    m.update(Ok(250));
    let mut out = DisplayList::new();
    m.draw_with_style(&style(), rect(0, 0, 100, 100), &mut out);
    let cmds = out.commands();
    assert_eq!(cmds.len(), 2);
    assert_eq!(cmds[0], DrawCommand::RectOutline { rect: rect(5, 5, 90, 90) });
    assert_eq!(cmds[1], DrawCommand::RectFill { rect: rect(7, 7, 21, 86) });
}

#[test]
fn led_drives_duty_from_brightness() {
    let mut m = LedMode::new();
    let mut pwm = PwmModel::new();
    m.update(Ok(750), &mut pwm);
    assert_eq!(m.brightness_deci_pct, Some(750));
    assert_eq!(pwm.duty_pct, 75);

    m.update(Err(PeripheralError::Adc), &mut pwm);
    assert_eq!(m.brightness_deci_pct, None);
    assert_eq!(pwm.duty_pct, 0);

    let mut out = DisplayList::new();
    m.update(Ok(244), &mut pwm);
    m.draw_with_style(&style(), rect(0, 0, 100, 40), &mut out);
    assert_eq!(texts(&out), vec!["24.40%"]);
    assert_eq!(pwm.duty_pct, 24);
}

#[test]
fn led_lifecycle_controls_the_pwm() {
    let mut m = LedMode::new();
    let mut pwm = PwmModel::new();
    m.enter(&mut pwm).unwrap();
    assert!(pwm.enabled);
    assert_eq!(pwm.freq_hz, 10000);
    m.update(Ok(600), &mut pwm);
    assert_eq!(pwm.duty_pct, 60);
    m.exit(&mut pwm).unwrap();
    assert_eq!(pwm.duty_pct, 0);
    assert!(!pwm.enabled);
}

#[test]
fn buzzer_update_and_lifecycle() {
    let mut m = BuzzerMode::new();
    let mut pwm = PwmModel::new();
    // The board's tone curve mapped the reading to 71 Hz.
    m.update(Ok(500), 71, &mut pwm);
    assert_eq!(m.frequency_hz, Some(71));
    assert_eq!(pwm.freq_hz, 71);

    m.exit(&mut pwm).unwrap();
    assert_eq!(pwm.duty_pct, 0);
    assert!(!pwm.enabled);

    // Entering replays the stored tone at half duty.
    m.enter(&mut pwm).unwrap();
    assert!(pwm.enabled);
    assert_eq!(pwm.duty_pct, 50);
    assert_eq!(pwm.freq_hz, 71);
}

#[test]
fn buzzer_failed_reading_shows_unknown_and_leaves_the_output_alone() {
    let mut m = BuzzerMode::new();
    let mut pwm = PwmModel::new();
    m.update(Ok(500), 71, &mut pwm);
    let calls_before = pwm.calls.len();

    m.update(Err(PeripheralError::Adc), 123, &mut pwm);
    assert_eq!(m.frequency_hz, None);
    // The output was not touched: same latch, no new calls.
    assert_eq!(pwm.freq_hz, 71);
    assert_eq!(pwm.calls.len(), calls_before);

    let mut out = DisplayList::new();
    m.draw_with_style(&style(), rect(0, 0, 100, 40), &mut out);
    assert_eq!(texts(&out), vec!["???"]);
}

#[test]
fn acceleration_renders_indicator_and_ball() {
    let mut m = AccelerationMode::new();

    // Nothing is drawn before the first successful reading.
    let mut out = DisplayList::new();
    m.draw_with_style(&style(), rect(0, 0, 100, 100), &mut out);
    assert_eq!(out.commands().len(), 0);

    m.update(Ok(AccelVec::new(1000, 0, 0)), Point::new(3, -2));
    assert_eq!(m.acceleration, Some(AccelVec::new(1000, 0, 0)));
    assert_eq!(m.ball_offset, Point::new(3, -2));

    m.draw_with_style(&style(), rect(0, 0, 100, 100), &mut out);
    let cmds = out.commands();
    assert_eq!(cmds.len(), 4);
    // The direction indicator: frame and the flipped, scaled vector.
    assert_eq!(cmds[0], DrawCommand::RectOutline { rect: rect(-42, 5, 90, 90) });
    assert_eq!(
        cmds[1],
        DrawCommand::Line { start: Point::new(2, 49), end: Point::new(2, 9) }
    );
    // The ball frame and the ball at its center plus the offset.
    assert_eq!(cmds[2], DrawCommand::RectOutline { rect: rect(53, 5, 90, 90) });
    assert_eq!(
        cmds[3],
        DrawCommand::CircleFill { circle: Circle::new(Point::new(98, 45), 5) }
    );
}

#[test]
fn acceleration_failure_keeps_the_ball_put() {
    let mut m = AccelerationMode::new();
    m.update(Ok(AccelVec::new(0, 0, 1000)), Point::new(7, 7));
    m.update(Err(PeripheralError::I2c), Point::new(9, 9));
    assert_eq!(m.acceleration, None);
    assert_eq!(m.ball_offset, Point::new(7, 7));
}
