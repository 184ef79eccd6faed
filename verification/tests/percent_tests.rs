use sensor_kit::peripherals::pct_deci;
use sensor_kit::peripherals::AnalogInput;
use sensor_kit::peripherals::PeripheralError;
use sensor_kit::peripherals::ReplayInput;
use sensor_kit::peripherals::ReversedAnalogInput;

#[test]
fn percent_of_raw_conversions() {
    assert_eq!(pct_deci(0, 4096), 0);
    assert_eq!(pct_deci(4096, 4096), 1000);
    assert_eq!(pct_deci(2048, 4096), 500);
    assert_eq!(pct_deci(1024, 4096), 250);
    assert_eq!(pct_deci(1000, 4096), 244);
    assert_eq!(pct_deci(2800, 2800), 1000);
}

#[test]
fn reversed_is_the_complement_of_the_base() {
    // For every raw value in [0, max], the reversed channel reads the
    // complement of the base channel.
    let max: u16 = 100;
    for raw in 0..=max {
        let mut base = ReplayInput::new(vec![raw], max);
        let mut reversed = ReversedAnalogInput::new(ReplayInput::new(vec![raw], max));
        let b = base.input_pct().unwrap();
        let r = reversed.input_pct().unwrap();
        assert_eq!(r, 1000 - b);
    }
}

#[test]
fn reversed_maps_the_endpoints() {
    let mut reversed = ReversedAnalogInput::new(ReplayInput::new(vec![0, 4096], 4096));
    assert_eq!(reversed.input_pct().unwrap(), 1000);
    assert_eq!(reversed.input_pct().unwrap(), 0);
}

#[test]
fn reversed_forwards_raw_values_and_errors() {
    let mut reversed = ReversedAnalogInput::new(ReplayInput::new(vec![123], 4096));
    assert_eq!(reversed.max_value().unwrap(), 4096);
    assert_eq!(reversed.input_raw().unwrap(), 123);
    // A channel with nothing to convert reports the conversion error.
    let mut failing = ReversedAnalogInput::new(ReplayInput::new(vec![], 4096));
    assert_eq!(failing.input_pct(), Err(PeripheralError::Adc));
}

#[test]
fn error_messages() {
    assert_eq!(PeripheralError::I2c.message(), "Error during I2C transaction");
    assert_eq!(PeripheralError::Adc.message(), "Error during ADC operation");
    assert_eq!(PeripheralError::Pwm.message(), "Error during PWM operation");
}

#[test]
fn replay_holds_the_last_conversion() {
    let mut input = ReplayInput::new(vec![10, 20], 100);
    assert_eq!(input.input_raw().unwrap(), 10);
    assert_eq!(input.input_raw().unwrap(), 20);
    assert_eq!(input.input_raw().unwrap(), 20);
}

#[test]
fn replayed_percentages_follow_the_script_in_order() {
    let mut input = ReplayInput::new(vec![4096, 0, 2048], 4096);
    assert_eq!(input.input_pct().unwrap(), 1000);
    assert_eq!(input.input_pct().unwrap(), 0);
    assert_eq!(input.input_pct().unwrap(), 500);
}
