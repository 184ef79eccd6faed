use sensor_kit::text::fmt_centi;
use sensor_kit::text::fmt_deci;
use sensor_kit::text::fmt_u32;

#[test]
fn plain_integers() {
    assert_eq!(fmt_u32(0), "0");
    assert_eq!(fmt_u32(7), "7");
    assert_eq!(fmt_u32(10), "10");
    assert_eq!(fmt_u32(440), "440");
    assert_eq!(fmt_u32(4294967295), "4294967295");
}

#[test]
fn tenths() {
    assert_eq!(fmt_deci(0), "0.0");
    assert_eq!(fmt_deci(1000), "100.0");
    assert_eq!(fmt_deci(500), "50.0");
    assert_eq!(fmt_deci(244), "24.4");
    assert_eq!(fmt_deci(-35), "-3.5");
    assert_eq!(fmt_deci(i32::MIN), "-214748364.8");
}

#[test]
fn hundredths() {
    assert_eq!(fmt_centi(0), "0.00");
    assert_eq!(fmt_centi(2440), "24.40");
    assert_eq!(fmt_centi(10000), "100.00");
    assert_eq!(fmt_centi(-1234), "-12.34");
    assert_eq!(fmt_centi(5), "0.05");
    assert_eq!(fmt_centi(50), "0.50");
}
