use power_dashboard::fixed::Fixed;
use power_dashboard::format::format_value;

/// Renders a sample and returns the text as a `String`.
fn fmt(neg: bool, centi: u32) -> String {
    String::from_utf8(format_value(Fixed { neg, centi })).unwrap()
}

/// Truncates a measured value toward zero into a `Fixed` sample, the way the
/// control loop converts sensor readings.
fn to_fixed(v: f32) -> Fixed {
    let integer_part = v as i32;
    let decimal_part = ((v - integer_part as f32).abs() * 100.0) as i32;
    Fixed {
        neg: v < 0.0,
        centi: integer_part.unsigned_abs() * 100 + decimal_part as u32,
    }
}

#[test]
fn formats_zero() {
    assert_eq!(fmt(false, 0), "0.00");
}

#[test]
fn formats_small_negative() {
    assert_eq!(fmt(true, 7), "-0.07");
}

#[test]
fn formats_negative_with_trailing_zero() {
    assert_eq!(fmt(true, 350), "-3.50");
}

#[test]
fn formats_typical_values() {
    assert_eq!(fmt(false, 34), "0.34");
    assert_eq!(fmt(true, 50), "-0.50");
    assert_eq!(fmt(false, 1234), "12.34");
    assert_eq!(fmt(false, 500), "5.00");
    assert_eq!(fmt(false, u32::MAX), "42949672.95");
}

#[test]
fn truncates_instead_of_rounding() {
    assert_eq!(String::from_utf8(format_value(to_fixed(1.999))).unwrap(), "1.99");
    assert_eq!(String::from_utf8(format_value(to_fixed(-1.999))).unwrap(), "-1.99");
}

#[test]
fn negative_zero_keeps_its_sign() {
    assert_eq!(String::from_utf8(format_value(to_fixed(-0.001))).unwrap(), "-0.00");
}

#[test]
fn round_trips_within_one_hundredth() {
    for i in -5000..5000 {
        let v = i as f32 * 0.0137;
        let text = String::from_utf8(format_value(to_fixed(v))).unwrap();
        let reparsed: f64 = text.parse().unwrap();
        let err = (v as f64 - reparsed).abs();
        assert!(
            err <= 0.01 + 1e-6,
            "format({v}) = {text} reparses {err} away"
        );
    }
}
