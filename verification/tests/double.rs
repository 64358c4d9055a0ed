use rusty_meter::double::{
    from_u32, Double, HUNDRED, INFINITY_BITS, KILO, MEGA, MICRO, MILLI, NAN, ONE, OVERLOAD, TEN, ZERO,
};
use rusty_meter::session::{
    PRECISION_DEFAULT, PS_OCP_DEFAULT, PS_OVP_DEFAULT, PS_VOLTAGE_DEFAULT,
};
use rusty_meter::settings::DIOD_THRESHOLD_DEFAULT;

fn double(value: f64) -> Double {
    Double { bits: value.to_bits() }
}

#[test]
fn constants_are_the_doubles_they_name() {
    assert_eq!(ZERO, 0.0f64.to_bits());
    assert_eq!(MICRO, 1e-6f64.to_bits());
    assert_eq!(MILLI, 0.001f64.to_bits());
    assert_eq!(ONE, 1.0f64.to_bits());
    assert_eq!(TEN, 10.0f64.to_bits());
    assert_eq!(HUNDRED, 100.0f64.to_bits());
    assert_eq!(KILO, 1000.0f64.to_bits());
    assert_eq!(MEGA, 1e6f64.to_bits());
    assert_eq!(OVERLOAD, 1e9f64.to_bits());
    assert_eq!(INFINITY_BITS, f64::INFINITY.to_bits());
    assert!(f64::from_bits(NAN).is_nan());
    assert_eq!(PS_VOLTAGE_DEFAULT, 5.0f64.to_bits());
    assert_eq!(PS_OVP_DEFAULT, 32.0f64.to_bits());
    assert_eq!(PS_OCP_DEFAULT, 3.2f64.to_bits());
    assert_eq!(PRECISION_DEFAULT, 0.0001f64.to_bits());
    assert_eq!(DIOD_THRESHOLD_DEFAULT, 2.0f64.to_bits());
}

#[test]
fn order_agrees_with_floating_point() {
    let values = [
        0.0, -0.0, 1.0, -1.0, 1e-300, -1e-300, 5e-324, -5e-324, 2.2e-308, 999.999, 1000.0, 1e9,
        f64::MAX, f64::MIN, f64::INFINITY, f64::NEG_INFINITY, f64::NAN, -f64::NAN,
    ];
    for a in values {
        assert_eq!(double(a).is_nan(), a.is_nan());
        assert_eq!(double(a).is_finite(), a.is_finite());
        assert_eq!(double(a).abs().bits, a.abs().to_bits());
        for b in values {
            assert_eq!(double(a).lt(double(b)), a < b, "{} < {}", a, b);
            assert_eq!(double(a).le(double(b)), a <= b, "{} <= {}", a, b);
            assert_eq!(double(a).same_value(double(b)), a == b, "{} == {}", a, b);
        }
    }
}

#[test]
fn integers_convert_exactly() {
    for n in [0u32, 1, 2, 3, 50, 1000, 65_535, 65_536, 1 << 31, u32::MAX] {
        assert_eq!(from_u32(n).bits, (n as f64).to_bits(), "{}", n);
    }
}
