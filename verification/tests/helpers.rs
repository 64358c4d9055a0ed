use rusty_meter::double::Double;
use rusty_meter::helpers::{
    choose_notation, format_measurement, shown_decimals, usable_precision, DisplayScale,
    MeasurementFormat, Notation,
};
use rusty_meter::multimeter::MeterMode;

fn bits(value: f64) -> Double {
    Double { bits: value.to_bits() }
}

fn shown(value: f64, mode: MeterMode) -> (Option<DisplayScale>, &'static str) {
    match format_measurement(bits(value), &mode) {
        MeasurementFormat::Words(words) => (None, words),
        MeasurementFormat::Number { scale, unit } => (Some(scale), unit),
    }
}

#[test]
fn words_stand_for_what_is_no_number() {
    assert_eq!(shown(f64::NAN, MeterMode::Vdc), (None, "    NaN"));
    assert_eq!(shown(1e9, MeterMode::Diod), (None, "    Open"));
    assert_eq!(shown(1e9, MeterMode::Cont), (None, "      OL"));
    assert_eq!(shown(1e9, MeterMode::Res), (None, "      OL"));
    assert_eq!(shown(1e9, MeterMode::Vdc), (Some(DisplayScale::One), "VDC"));
    assert_eq!(shown(-1e9, MeterMode::Res), (Some(DisplayScale::OverMillion), "MOhm"));
}

#[test]
fn units_follow_the_magnitude() {
    assert_eq!(shown(0.5, MeterMode::Adc), (Some(DisplayScale::TimesThousand), "mADC"));
    assert_eq!(shown(-0.5, MeterMode::Aac), (Some(DisplayScale::TimesThousand), "mAAC"));
    assert_eq!(shown(1.0, MeterMode::Adc), (Some(DisplayScale::One), "ADC"));
    assert_eq!(shown(0.33, MeterMode::Res), (Some(DisplayScale::One), "Ohm"));
    assert_eq!(shown(999.9, MeterMode::Res), (Some(DisplayScale::One), "Ohm"));
    assert_eq!(shown(1000.0, MeterMode::Res), (Some(DisplayScale::OverThousand), "kOhm"));
    assert_eq!(shown(-1e6, MeterMode::Cont), (Some(DisplayScale::OverMillion), "MOhm"));
    assert_eq!(shown(0.001, MeterMode::Cap), (Some(DisplayScale::TimesThousand), "mF"));
    assert_eq!(shown(1e-6, MeterMode::Cap), (Some(DisplayScale::TimesMillion), "μF"));
    assert_eq!(shown(0.0, MeterMode::Cap), (Some(DisplayScale::TimesBillion), "nF"));
    assert_eq!(shown(0.02, MeterMode::Per), (Some(DisplayScale::TimesThousand), "ms"));
    assert_eq!(shown(2.0, MeterMode::Per), (Some(DisplayScale::One), "s"));
    assert_eq!(shown(0.001, MeterMode::Vac), (Some(DisplayScale::One), "VAC"));
    assert_eq!(shown(21.5, MeterMode::Temp), (Some(DisplayScale::One), "°C"));
    assert_eq!(shown(50.0, MeterMode::Freq), (Some(DisplayScale::One), "Hz"));
    assert_eq!(shown(0.6, MeterMode::Diod), (Some(DisplayScale::One), "V"));
}

#[test]
fn notation_follows_thresholds_and_precision() {
    let choose = |v, d| choose_notation(bits(v), bits(1e6), bits(0.0001), d);
    assert_eq!(choose(1e6, Some(2)), Notation::Scientific);
    assert_eq!(choose(-0.00009, None), Notation::Scientific);
    assert_eq!(choose(0.0, None), Notation::Fixed(5));
    assert_eq!(choose(12.5, Some(3)), Notation::Fixed(3));
    assert_eq!(choose(9.9, None), Notation::Fixed(5));
    assert_eq!(choose(-10.0, None), Notation::Fixed(4));
    assert_eq!(choose(100.0, None), Notation::Fixed(3));
    assert_eq!(choose(1000.0, None), Notation::Fixed(2));
}

#[test]
fn precision_counts_if_positive_and_finite() {
    for p in [0.0001, 1.0, 5e-324, f64::MAX] {
        assert!(usable_precision(bits(p)), "{}", p);
    }
    for p in [0.0, -0.0, -1.0, f64::INFINITY, f64::NEG_INFINITY, f64::NAN, -f64::NAN] {
        assert!(!usable_precision(bits(p)), "{}", p);
    }
}

#[test]
fn unusable_precision_counts_as_none() {
    assert_eq!(shown_decimals(Some(bits(0.001)), bits(0.001), 3), Some(3));
    assert_eq!(shown_decimals(Some(bits(100.0)), bits(100.0), -2), Some(0));
    assert_eq!(shown_decimals(Some(bits(1.0)), bits(1.0), 0), Some(0));
    assert_eq!(shown_decimals(None, bits(0.001), 3), None);
    assert_eq!(shown_decimals(Some(bits(1e308)), bits(f64::INFINITY), 0), None);
    for p in [0.0, -1.0, f64::INFINITY, f64::NAN] {
        let decimals = shown_decimals(Some(bits(p)), bits(0.001), 3);
        assert_eq!(decimals, None);
        for v in [0.00001, 0.5, 12.0, 345.0, 2e6] {
            assert_eq!(
                choose_notation(bits(v), bits(1e6), bits(0.0001), decimals),
                choose_notation(bits(v), bits(1e6), bits(0.0001), None)
            );
        }
    }
}
