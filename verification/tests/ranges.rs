use rusty_meter::device_plugin::{DevicePlugin as OldPlugin, Spm6103Plugin, Xdm1041Plugin};
use rusty_meter::double::Double;
use rusty_meter::multimeter::MeterMode;
use rusty_meter::number::NumberText;
use rusty_meter::plugins::{resolve_plugin, DefaultPlugin, DevicePlugin, SpmPlugin};
use rusty_meter::ranges::{
    find_true, RangeComparison, RangeMatch, RangeScale, Tolerance,
};

const MODES: [MeterMode; 11] = [
    MeterMode::Vdc,
    MeterMode::Vac,
    MeterMode::Adc,
    MeterMode::Aac,
    MeterMode::Res,
    MeterMode::Cap,
    MeterMode::Freq,
    MeterMode::Per,
    MeterMode::Diod,
    MeterMode::Cont,
    MeterMode::Temp,
];

fn value(number: &NumberText) -> f64 {
    number.as_str().parse().unwrap()
}

fn power(exponent: i32) -> f64 {
    match exponent {
        0 => 1.0,
        3 => 1000.0,
        6 => 1_000_000.0,
        -3 => 0.001,
        -6 => 0.000_001,
        -9 => 0.000_000_001,
        _ => unreachable!(),
    }
}

/// Answers the numeric question, if there is one, by floating-point arithmetic.
fn settle(matched: RangeMatch) -> Option<usize> {
    match matched {
        RangeMatch::Settled(found) => found,
        RangeMatch::Numeric(question) => {
            let number = value(&question.number);
            let scaled = number * power(question.scale.exponent(Double { bits: number.to_bits() }));
            let near: Vec<bool> = question
                .candidates
                .iter()
                .map(|(_, candidate)| {
                    let expected = value(candidate);
                    let distance = (scaled - expected).abs();
                    match question.tolerance {
                        Tolerance::OnePercent => distance < expected.abs() * 0.01,
                        Tolerance::OneTenth => distance < 0.1,
                    }
                })
                .collect();
            question.conclude(&near)
        }
    }
}

#[test]
fn xdm_range_values_and_names_read_back() {
    let plugin = DefaultPlugin::new();
    for mode in MODES {
        let Some(info) = plugin.range_info(mode) else {
            assert!(matches!(plugin.parse_range_response("AUTO", mode), RangeMatch::Settled(None)));
            assert!(plugin.range_command(mode, 0).is_none());
            continue;
        };
        for (i, name) in info.ranges.iter().enumerate() {
            assert_eq!(settle(plugin.parse_range_response(name, mode)), Some(i));
            let command = plugin.range_command(mode, i).unwrap();
            let reply = format!("\"{}\"\r\n", command.trim_end().strip_prefix("CONF:").unwrap());
            assert_eq!(settle(plugin.parse_range_response(&reply, mode)), Some(i), "{}", reply);
        }
        assert!(plugin.range_command(mode, info.ranges.len()).is_none());
    }
}

#[test]
fn spm_range_names_read_back_in_any_case() {
    let plugin = SpmPlugin::new();
    for mode in MODES {
        let Some(info) = plugin.range_info(mode) else { continue };
        for (i, name) in info.ranges.iter().enumerate() {
            for reply in [name.to_string(), name.to_uppercase(), format!(" {} ", name.replace('O', " O"))] {
                assert_eq!(settle(plugin.parse_range_response(&reply, mode)), Some(i), "{}", reply);
            }
        }
    }
}

#[test]
fn quoted_replies_name_ranges() {
    let plugin = DefaultPlugin::new();
    let read = |reply: &str, mode| settle(plugin.parse_range_response(reply, mode));
    assert_eq!(read("\"VOLT:DC 5\"", MeterMode::Vdc), Some(3));
    assert_eq!(read("\"VOLT:DC AUTO\"", MeterMode::Vdc), Some(0));
    assert_eq!(read("auto", MeterMode::Vdc), Some(0));
    assert_eq!(read("500e-3", MeterMode::Vac), Some(1));
    assert_eq!(read("K-type (KITS90)", MeterMode::Temp), Some(1));
    assert_eq!(read("\"VOLT:DC 7\"", MeterMode::Vdc), None);
    assert_eq!(read("", MeterMode::Vdc), None);
    assert_eq!(read("AUTO", MeterMode::Adc), None);
}

#[test]
fn valued_replies_name_ranges() {
    let plugin = SpmPlugin::new();
    let read = |reply: &str, mode| settle(plugin.parse_range_response(reply, mode));
    assert_eq!(read("+2.00000000E+00", MeterMode::Vdc), Some(2));
    assert_eq!(read("AUTO", MeterMode::Vdc), Some(0));
    assert_eq!(read("AUTO", MeterMode::Adc), None);
    assert_eq!(read("200 Ohm", MeterMode::Res), Some(1));
    assert_eq!(read("20k Ohm", MeterMode::Res), Some(3));
    assert_eq!(read("2M Ohm", MeterMode::Res), Some(5));
    assert_eq!(read("2", MeterMode::Vdc), Some(2));
    assert_eq!(read("2.05", MeterMode::Vdc), Some(2));
    assert_eq!(read("2.2", MeterMode::Vdc), None);
    assert_eq!(read("199 m", MeterMode::Adc), Some(0));
    assert_eq!(read("190 m", MeterMode::Adc), None);
    assert_eq!(read("10", MeterMode::Aac), Some(1));
    assert_eq!(read("200E-3", MeterMode::Vdc), Some(1));
    assert_eq!(read("junk", MeterMode::Vdc), None);
    assert_eq!(read("2V", MeterMode::Diod), None);
}

#[test]
fn numeric_questions_are_stated_exactly() {
    let plugin = SpmPlugin::new();
    let RangeMatch::Numeric(question) = plugin.parse_range_response("20.1k", MeterMode::Res) else {
        panic!("not numeric")
    };
    assert_eq!(question.number.as_str(), "20.1");
    assert_eq!(question.scale, RangeScale::Kilo);
    assert_eq!(question.tolerance, Tolerance::OnePercent);
    let candidates: Vec<(usize, &str)> =
        question.candidates.iter().map(|(i, n)| (*i, n.as_str())).collect();
    assert_eq!(
        candidates,
        vec![(1, "200"), (2, "2E3"), (3, "20E3"), (4, "200E3"), (5, "2E6"), (6, "20E6"), (7, "100E6")]
    );
    assert_eq!(question.otherwise, None);
    assert_eq!(question.conclude(&vec![false, false, true, false, false, true, false]), Some(3));
    assert_eq!(question.conclude(&vec![false; 7]), None);
}

#[test]
fn numeric_question_falls_back_to_the_value() {
    let question = RangeComparison {
        number: NumberText::parse("5").unwrap(),
        scale: RangeScale::One,
        tolerance: Tolerance::OneTenth,
        candidates: vec![(4, NumberText::parse("7").unwrap())],
        otherwise: Some(2),
    };
    assert_eq!(question.conclude(&vec![true]), Some(4));
    assert_eq!(question.conclude(&vec![false]), Some(2));
}

#[test]
fn scales_are_powers_of_ten() {
    let ten = Double { bits: 10.0f64.to_bits() };
    let nine = Double { bits: 9.99f64.to_bits() };
    assert_eq!(RangeScale::One.exponent(ten), 0);
    assert_eq!(RangeScale::Kilo.exponent(ten), 3);
    assert_eq!(RangeScale::MegaOrMilli.exponent(ten), -3);
    assert_eq!(RangeScale::MegaOrMilli.exponent(nine), 6);
    assert_eq!(RangeScale::Milli.exponent(nine), -3);
    assert_eq!(RangeScale::Micro.exponent(nine), -6);
    assert_eq!(RangeScale::Nano.exponent(nine), -9);
}

#[test]
fn letters_beyond_ascii_end_a_number() {
    let plugin = SpmPlugin::new();
    let RangeMatch::Numeric(question) = plugin.parse_range_response("300Ω", MeterMode::Res) else {
        panic!("not numeric")
    };
    assert_eq!(question.number.as_str(), "300");
    assert_eq!(question.tolerance, Tolerance::OneTenth);
    assert_eq!(settle(RangeMatch::Numeric(question)), None);
    assert_eq!(settle(plugin.parse_range_response("200Ω", MeterMode::Res)), Some(1));
}

#[test]
fn characters_beyond_ascii_are_dropped_before_a_scale() {
    let plugin = SpmPlugin::new();
    assert!(matches!(
        plugin.parse_range_response("20½\u{b0}kΩ", MeterMode::Res),
        RangeMatch::Settled(None)
    ));
    let RangeMatch::Numeric(question) = plugin.parse_range_response("20\u{b0}kΩ", MeterMode::Res) else {
        panic!("not numeric")
    };
    assert_eq!(question.number.as_str(), "20");
    assert_eq!(question.scale, RangeScale::Kilo);
    assert_eq!(settle(RangeMatch::Numeric(question)), Some(3));
}

#[test]
fn first_set_flag_is_found() {
    assert_eq!(find_true(&vec![]), None);
    assert_eq!(find_true(&vec![false, false]), None);
    assert_eq!(find_true(&vec![false, true, true]), Some(1));
}

#[test]
fn matches_stay_in_bounds() {
    for idn in ["OWON,SPM6103,1,FV:V2.1.0", "OWON,XDM1041,1,V4.3.0"] {
        let plugin = resolve_plugin(idn);
        for mode in MODES {
            let n = plugin.range_info(mode).map_or(0, |info| info.ranges.len());
            for reply in ["AUTO", "2", "5", "50", "750V", "10A", "1k", "200m", "", "\"RES 500\"", "x"] {
                if let Some(i) = settle(plugin.parse_range_response(reply, mode)) {
                    assert!(i < n, "{} {:?}", reply, mode);
                }
            }
        }
    }
}

#[test]
fn spm_command_values_read_back() {
    let plugin = SpmPlugin::new();
    for mode in MODES {
        let names = plugin.range_info(mode).map_or(vec![], |info| info.ranges);
        assert!(plugin.range_command(mode, names.len()).is_none());
        for (i, name) in names.iter().enumerate() {
            let command = plugin.range_command(mode, i).unwrap();
            assert!(command.ends_with('\n'));
            if *name != "auto" {
                let word = command.split_whitespace().last().unwrap();
                assert_eq!(settle(plugin.parse_range_response(word, mode)), Some(i), "{}", word);
                assert_eq!(
                    settle(OldPlugin::parse_range_response(&Spm6103Plugin, word, mode)),
                    Some(i)
                );
            }
        }
    }
}

#[test]
fn range_tables_are_in_order() {
    let tables: [&dyn OldPlugin; 2] = [&Xdm1041Plugin, &Spm6103Plugin];
    for model in tables {
        for mode in MODES {
            let info = model.range_info(mode);
            assert_eq!(info.is_some(), model.range_query_command(mode).is_some());
            let ranges = info.map_or(vec![], |info| info.ranges);
            let mut last = f64::NEG_INFINITY;
            for (i, (name, scpi)) in ranges.iter().enumerate() {
                assert_eq!(*name == "auto", *scpi == "AUTO");
                assert!(*name != "auto" || i == 0);
                for (other, other_scpi) in &ranges[..i] {
                    assert!(other != name && other_scpi != scpi);
                }
                if let Ok(v) = scpi.parse::<f64>() {
                    assert!(last < v);
                    last = v;
                }
            }
        }
    }
}
