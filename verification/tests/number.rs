use rusty_meter::number::{count_decimals, is_number_text, parse_u32, render_u32, NumberText};

#[test]
fn number_grammar_agrees_with_std() {
    let pieces = ["", "+", "-", "0", "12", ".", "e", "E", "inf", "NaN", "infinity", " ", "_", "x", "1."];
    for a in pieces {
        for b in pieces {
            for c in pieces {
                for d in ["", "5", "-", "e3", ".5", "E+04"] {
                    let s = format!("{}{}{}{}", a, b, c, d);
                    assert_eq!(is_number_text(&s), s.parse::<f64>().is_ok(), "{:?}", s);
                }
            }
        }
    }
}

#[test]
fn number_text_keeps_the_text() {
    let n = NumberText::parse("+2.00000000E+00").unwrap();
    assert_eq!(n.as_str(), "+2.00000000E+00");
    assert_eq!(n.duplicate().as_str(), n.as_str());
    assert!(NumberText::parse("OL").is_none());
    assert!(NumberText::parse("").is_none());
    assert!(NumberText::parse("1 ").is_none());
    assert_eq!(NumberText::zero().as_str().parse::<f64>(), Ok(0.0));
}

#[test]
fn counts_decimal_places() {
    assert_eq!(count_decimals("+1.234"), 3);
    assert_eq!(count_decimals("+-1.5"), 1);
    assert_eq!(count_decimals("12"), 0);
    assert_eq!(count_decimals("1."), 0);
    assert_eq!(count_decimals("+4.0000E-04"), 4);
    assert_eq!(count_decimals(".25"), 2);
    assert_eq!(count_decimals(""), 0);
    assert_eq!(count_decimals("1.2.34"), 1);
}

#[test]
fn unsigned_integers_agree_with_std() {
    for s in ["", "+", "-", "0", "-0", "+7", "007", "4294967295", "4294967296", "1e3", " 1", "4x", "++1",
        "99999999999999999999"] {
        assert_eq!(parse_u32(s), s.parse::<u32>().ok(), "{:?}", s);
    }
    for n in [0u32, 1, 9, 10, 50, 999, 1000, u32::MAX] {
        assert_eq!(render_u32(n), n.to_string());
    }
}

#[test]
fn rendered_integers_parse_back() {
    for n in [0u32, 7, 10, 4_000_000_000, u32::MAX] {
        assert_eq!(parse_u32(&render_u32(n)), Some(n));
    }
}
