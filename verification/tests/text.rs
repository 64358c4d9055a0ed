use rusty_meter::text;
use rusty_meter::text::CharClass;

#[test]
fn strips_white_space() {
    assert_eq!(text::strip("  a b\r\n"), "a b");
    assert_eq!(text::strip("\u{a0}x\u{2003}"), "x");
    assert_eq!(text::strip(" \t "), "");
    assert_eq!(text::strip(""), "");
}

#[test]
fn white_space_agrees_with_std() {
    for code in 0..=0x11_0000u32 {
        if let Some(c) = char::from_u32(code) {
            assert_eq!(text::is_white_space(c), c.is_whitespace(), "{:?}", c);
        }
    }
}

#[test]
fn letters_agree_with_std() {
    for code in 0..=0x11_0000u32 {
        if let Some(c) = char::from_u32(code) {
            assert_eq!(text::is_letter(c), c.is_alphabetic(), "{:?}", c);
        }
    }
    assert!(text::is_letter('\u{3a9}'));
    assert!(!text::is_letter('\u{b0}'));
}

#[test]
fn number_characters_agree_with_std() {
    for code in 0..=0x11_0000u32 {
        if let Some(c) = char::from_u32(code) {
            assert_eq!(text::is_number_char(c), c.is_numeric(), "{:?}", c);
        }
    }
    assert!(text::is_number_char('\u{bd}'));
    assert!(!text::is_number_char('\u{3a9}'));
}

#[test]
fn lower_case_agrees_with_std() {
    for s in ["20k Ohm", "", "ÄÖ", "2M\u{2126}", "İ", "ΑΣ", "kΩ"] {
        assert_eq!(text::to_lower(s), s.to_lowercase());
    }
    assert_eq!(text::to_lower("2MΩ"), "2mω");
    assert_eq!(text::to_lower("MOhm"), "mohm");
}

#[test]
fn trims_by_class() {
    assert_eq!(text::without_leading("+-+1-", CharClass::Sign), "1-");
    assert_eq!(text::without_trailing("+0.26Ohm", CharClass::Letter), "+0.26");
    assert_eq!(text::without_trailing("5kΩ", CharClass::Letter), "5");
    assert_eq!(text::without_trailing("20½%", CharClass::NotNumberEnd), "20½");
    assert_eq!(text::without_ends("\"\"VOLT\"", CharClass::Only('"')), "VOLT");
    assert_eq!(text::count_leading("12a3", CharClass::Digit), 2);
    assert_eq!(text::count_trailing("12a34", CharClass::Digit), 2);
    assert_eq!(text::count_leading("ab,c", CharClass::Except(',')), 2);
    assert_eq!(text::count_leading("ab c", CharClass::NotSpace), 2);
}

#[test]
fn compares_and_searches() {
    assert!(text::same("a", "a"));
    assert!(!text::same("a", "ab"));
    assert!(text::same_ignoring_case("Auto", "aUTO"));
    assert!(!text::same_ignoring_case("ä", "Ä"));
    assert!(text::contains("MULT:HOLD ON\n", "HOLD"));
    assert!(text::contains("abc", ""));
    assert!(text::contains("", ""));
    assert!(!text::contains("abc", "ca"));
    assert!(text::starts_with("VOLT AC", "VOLT"));
    assert!(!text::starts_with("VO", "VOLT"));
    assert!(text::ends_with("OUTP?\n", "?\n"));
    assert!(!text::ends_with("\n", "?\n"));
    assert!(text::contains_char("a,b", ','));
    assert!(!text::contains_char("ab", ','));
}

#[test]
fn splits_as_std_does() {
    for s in ["", ",", "a", "a,b", ",a,,b,", "OWON,SPM6103,25281747,FV:V2.1.0"] {
        assert_eq!(text::split_at_char(s, ','), s.split(',').collect::<Vec<_>>());
    }
    for s in ["", "  ", "a", " a  b\tc ", "1.0\u{2003}2.0"] {
        assert_eq!(text::split_words(s), s.split_whitespace().collect::<Vec<_>>());
    }
}

#[test]
fn splits_inhabited_lines() {
    assert_eq!(text::split_lines("a\r\n\n  b \n\t\n"), vec!["a", "b"]);
    assert!(text::split_lines(" \n").is_empty());
}

#[test]
fn removes_and_joins() {
    assert_eq!(text::remove_char("20 k  Ohm ", ' '), "20kOhm");
    assert_eq!(text::join("a", "b\n"), "ab\n");
}
