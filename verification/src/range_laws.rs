//! What holds of ranges and modes across commands and replies: what was selected is what is read
//! back.

use crate::device_plugin::DeviceModel;
use crate::multimeter::MeterMode;
use crate::plugins::family::DeviceFamily;
use crate::ranges::{
    by_lower_name, by_name, by_value, lemma_first_true, lemma_first_true_at, lemma_first_true_none,
    named_range, numeric_ranges, offers_auto, valued_range, Matching,
};
use crate::replies::mode_named;
use crate::tables::{spm6103_table, spm_mode_command, spm_table, xdm_mode_command, xdm_table};
use crate::text::{
    all_ascii, ascii, ascii_lower, ascii_lower_char, begins, ends, eq_ignoring_case, lemma_leading,
    lemma_trailing, lemma_trailing_holds, lower, split, trailing, trim, trim_end, trim_start,
    trimmed, white_space, without_char, words, CharClass,
};
use vstd::prelude::*;

verus! {

// ---------------------------------------------------------------------------------------------
// Bounds
// ---------------------------------------------------------------------------------------------

/// The candidates of a numeric comparison are ranges of the table.
proof fn lemma_candidates_in_bounds(ranges: Seq<(Seq<char>, Seq<char>)>)
    requires
        ranges.len() <= usize::MAX,
    ensures
        forall|k: int|
            0 <= k < numeric_ranges(ranges).len() ==> (#[trigger] numeric_ranges(ranges)[k]).0
                < ranges.len(),
    decreases ranges.len(),
{
    if ranges.len() > 0 {
        lemma_candidates_in_bounds(ranges.drop_last());
        let rest = numeric_ranges(ranges.drop_last());
        assert forall|k: int| 0 <= k < numeric_ranges(ranges).len() implies (
        #[trigger] numeric_ranges(ranges)[k]).0 < ranges.len() by {
            if k < rest.len() {
                assert(numeric_ranges(ranges)[k] == rest[k]);
            }
        }
    }
}

/// Whether an index, if there is one, is that of a range.
pub open spec fn in_bounds(ranges: Seq<(Seq<char>, Seq<char>)>, found: Option<usize>) -> bool {
    found matches Some(i) ==> i < ranges.len()
}

/// Whatever a reply is, the range that it is matched to is one of the table, also where a numeric
/// comparison decides and however it turns out.
pub proof fn law_matches_are_in_bounds(
    ranges: Seq<(Seq<char>, Seq<char>)>,
    reply: Seq<char>,
    near: Seq<bool>,
)
    requires
        ranges.len() <= usize::MAX,
    ensures
        in_bounds(ranges, named_range(ranges, reply)),
        match valued_range(ranges, reply) {
            Matching::Settled(found) => in_bounds(ranges, found),
            Matching::Numeric(comparison) => near.len() == comparison.candidates.len() && near.len()
                <= usize::MAX ==> in_bounds(ranges, comparison.outcome(near)),
        },
{
    let t = trim(trimmed(reply), CharClass::Only('"'));
    let whole = without_char(t, ' ');
    lemma_found_in_bounds(ranges, whole);
    if words(t).len() > 1 {
        lemma_found_in_bounds(ranges, words(t).last());
    }
    let u = trimmed(reply);
    lemma_found_in_bounds(ranges, u);
    lemma_found_in_bounds(ranges, lower(without_char(u, ' ')));
    lemma_candidates_in_bounds(ranges);
    if near.len() <= usize::MAX {
        lemma_first_true(near);
    }
}

/// What a lookup finds is in the table.
proof fn lemma_found_in_bounds(ranges: Seq<(Seq<char>, Seq<char>)>, x: Seq<char>)
    requires
        ranges.len() <= usize::MAX,
    ensures
        in_bounds(ranges, by_value(ranges, x)),
        in_bounds(ranges, by_name(ranges, x)),
        in_bounds(ranges, by_lower_name(ranges, x)),
{
    lemma_first_true(Seq::new(ranges.len(), |i: int| eq_ignoring_case(ranges[i].1, x)));
    lemma_first_true(
        Seq::new(ranges.len(), |i: int| eq_ignoring_case(without_char(ranges[i].0, ' '), x)),
    );
    lemma_first_true(Seq::new(ranges.len(), |i: int| x == lower(ranges[i].0)));
}

// ---------------------------------------------------------------------------------------------
// Texts without spaces
// ---------------------------------------------------------------------------------------------

/// Removing a character that does not occur changes nothing.
pub proof fn lemma_without_absent(s: Seq<char>, c: char)
    requires
        forall|k: int| 0 <= k < s.len() ==> s[k] != c,
    ensures
        without_char(s, c) == s,
    decreases s.len(),
{
    if s.len() > 0 {
        lemma_without_absent(s.drop_last(), c);
        assert(s.drop_last().push(s.last()) =~= s);
    }
}

/// Removing the one occurrence of a character joins what is around it.
pub proof fn lemma_without_one(a: Seq<char>, c: char, b: Seq<char>)
    requires
        forall|k: int| 0 <= k < a.len() ==> a[k] != c,
        forall|k: int| 0 <= k < b.len() ==> b[k] != c,
    ensures
        without_char(a + seq![c] + b, c) == a + b,
    decreases b.len(),
{
    let s = a + seq![c] + b;
    if b.len() == 0 {
        assert(s.drop_last() =~= a);
        lemma_without_absent(a, c);
        assert(a + b =~= a);
    } else {
        lemma_without_one(a, c, b.drop_last());
        assert(s.drop_last() =~= a + seq![c] + b.drop_last());
        assert((a + b.drop_last()).push(b.last()) =~= a + b);
    }
}

/// Whether a text is one word without quotes.
pub open spec fn plain(s: Seq<char>) -> bool {
    s.len() > 0 && forall|k: int|
        0 <= k < s.len() ==> !white_space(#[trigger] s[k]) && s[k] != '"'
}

// ---------------------------------------------------------------------------------------------
// Telling ranges apart
// ---------------------------------------------------------------------------------------------

/// Length and some characters of a text, up to case. Texts that differ in these are different.
spec fn shape(s: Seq<char>) -> (nat, char, char, char, char) {
    let t = ascii_lower(s);
    let n = t.len() as int;
    (t.len(), t[0], t[n - 1], t[n - 2], t[n - 4])
}

/// The shape of a text, read off its characters.
proof fn lemma_shape(s: Seq<char>)
    requires
        s.len() > 0,
    ensures
        shape(s).0 == s.len(),
        shape(s).1 == ascii_lower_char(s[0]),
        shape(s).2 == ascii_lower_char(s[s.len() - 1]),
        s.len() >= 2 ==> shape(s).3 == ascii_lower_char(s[s.len() - 2]),
        s.len() >= 4 ==> shape(s).4 == ascii_lower_char(s[s.len() - 4]),
{
}

/// A display name without its spaces.
pub open spec fn bare_name(range: (Seq<char>, Seq<char>)) -> Seq<char> {
    without_char(range.0, ' ')
}

/// Whether no two ranges can be mistaken for each other, neither by value nor by name, nor the
/// name of one for the value of another.
pub open spec fn unambiguous(ranges: Seq<(Seq<char>, Seq<char>)>) -> bool {
    &&& forall|i: int, j: int|
        0 <= i < j < ranges.len() ==> !eq_ignoring_case(
            (#[trigger] ranges[i]).1,
            (#[trigger] ranges[j]).1,
        )
    &&& forall|i: int, j: int|
        0 <= i < j < ranges.len() ==> !eq_ignoring_case(
            bare_name(#[trigger] ranges[i]),
            bare_name(#[trigger] ranges[j]),
        )
    &&& forall|i: int, j: int|
        0 <= i < ranges.len() && 0 <= j < ranges.len() && i != j ==> !eq_ignoring_case(
            bare_name(#[trigger] ranges[i]),
            (#[trigger] ranges[j]).1,
        )
}

/// Finds a range of an unambiguous table by its value and by its name.
pub proof fn lemma_found(ranges: Seq<(Seq<char>, Seq<char>)>, i: int, x: Seq<char>)
    requires
        ranges.len() <= usize::MAX,
        unambiguous(ranges),
        0 <= i < ranges.len(),
    ensures
        eq_ignoring_case(x, ranges[i].1) ==> by_value(ranges, x) == Some(i as usize),
        eq_ignoring_case(x, bare_name(ranges[i])) ==> by_name(ranges, x) == Some(i as usize)
            && in_bounds(ranges, by_value(ranges, x)) && (by_value(ranges, x) matches Some(k)
            ==> k == i),
{
    let values = Seq::new(ranges.len(), |k: int| eq_ignoring_case(ranges[k].1, x));
    let named = Seq::new(
        ranges.len(),
        |k: int| eq_ignoring_case(without_char(ranges[k].0, ' '), x),
    );
    if eq_ignoring_case(x, ranges[i].1) {
        assert forall|j: int| 0 <= j < i implies !values[j] by {
            assert(!eq_ignoring_case(ranges[j].1, ranges[i].1));
        }
        lemma_first_true_at(values, i);
    }
    if eq_ignoring_case(x, bare_name(ranges[i])) {
        assert forall|j: int| 0 <= j < i implies !named[j] by {
            assert(!eq_ignoring_case(bare_name(ranges[j]), bare_name(ranges[i])));
        }
        lemma_first_true_at(named, i);
        lemma_first_true(values);
        assert forall|j: int| 0 <= j < ranges.len() && j != i implies !values[j] by {
            assert(!eq_ignoring_case(bare_name(ranges[i]), ranges[j].1));
        }
    }
}

// ---------------------------------------------------------------------------------------------
// The tables
// ---------------------------------------------------------------------------------------------

/// No two XDM ranges of a mode can be mistaken for each other.
pub proof fn lemma_xdm_unambiguous(mode: MeterMode)
    ensures
        xdm_table(mode) matches Some(table) ==> unambiguous(table.ranges),
{
    match mode {
        MeterMode::Vdc => lemma_xdm_vdc(),
        MeterMode::Vac => lemma_xdm_vac(),
        MeterMode::Adc | MeterMode::Aac => lemma_xdm_current(),
        MeterMode::Res => lemma_xdm_res(),
        MeterMode::Cap => lemma_xdm_cap(),
        MeterMode::Temp => lemma_xdm_temp(),
        _ => {},
    }
}

/// The XDM ranges for DC voltage are unambiguous.
proof fn lemma_xdm_vdc()
    ensures
        unambiguous(xdm_table(MeterMode::Vdc)->0.ranges),
{
    reveal_strlit("auto");
    reveal_strlit("AUTO");
    reveal_strlit("50mV");
    reveal_strlit("50E-3");
    reveal_strlit("500mV");
    reveal_strlit("500E-3");
    reveal_strlit("5V");
    reveal_strlit("5");
    reveal_strlit("50V");
    reveal_strlit("50");
    reveal_strlit("500V");
    reveal_strlit("500");
    reveal_strlit("1000V");
    reveal_strlit("1000");
    lemma_shape("auto"@);
    lemma_shape("AUTO"@);
    lemma_shape("50mV"@);
    lemma_shape("50E-3"@);
    lemma_shape("500mV"@);
    lemma_shape("500E-3"@);
    lemma_shape("5V"@);
    lemma_shape("5"@);
    lemma_shape("50V"@);
    lemma_shape("50"@);
    lemma_shape("500V"@);
    lemma_shape("500"@);
    lemma_shape("1000V"@);
    lemma_shape("1000"@);
    lemma_without_absent("auto"@, ' ');
    lemma_without_absent("50mV"@, ' ');
    lemma_without_absent("500mV"@, ' ');
    lemma_without_absent("5V"@, ' ');
    lemma_without_absent("50V"@, ' ');
    lemma_without_absent("500V"@, ' ');
    lemma_without_absent("1000V"@, ' ');
}

/// The XDM ranges for AC voltage are unambiguous.
proof fn lemma_xdm_vac()
    ensures
        unambiguous(xdm_table(MeterMode::Vac)->0.ranges),
{
    reveal_strlit("auto");
    reveal_strlit("AUTO");
    reveal_strlit("500mV");
    reveal_strlit("500E-3");
    reveal_strlit("5V");
    reveal_strlit("5");
    reveal_strlit("50V");
    reveal_strlit("50");
    reveal_strlit("500V");
    reveal_strlit("500");
    reveal_strlit("750V");
    reveal_strlit("750");
    lemma_shape("auto"@);
    lemma_shape("AUTO"@);
    lemma_shape("500mV"@);
    lemma_shape("500E-3"@);
    lemma_shape("5V"@);
    lemma_shape("5"@);
    lemma_shape("50V"@);
    lemma_shape("50"@);
    lemma_shape("500V"@);
    lemma_shape("500"@);
    lemma_shape("750V"@);
    lemma_shape("750"@);
    lemma_without_absent("auto"@, ' ');
    lemma_without_absent("500mV"@, ' ');
    lemma_without_absent("5V"@, ' ');
    lemma_without_absent("50V"@, ' ');
    lemma_without_absent("500V"@, ' ');
    lemma_without_absent("750V"@, ' ');
}

/// The XDM ranges for current, DC and AC, are unambiguous.
proof fn lemma_xdm_current()
    ensures
        unambiguous(xdm_table(MeterMode::Adc)->0.ranges),
        unambiguous(xdm_table(MeterMode::Aac)->0.ranges),
{
    reveal_strlit("500uA");
    reveal_strlit("500E-6");
    reveal_strlit("5mA");
    reveal_strlit("5E-3");
    reveal_strlit("50mA");
    reveal_strlit("50E-3");
    reveal_strlit("500mA");
    reveal_strlit("500E-3");
    reveal_strlit("5A");
    reveal_strlit("5");
    reveal_strlit("10A");
    reveal_strlit("10");
    lemma_shape("500uA"@);
    lemma_shape("500E-6"@);
    lemma_shape("5mA"@);
    lemma_shape("5E-3"@);
    lemma_shape("50mA"@);
    lemma_shape("50E-3"@);
    lemma_shape("500mA"@);
    lemma_shape("500E-3"@);
    lemma_shape("5A"@);
    lemma_shape("5"@);
    lemma_shape("10A"@);
    lemma_shape("10"@);
    lemma_without_absent("500uA"@, ' ');
    lemma_without_absent("5mA"@, ' ');
    lemma_without_absent("50mA"@, ' ');
    lemma_without_absent("500mA"@, ' ');
    lemma_without_absent("5A"@, ' ');
    lemma_without_absent("10A"@, ' ');
    assert(xdm_table(MeterMode::Aac)->0.ranges =~= xdm_table(MeterMode::Adc)->0.ranges);
}

/// The XDM ranges for resistance are unambiguous.
proof fn lemma_xdm_res()
    ensures
        unambiguous(xdm_table(MeterMode::Res)->0.ranges),
{
    reveal_strlit("auto");
    reveal_strlit("AUTO");
    reveal_strlit("500Ohm");
    reveal_strlit("500");
    reveal_strlit("5kOhm");
    reveal_strlit("5E3");
    reveal_strlit("50kOhm");
    reveal_strlit("50E3");
    reveal_strlit("500kOhm");
    reveal_strlit("500E3");
    reveal_strlit("5MOhm");
    reveal_strlit("5E6");
    reveal_strlit("50MOhm");
    reveal_strlit("50E6");
    lemma_shape("auto"@);
    lemma_shape("AUTO"@);
    lemma_shape("500Ohm"@);
    lemma_shape("500"@);
    lemma_shape("5kOhm"@);
    lemma_shape("5E3"@);
    lemma_shape("50kOhm"@);
    lemma_shape("50E3"@);
    lemma_shape("500kOhm"@);
    lemma_shape("500E3"@);
    lemma_shape("5MOhm"@);
    lemma_shape("5E6"@);
    lemma_shape("50MOhm"@);
    lemma_shape("50E6"@);
    lemma_without_absent("auto"@, ' ');
    lemma_without_absent("500Ohm"@, ' ');
    lemma_without_absent("5kOhm"@, ' ');
    lemma_without_absent("50kOhm"@, ' ');
    lemma_without_absent("500kOhm"@, ' ');
    lemma_without_absent("5MOhm"@, ' ');
    lemma_without_absent("50MOhm"@, ' ');
}

/// The XDM ranges for capacitance are unambiguous.
proof fn lemma_xdm_cap()
    ensures
        unambiguous(xdm_table(MeterMode::Cap)->0.ranges),
{
    reveal_strlit("auto");
    reveal_strlit("AUTO");
    reveal_strlit("50nF");
    reveal_strlit("50E-9");
    reveal_strlit("500nF");
    reveal_strlit("500E-9");
    reveal_strlit("5uF");
    reveal_strlit("5E-6");
    reveal_strlit("50uF");
    reveal_strlit("50E-6");
    reveal_strlit("500uF");
    reveal_strlit("500E-6");
    reveal_strlit("5mF");
    reveal_strlit("5E-3");
    reveal_strlit("50mF");
    reveal_strlit("50E-3");
    lemma_shape("auto"@);
    lemma_shape("AUTO"@);
    lemma_shape("50nF"@);
    lemma_shape("50E-9"@);
    lemma_shape("500nF"@);
    lemma_shape("500E-9"@);
    lemma_shape("5uF"@);
    lemma_shape("5E-6"@);
    lemma_shape("50uF"@);
    lemma_shape("50E-6"@);
    lemma_shape("500uF"@);
    lemma_shape("500E-6"@);
    lemma_shape("5mF"@);
    lemma_shape("5E-3"@);
    lemma_shape("50mF"@);
    lemma_shape("50E-3"@);
    lemma_without_absent("auto"@, ' ');
    lemma_without_absent("50nF"@, ' ');
    lemma_without_absent("500nF"@, ' ');
    lemma_without_absent("5uF"@, ' ');
    lemma_without_absent("50uF"@, ' ');
    lemma_without_absent("500uF"@, ' ');
    lemma_without_absent("5mF"@, ' ');
    lemma_without_absent("50mF"@, ' ');
}

/// The XDM ranges for temperature are unambiguous.
proof fn lemma_xdm_temp()
    ensures
        unambiguous(xdm_table(MeterMode::Temp)->0.ranges),
{
    reveal_strlit("PT100");
    reveal_strlit("K-type (KITS90)");
    reveal_strlit("KITS90");
    lemma_shape("PT100"@);
    lemma_shape("KITS90"@);
    lemma_without_absent("PT100"@, ' ');
    reveal_strlit("K-type");
    reveal_strlit("(KITS90)");
    lemma_without_one("K-type"@, ' ', "(KITS90)"@);
    assert("K-type (KITS90)"@ =~= "K-type"@ + seq![' '] + "(KITS90)"@);
    lemma_shape("K-type"@ + "(KITS90)"@);
}

/// No two SPM ranges of a mode can be mistaken for each other.
pub proof fn lemma_spm_unambiguous(mode: MeterMode)
    ensures
        spm_table(mode) matches Some(table) ==> unambiguous(table.ranges),
{
    match mode {
        MeterMode::Vdc => lemma_spm_vdc(),
        MeterMode::Vac => lemma_spm_vac(),
        MeterMode::Adc | MeterMode::Aac => lemma_spm_current(),
        MeterMode::Res => lemma_spm_res(),
        MeterMode::Cap => lemma_spm_cap(),
        _ => {},
    }
}

/// The SPM ranges for DC voltage are unambiguous.
proof fn lemma_spm_vdc()
    ensures
        unambiguous(spm_table(MeterMode::Vdc)->0.ranges),
{
    reveal_strlit("auto");
    reveal_strlit("AUTO");
    reveal_strlit("200mV");
    reveal_strlit("200E-3");
    reveal_strlit("2V");
    reveal_strlit("2");
    reveal_strlit("20V");
    reveal_strlit("20");
    reveal_strlit("200V");
    reveal_strlit("200");
    reveal_strlit("1000V");
    reveal_strlit("1000");
    lemma_shape("auto"@);
    lemma_shape("AUTO"@);
    lemma_shape("200mV"@);
    lemma_shape("200E-3"@);
    lemma_shape("2V"@);
    lemma_shape("2"@);
    lemma_shape("20V"@);
    lemma_shape("20"@);
    lemma_shape("200V"@);
    lemma_shape("200"@);
    lemma_shape("1000V"@);
    lemma_shape("1000"@);
    lemma_without_absent("auto"@, ' ');
    lemma_without_absent("200mV"@, ' ');
    lemma_without_absent("2V"@, ' ');
    lemma_without_absent("20V"@, ' ');
    lemma_without_absent("200V"@, ' ');
    lemma_without_absent("1000V"@, ' ');
}

/// The SPM ranges for AC voltage are unambiguous.
proof fn lemma_spm_vac()
    ensures
        unambiguous(spm_table(MeterMode::Vac)->0.ranges),
{
    reveal_strlit("auto");
    reveal_strlit("AUTO");
    reveal_strlit("200mV");
    reveal_strlit("200E-3");
    reveal_strlit("2V");
    reveal_strlit("2");
    reveal_strlit("20V");
    reveal_strlit("20");
    reveal_strlit("200V");
    reveal_strlit("200");
    reveal_strlit("750V");
    reveal_strlit("750");
    lemma_shape("auto"@);
    lemma_shape("AUTO"@);
    lemma_shape("200mV"@);
    lemma_shape("200E-3"@);
    lemma_shape("2V"@);
    lemma_shape("2"@);
    lemma_shape("20V"@);
    lemma_shape("20"@);
    lemma_shape("200V"@);
    lemma_shape("200"@);
    lemma_shape("750V"@);
    lemma_shape("750"@);
    lemma_without_absent("auto"@, ' ');
    lemma_without_absent("200mV"@, ' ');
    lemma_without_absent("2V"@, ' ');
    lemma_without_absent("20V"@, ' ');
    lemma_without_absent("200V"@, ' ');
    lemma_without_absent("750V"@, ' ');
}

/// The SPM ranges for current, DC and AC, are unambiguous.
proof fn lemma_spm_current()
    ensures
        unambiguous(spm_table(MeterMode::Adc)->0.ranges),
        unambiguous(spm_table(MeterMode::Aac)->0.ranges),
{
    reveal_strlit("200mA");
    reveal_strlit("200E-3");
    reveal_strlit("10A");
    reveal_strlit("10");
    lemma_shape("200mA"@);
    lemma_shape("200E-3"@);
    lemma_shape("10A"@);
    lemma_shape("10"@);
    lemma_without_absent("200mA"@, ' ');
    lemma_without_absent("10A"@, ' ');
    assert(spm_table(MeterMode::Aac)->0.ranges =~= spm_table(MeterMode::Adc)->0.ranges);
}

/// The SPM ranges for resistance are unambiguous.
proof fn lemma_spm_res()
    ensures
        unambiguous(spm_table(MeterMode::Res)->0.ranges),
{
    reveal_strlit("auto");
    reveal_strlit("AUTO");
    reveal_strlit("200Ohm");
    reveal_strlit("200");
    reveal_strlit("2kOhm");
    reveal_strlit("2E3");
    reveal_strlit("20kOhm");
    reveal_strlit("20E3");
    reveal_strlit("200kOhm");
    reveal_strlit("200E3");
    reveal_strlit("2MOhm");
    reveal_strlit("2E6");
    reveal_strlit("20MOhm");
    reveal_strlit("20E6");
    reveal_strlit("100MOhm");
    reveal_strlit("100E6");
    lemma_shape("auto"@);
    lemma_shape("AUTO"@);
    lemma_shape("200Ohm"@);
    lemma_shape("200"@);
    lemma_shape("2kOhm"@);
    lemma_shape("2E3"@);
    lemma_shape("20kOhm"@);
    lemma_shape("20E3"@);
    lemma_shape("200kOhm"@);
    lemma_shape("200E3"@);
    lemma_shape("2MOhm"@);
    lemma_shape("2E6"@);
    lemma_shape("20MOhm"@);
    lemma_shape("20E6"@);
    lemma_shape("100MOhm"@);
    lemma_shape("100E6"@);
    lemma_without_absent("auto"@, ' ');
    lemma_without_absent("200Ohm"@, ' ');
    lemma_without_absent("2kOhm"@, ' ');
    lemma_without_absent("20kOhm"@, ' ');
    lemma_without_absent("200kOhm"@, ' ');
    lemma_without_absent("2MOhm"@, ' ');
    lemma_without_absent("20MOhm"@, ' ');
    lemma_without_absent("100MOhm"@, ' ');
}

/// The SPM ranges for capacitance are unambiguous.
proof fn lemma_spm_cap()
    ensures
        unambiguous(spm_table(MeterMode::Cap)->0.ranges),
{
    reveal_strlit("auto");
    reveal_strlit("AUTO");
    lemma_shape("auto"@);
    lemma_shape("AUTO"@);
    lemma_without_absent("auto"@, ' ');
}

/// Whether a lower-case letter begins the name of a function.
pub open spec fn function_initial(c: char) -> bool {
    c == 'v' || c == 'c' || c == 'r' || c == 't'
}

/// Whether every value is one word, and neither a value nor a name begins as a function's name
/// does.
pub open spec fn wordlike(ranges: Seq<(Seq<char>, Seq<char>)>) -> bool {
    forall|i: int|
        0 <= i < ranges.len() ==> {
            &&& plain((#[trigger] ranges[i]).1)
            &&& !function_initial(ascii_lower_char(ranges[i].1[0]))
            &&& bare_name(ranges[i]).len() > 0
            &&& !function_initial(ascii_lower_char(bare_name(ranges[i])[0]))
        }
}

/// The values and names of the XDM ranges.
proof fn lemma_xdm_wordlike(mode: MeterMode)
    ensures
        xdm_table(mode) matches Some(table) ==> wordlike(table.ranges),
{
    match mode {
        MeterMode::Vdc => {
            reveal_strlit("auto");
            reveal_strlit("AUTO");
            reveal_strlit("50mV");
            reveal_strlit("50E-3");
            reveal_strlit("500mV");
            reveal_strlit("500E-3");
            reveal_strlit("5V");
            reveal_strlit("5");
            reveal_strlit("50V");
            reveal_strlit("50");
            reveal_strlit("500V");
            reveal_strlit("500");
            reveal_strlit("1000V");
            reveal_strlit("1000");
            lemma_without_absent("auto"@, ' ');
            lemma_without_absent("50mV"@, ' ');
            lemma_without_absent("500mV"@, ' ');
            lemma_without_absent("5V"@, ' ');
            lemma_without_absent("50V"@, ' ');
            lemma_without_absent("500V"@, ' ');
            lemma_without_absent("1000V"@, ' ');
        },
        MeterMode::Vac => {
            reveal_strlit("auto");
            reveal_strlit("AUTO");
            reveal_strlit("500mV");
            reveal_strlit("500E-3");
            reveal_strlit("5V");
            reveal_strlit("5");
            reveal_strlit("50V");
            reveal_strlit("50");
            reveal_strlit("500V");
            reveal_strlit("500");
            reveal_strlit("750V");
            reveal_strlit("750");
            lemma_without_absent("auto"@, ' ');
            lemma_without_absent("500mV"@, ' ');
            lemma_without_absent("5V"@, ' ');
            lemma_without_absent("50V"@, ' ');
            lemma_without_absent("500V"@, ' ');
            lemma_without_absent("750V"@, ' ');
        },
        MeterMode::Adc | MeterMode::Aac => {
            reveal_strlit("500uA");
            reveal_strlit("500E-6");
            reveal_strlit("5mA");
            reveal_strlit("5E-3");
            reveal_strlit("50mA");
            reveal_strlit("50E-3");
            reveal_strlit("500mA");
            reveal_strlit("500E-3");
            reveal_strlit("5A");
            reveal_strlit("5");
            reveal_strlit("10A");
            reveal_strlit("10");
            lemma_without_absent("500uA"@, ' ');
            lemma_without_absent("5mA"@, ' ');
            lemma_without_absent("50mA"@, ' ');
            lemma_without_absent("500mA"@, ' ');
            lemma_without_absent("5A"@, ' ');
            lemma_without_absent("10A"@, ' ');
        },
        MeterMode::Res => {
            reveal_strlit("auto");
            reveal_strlit("AUTO");
            reveal_strlit("500Ohm");
            reveal_strlit("500");
            reveal_strlit("5kOhm");
            reveal_strlit("5E3");
            reveal_strlit("50kOhm");
            reveal_strlit("50E3");
            reveal_strlit("500kOhm");
            reveal_strlit("500E3");
            reveal_strlit("5MOhm");
            reveal_strlit("5E6");
            reveal_strlit("50MOhm");
            reveal_strlit("50E6");
            lemma_without_absent("auto"@, ' ');
            lemma_without_absent("500Ohm"@, ' ');
            lemma_without_absent("5kOhm"@, ' ');
            lemma_without_absent("50kOhm"@, ' ');
            lemma_without_absent("500kOhm"@, ' ');
            lemma_without_absent("5MOhm"@, ' ');
            lemma_without_absent("50MOhm"@, ' ');
        },
        MeterMode::Cap => {
            reveal_strlit("auto");
            reveal_strlit("AUTO");
            reveal_strlit("50nF");
            reveal_strlit("50E-9");
            reveal_strlit("500nF");
            reveal_strlit("500E-9");
            reveal_strlit("5uF");
            reveal_strlit("5E-6");
            reveal_strlit("50uF");
            reveal_strlit("50E-6");
            reveal_strlit("500uF");
            reveal_strlit("500E-6");
            reveal_strlit("5mF");
            reveal_strlit("5E-3");
            reveal_strlit("50mF");
            reveal_strlit("50E-3");
            lemma_without_absent("auto"@, ' ');
            lemma_without_absent("50nF"@, ' ');
            lemma_without_absent("500nF"@, ' ');
            lemma_without_absent("5uF"@, ' ');
            lemma_without_absent("50uF"@, ' ');
            lemma_without_absent("500uF"@, ' ');
            lemma_without_absent("5mF"@, ' ');
            lemma_without_absent("50mF"@, ' ');
        },
        MeterMode::Temp => {
            reveal_strlit("PT100");
            reveal_strlit("K-type (KITS90)");
            reveal_strlit("KITS90");
            lemma_without_absent("PT100"@, ' ');
            reveal_strlit("K-type");
            reveal_strlit("(KITS90)");
            lemma_without_one("K-type"@, ' ', "(KITS90)"@);
            assert("K-type (KITS90)"@ =~= "K-type"@ + seq![' '] + "(KITS90)"@);
        },
        _ => {},
    }
}

/// The function whose name stands in the command that selects a range.
proof fn lemma_xdm_function(mode: MeterMode, function: Seq<char>)
    requires
        xdm_table(mode) matches Some(table) && table.prefix == "CONF:"@ + function + " "@,
    ensures
        plain(function),
        function_initial(ascii_lower_char(function[0])),
{
    let prefix = (xdm_table(mode)->0).prefix;
    reveal_strlit("CONF:");
    reveal_strlit(" ");
    reveal_strlit("CONF:VOLT:DC ");
    reveal_strlit("CONF:VOLT:AC ");
    reveal_strlit("CONF:CURR:DC ");
    reveal_strlit("CONF:CURR:AC ");
    reveal_strlit("CONF:RES ");
    reveal_strlit("CONF:CAP ");
    reveal_strlit("CONF:TEMP:RTD ");
    assert(function =~= prefix.subrange(5, prefix.len() - 1));
}

// ---------------------------------------------------------------------------------------------
// Ranges of the XDM multimeters
// ---------------------------------------------------------------------------------------------

/// A reply that is, quotes and spaces and case aside, the value or the display name of a range
/// names that range.
pub proof fn law_xdm_reply_names_range(mode: MeterMode, i: int, reply: Seq<char>)
    requires
        xdm_table(mode) matches Some(table) && 0 <= i < table.ranges.len(),
    ensures
        ({
            let ranges = (xdm_table(mode)->0).ranges;
            let whole = without_char(trim(trimmed(reply), CharClass::Only('"')), ' ');
            eq_ignoring_case(whole, ranges[i].1) || eq_ignoring_case(whole, bare_name(ranges[i]))
                ==> named_range(ranges, reply) == Some(i as usize)
        }),
{
    lemma_xdm_unambiguous(mode);
    let ranges = (xdm_table(mode)->0).ranges;
    assert(ranges.len() <= 8);
    let whole = without_char(trim(trimmed(reply), CharClass::Only('"')), ' ');
    lemma_found(ranges, i, whole);
}

/// A text that begins otherwise than every value and name is not found.
proof fn lemma_not_found(ranges: Seq<(Seq<char>, Seq<char>)>, x: Seq<char>)
    requires
        ranges.len() <= usize::MAX,
        wordlike(ranges),
        x.len() > 0,
        function_initial(ascii_lower_char(x[0])),
    ensures
        by_value(ranges, x) is None,
        by_name(ranges, x) is None,
{
    let values = Seq::new(ranges.len(), |k: int| eq_ignoring_case(ranges[k].1, x));
    let named = Seq::new(
        ranges.len(),
        |k: int| eq_ignoring_case(without_char(ranges[k].0, ' '), x),
    );
    assert(ascii_lower(x)[0] == ascii_lower_char(x[0]));
    assert forall|j: int| 0 <= j < ranges.len() implies !values[j] && !named[j] by {
        assert(plain(ranges[j].1));
        assert(ascii_lower(ranges[j].1)[0] == ascii_lower_char(ranges[j].1[0]));
        assert(ascii_lower(bare_name(ranges[j]))[0] == ascii_lower_char(bare_name(ranges[j])[0]));
    }
    lemma_first_true_none(values);
    lemma_first_true_none(named);
}

/// A text that neither begins nor ends in a character of the class is not trimmed.
pub proof fn lemma_untrimmed(s: Seq<char>, class: CharClass)
    requires
        s.len() > 0,
        !class.has(s[0]),
        !class.has(s.last()),
    ensures
        trim(s, class) == s,
{
    lemma_leading(s, class, 0);
    assert(trim_start(s, class) =~= s);
    lemma_trailing(s, class, 0);
    assert(trim_end(s, class) =~= s);
}

/// Quotes around a text are trimmed.
proof fn lemma_unquoted(s: Seq<char>)
    requires
        s.len() > 0,
        s[0] != '"',
        s.last() != '"',
    ensures
        trim(trimmed(seq!['"'] + s + seq!['"']), CharClass::Only('"')) == s,
{
    let q = seq!['"'] + s + seq!['"'];
    let class = CharClass::Only('"');
    lemma_untrimmed(q, CharClass::Space);
    lemma_leading(q, class, 1);
    let t = trim_start(q, class);
    assert(t =~= s + seq!['"']);
    lemma_trailing(t, class, 1);
    assert(trim_end(t, class) =~= s);
}

/// Two words are told apart by the space between them.
proof fn lemma_two_words(a: Seq<char>, b: Seq<char>)
    requires
        plain(a),
        plain(b),
    ensures
        words(a + seq![' '] + b) == seq![a, b],
{
    let s = a + seq![' '] + b;
    let n = a.len();
    assert(s[0] == a[0]);
    lemma_leading(s, CharClass::Space, 0);
    assert(trim_start(s, CharClass::Space) =~= s);
    assert forall|k: int| 0 <= k < n implies CharClass::NotSpace.has(#[trigger] s[k]) by {
        assert(s[k] == a[k]);
    }
    lemma_leading(s, CharClass::NotSpace, n);
    assert(s.take(n as int) =~= a);
    let r = s.skip(n as int);
    assert(r =~= seq![' '] + b);
    assert(r[1] == b[0]);
    lemma_leading(r, CharClass::Space, 1);
    assert(trim_start(r, CharClass::Space) =~= b);
    lemma_leading(b, CharClass::NotSpace, b.len());
    assert(b.take(b.len() as int) =~= b);
    let e = b.skip(b.len() as int);
    assert(e.len() == 0);
    assert(words(e) =~= seq![]);
    assert(words(r) =~= seq![b]);
    assert(words(s) =~= seq![a] + seq![b]);
}

/// A range that was selected is read back: the instrument answers a configuration query with the
/// function and the range's value, in quotes, and that answer names the range.
pub proof fn law_xdm_selection_reads_back(mode: MeterMode, i: int, function: Seq<char>)
    requires
        xdm_table(mode) matches Some(table) && 0 <= i < table.ranges.len() && table.prefix
            == "CONF:"@ + function + " "@,
    ensures
        ({
            let family = DeviceFamily::Default { swap_diod_cont: false };
            let value = (xdm_table(mode)->0).ranges[i].1;
            &&& family.range_command(mode, i) == Some(
                "CONF:"@ + function + " "@ + value + "\n"@,
            )
            &&& family.parse_range_response(
                seq!['"'] + function + seq![' '] + value + seq!['"'],
                mode,
            ) == Matching::Settled(Some(i as usize))
        }),
{
    let ranges = (xdm_table(mode)->0).ranges;
    assert(ranges.len() <= 8);
    let value = ranges[i].1;
    lemma_xdm_unambiguous(mode);
    lemma_xdm_wordlike(mode);
    lemma_xdm_function(mode, function);
    assert(plain(value));
    let t = function + seq![' '] + value;
    assert(t[0] == function[0] && t.last() == value.last());
    lemma_unquoted(t);
    assert(seq!['"'] + t + seq!['"'] =~= seq!['"'] + function + seq![' '] + value + seq!['"']);
    assert(forall|k: int| 0 <= k < function.len() ==> !white_space(#[trigger] function[k]));
    assert(forall|k: int| 0 <= k < value.len() ==> !white_space(#[trigger] value[k]));
    lemma_without_one(function, ' ', value);
    assert((function + value)[0] == function[0]);
    lemma_not_found(ranges, function + value);
    lemma_two_words(function, value);
    assert(seq![function, value].last() == value);
    lemma_found(ranges, i, value);
}

// ---------------------------------------------------------------------------------------------
// Ranges of the SPM power supplies
// ---------------------------------------------------------------------------------------------

/// Whether every display name is one ASCII word.
pub open spec fn ascii_names(ranges: Seq<(Seq<char>, Seq<char>)>) -> bool {
    forall|i: int|
        0 <= i < ranges.len() ==> all_ascii((#[trigger] ranges[i]).0) && bare_name(ranges[i])
            == ranges[i].0
}

/// The names of the SPM ranges.
pub proof fn lemma_spm_names(mode: MeterMode)
    ensures
        spm_table(mode) matches Some(table) ==> ascii_names(table.ranges),
{
    match mode {
        MeterMode::Vdc => {
            reveal_strlit("auto");
            reveal_strlit("200mV");
            reveal_strlit("2V");
            reveal_strlit("20V");
            reveal_strlit("200V");
            reveal_strlit("1000V");
            lemma_without_absent("auto"@, ' ');
            lemma_without_absent("200mV"@, ' ');
            lemma_without_absent("2V"@, ' ');
            lemma_without_absent("20V"@, ' ');
            lemma_without_absent("200V"@, ' ');
            lemma_without_absent("1000V"@, ' ');
        },
        MeterMode::Vac => {
            reveal_strlit("auto");
            reveal_strlit("200mV");
            reveal_strlit("2V");
            reveal_strlit("20V");
            reveal_strlit("200V");
            reveal_strlit("750V");
            lemma_without_absent("auto"@, ' ');
            lemma_without_absent("200mV"@, ' ');
            lemma_without_absent("2V"@, ' ');
            lemma_without_absent("20V"@, ' ');
            lemma_without_absent("200V"@, ' ');
            lemma_without_absent("750V"@, ' ');
        },
        MeterMode::Adc | MeterMode::Aac => {
            reveal_strlit("200mA");
            reveal_strlit("10A");
            lemma_without_absent("200mA"@, ' ');
            lemma_without_absent("10A"@, ' ');
        },
        MeterMode::Res => {
            reveal_strlit("auto");
            reveal_strlit("200Ohm");
            reveal_strlit("2kOhm");
            reveal_strlit("20kOhm");
            reveal_strlit("200kOhm");
            reveal_strlit("2MOhm");
            reveal_strlit("20MOhm");
            reveal_strlit("100MOhm");
            lemma_without_absent("auto"@, ' ');
            lemma_without_absent("200Ohm"@, ' ');
            lemma_without_absent("2kOhm"@, ' ');
            lemma_without_absent("20kOhm"@, ' ');
            lemma_without_absent("200kOhm"@, ' ');
            lemma_without_absent("2MOhm"@, ' ');
            lemma_without_absent("20MOhm"@, ' ');
            lemma_without_absent("100MOhm"@, ' ');
        },
        MeterMode::Cap => {
            reveal_strlit("auto");
            lemma_without_absent("auto"@, ' ');
        },
        _ => {},
    }
}

/// A text that is `AUTO` up to case is all ASCII and has no spaces.
proof fn lemma_auto(t: Seq<char>)
    requires
        eq_ignoring_case(t, "AUTO"@),
    ensures
        lower(without_char(t, ' ')) == ascii_lower("auto"@),
{
    reveal_strlit("AUTO");
    reveal_strlit("auto");
    assert(ascii_lower(t).len() == t.len());
    assert forall|k: int| 0 <= k < t.len() implies ascii(#[trigger] t[k]) && t[k] != ' ' by {
        assert(ascii_lower(t)[k] == ascii_lower_char(t[k]));
        assert(ascii_lower("AUTO"@)[k] == ascii_lower_char("AUTO"@[k]));
    }
    lemma_without_absent(t, ' ');
    assert(ascii_lower("AUTO"@) =~= ascii_lower("auto"@));
}

/// A reply that is, spaces and case aside, the display name of a range names that range.
pub proof fn law_spm_reply_names_range(mode: MeterMode, i: int, reply: Seq<char>)
    requires
        spm_table(mode) matches Some(table) && 0 <= i < table.ranges.len() && lower(
            without_char(trimmed(reply), ' '),
        ) == lower(table.ranges[i].0),
    ensures
        DeviceFamily::Spm.parse_range_response(reply, mode) == Matching::Settled(Some(i as usize)),
{
    let ranges = (spm_table(mode)->0).ranges;
    assert(ranges.len() <= 8);
    lemma_spm_unambiguous(mode);
    lemma_spm_names(mode);
    let t = trimmed(reply);
    let n = lower(without_char(t, ' '));
    assert(all_ascii(ranges[i].0));
    let flags = Seq::new(ranges.len(), |k: int| n == lower(ranges[k].0));
    assert forall|j: int| 0 <= j < i implies !flags[j] by {
        assert(all_ascii(ranges[j].0));
        assert(!eq_ignoring_case(bare_name(ranges[j]), bare_name(ranges[i])));
    }
    lemma_first_true_at(flags, i);
    if eq_ignoring_case(t, "AUTO"@) && offers_auto(ranges) {
        lemma_auto(t);
        assert(all_ascii(ranges[0].0));
        if i > 0 {
            assert(!eq_ignoring_case(bare_name(ranges[0]), bare_name(ranges[i])));
        }
    }
}

/// The SPM6103 has the ranges of its family, under the same names and values; only the commands
/// that turn automatic ranging on and off are spelled differently.
pub proof fn law_spm6103_has_the_spm_ranges(mode: MeterMode)
    ensures
        spm6103_table(mode) is Some == spm_table(mode) is Some,
        spm_table(mode) matches Some(table) ==> (spm6103_table(mode)->0).ranges == table.ranges
            && (spm6103_table(mode)->0).prefix == table.prefix,
{
}

// ---------------------------------------------------------------------------------------------
// Modes
// ---------------------------------------------------------------------------------------------

/// Every command that switches an XDM multimeter to a mode begins with `CONF:`, every one for an SPM
/// power supply with `FUNC:`, and each ends its line.
pub proof fn law_mode_commands_are_uniform(mode: MeterMode, swap_diod_cont: bool)
    ensures
        ({
            let command = (DeviceFamily::Default { swap_diod_cont }).mode_command(mode);
            &&& begins(command, "CONF:"@)
            &&& ends(command, "\n"@)
            &&& DeviceModel::Xdm1041.mode_command(mode) == command
        }),
        ({
            let command = DeviceFamily::Spm.mode_command(mode);
            &&& begins(command, "FUNC:"@)
            &&& ends(command, "\n"@)
            &&& DeviceModel::Spm6103.mode_command(mode) == command
        }),
{
    let xdm = xdm_mode_command(mode);
    assert(begins(xdm, "CONF:"@) && ends(xdm, "\n"@)) by {
        reveal_strlit("CONF:");
        reveal_strlit("\n");
        reveal_strlit("CONF:VOLT:DC AUTO\n");
        reveal_strlit("CONF:VOLT:AC AUTO\n");
        reveal_strlit("CONF:CURR:DC\n");
        reveal_strlit("CONF:CURR:AC\n");
        reveal_strlit("CONF:RES AUTO\n");
        reveal_strlit("CONF:CAP AUTO\n");
        reveal_strlit("CONF:FREQ\n");
        reveal_strlit("CONF:PER\n");
        reveal_strlit("CONF:DIOD\n");
        reveal_strlit("CONF:CONT\n");
        reveal_strlit("CONF:TEMP:RTD PT100\n");
        assert(xdm.subrange(0, 5) =~= "CONF:"@);
        assert(xdm.subrange(xdm.len() - 1, xdm.len() as int) =~= "\n"@);
    }
    let spm = spm_mode_command(mode);
    assert(begins(spm, "FUNC:"@) && ends(spm, "\n"@)) by {
        reveal_strlit("FUNC:");
        reveal_strlit("\n");
        reveal_strlit("FUNC:VOLT:DC\n");
        reveal_strlit("FUNC:VOLT:AC\n");
        reveal_strlit("FUNC:CURR:DC\n");
        reveal_strlit("FUNC:CURR:AC\n");
        reveal_strlit("FUNC:RES\n");
        reveal_strlit("FUNC:CAP\n");
        reveal_strlit("FUNC:FREQ\n");
        reveal_strlit("FUNC:PER\n");
        reveal_strlit("FUNC:DIOD\n");
        reveal_strlit("FUNC:CONT\n");
        reveal_strlit("FUNC:TEMP\n");
        assert(spm.subrange(0, 5) =~= "FUNC:"@);
        assert(spm.subrange(spm.len() - 1, spm.len() as int) =~= "\n"@);
    }
}

/// The first field of a text that begins with a field and a separator.
proof fn lemma_first_field(field: Seq<char>, sep: char, rest: Seq<char>)
    requires
        forall|k: int| 0 <= k < field.len() ==> field[k] != sep,
    ensures
        split(field + seq![sep] + rest, sep).len() >= 2,
        split(field + seq![sep] + rest, sep)[0] == field,
{
    let s = field + seq![sep] + rest;
    let n = field.len();
    assert forall|k: int| 0 <= k < n implies CharClass::Except(sep).has(#[trigger] s[k]) by {
        assert(s[k] == field[k]);
    }
    lemma_leading(s, CharClass::Except(sep), n);
    assert(s.take(n as int) =~= field);
    assert(split(s.skip(n as int + 1), sep).len() >= 1);
}

/// Trimming leaves the beginning of a text alone that ends in no white space.
proof fn lemma_trimmed_beginning(head: Seq<char>, rest: Seq<char>)
    requires
        head.len() > 0,
        !white_space(head[0]),
        !white_space(head.last()),
    ensures
        exists|tail: Seq<char>| trimmed(head + rest) == #[trigger] (head + tail),
{
    let s = head + rest;
    assert(s[0] == head[0]);
    lemma_leading(s, CharClass::Space, 0);
    assert(trim_start(s, CharClass::Space) =~= s);
    lemma_trailing_holds(s, CharClass::Space);
    let m = trailing(s, CharClass::Space) as int;
    if m > rest.len() {
        assert(s[head.len() - 1] == head.last());
        assert(CharClass::Space.has(s[head.len() - 1]));
    }
    let tail = rest.take(rest.len() - m);
    assert(trimmed(s) =~= head + tail);
}

/// A mode that an SPM power supply was put into is the mode that its replies tell: the function in
/// the command is the one that the reply begins with.
pub proof fn law_spm_mode_reads_back(mode: MeterMode, function: Seq<char>, rest: Seq<char>)
    requires
        spm_mode_command(mode) == "FUNC:"@ + function + "\n"@,
    ensures
        mode_named(function, false) == Some(mode),
        DeviceFamily::Spm.parse_measurement(function + seq![','] + rest).mode == Some(mode),
{
    let command = spm_mode_command(mode);
    reveal_strlit("FUNC:");
    reveal_strlit("\n");
    assert(function =~= command.subrange(5, command.len() - 1));
    lemma_spm_function(mode, function);
    let head = function + seq![','];
    assert(head[0] == function[0] && head.last() == ',');
    lemma_trimmed_beginning(head, rest);
    let tail = choose|tail: Seq<char>| trimmed(head + rest) == #[trigger] (head + tail);
    let t = trimmed(function + seq![','] + rest);
    assert(t == function + seq![','] + tail);
    assert(t[function.len() as int] == ',');
    assert(t.contains(','));
    lemma_first_field(function, ',', tail);
    lemma_untrimmed(function, CharClass::Space);
}

/// The function names of the SPM power supplies.
proof fn lemma_spm_function(mode: MeterMode, function: Seq<char>)
    requires
        function == spm_mode_command(mode).subrange(5, spm_mode_command(mode).len() - 1),
    ensures
        mode_named(function, false) == Some(mode),
        plain(function),
        forall|k: int| 0 <= k < function.len() ==> function[k] != ',',
{
    reveal_strlit("VOLT");
    reveal_strlit("VOLT:DC");
    reveal_strlit("VOLT:AC");
    reveal_strlit("CURR");
    reveal_strlit("CURR:DC");
    reveal_strlit("CURR:AC");
    reveal_strlit("RES");
    reveal_strlit("CAP");
    reveal_strlit("FREQ");
    reveal_strlit("PER");
    reveal_strlit("TEMP");
    reveal_strlit("DIOD");
    reveal_strlit("CONT");
    match mode {
        MeterMode::Vdc => {
            reveal_strlit("FUNC:VOLT:DC\n");
            assert(function =~= "VOLT:DC"@);
        },
        MeterMode::Vac => {
            reveal_strlit("FUNC:VOLT:AC\n");
            assert(function =~= "VOLT:AC"@);
            assert(function[5] != "VOLT:DC"@[5]);
        },
        MeterMode::Adc => {
            reveal_strlit("FUNC:CURR:DC\n");
            assert(function =~= "CURR:DC"@);
            assert(function[0] != "VOLT:DC"@[0]);
            assert(function[0] != "VOLT:AC"@[0]);
        },
        MeterMode::Aac => {
            reveal_strlit("FUNC:CURR:AC\n");
            assert(function =~= "CURR:AC"@);
            assert(function[0] != "VOLT:DC"@[0]);
            assert(function[0] != "VOLT:AC"@[0]);
            assert(function[5] != "CURR:DC"@[5]);
        },
        MeterMode::Res => {
            reveal_strlit("FUNC:RES\n");
            assert(function =~= "RES"@);
        },
        MeterMode::Cap => {
            reveal_strlit("FUNC:CAP\n");
            assert(function =~= "CAP"@);
            assert(function[0] != "RES"@[0]);
        },
        MeterMode::Freq => {
            reveal_strlit("FUNC:FREQ\n");
            assert(function =~= "FREQ"@);
            assert(function[0] != "VOLT"@[0]);
            assert(function[0] != "CURR"@[0]);
        },
        MeterMode::Per => {
            reveal_strlit("FUNC:PER\n");
            assert(function =~= "PER"@);
            assert(function[0] != "RES"@[0]);
            assert(function[0] != "CAP"@[0]);
        },
        MeterMode::Diod => {
            reveal_strlit("FUNC:DIOD\n");
            assert(function =~= "DIOD"@);
            assert(function[0] != "VOLT"@[0]);
            assert(function[0] != "CURR"@[0]);
            assert(function[0] != "FREQ"@[0]);
            assert(function[0] != "TEMP"@[0]);
        },
        MeterMode::Cont => {
            reveal_strlit("FUNC:CONT\n");
            assert(function =~= "CONT"@);
            assert(function[0] != "VOLT"@[0]);
            assert(function[1] != "CURR"@[1]);
            assert(function[0] != "FREQ"@[0]);
            assert(function[0] != "TEMP"@[0]);
            assert(function[0] != "DIOD"@[0]);
        },
        MeterMode::Temp => {
            reveal_strlit("FUNC:TEMP\n");
            assert(function =~= "TEMP"@);
            assert(function[0] != "VOLT"@[0]);
            assert(function[0] != "CURR"@[0]);
            assert(function[0] != "FREQ"@[0]);
        },
    }
}

} // verus!
