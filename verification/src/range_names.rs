//! The ranges by their names: each name says how much the range measures, and of what.

use crate::exact::{
    exact, leading_digits, lemma_below, lemma_power_spelling, lemma_short_run,
    lemma_whole_spelling, spells, Exact,
};
use crate::multimeter::MeterMode;
use crate::number::is_number;
use crate::ranges::offers_auto;
use crate::replies::{si_prefix, value_number};
use crate::reply_laws::{law_numerals_are_numbers, law_value_is_number_and_unit, Numeral};
use crate::tables::{spm_table, xdm_table};
use crate::text::{digit, ends, occurs, occurs_at};
use vstd::prelude::*;

verus! {

/// Whether a name is a number and a unit, with the prefix of a power of ten or without, and a value
/// is that number times that power.
#[verifier::opaque]
pub open spec fn denotes(name: Seq<char>, value: Seq<char>, unit: Seq<char>) -> bool {
    let number = value_number(name);
    let rest = name.skip(number.len() as int);
    &&& is_number(number)
    &&& is_number(value)
    &&& ends(rest, unit)
    &&& rest.len() <= unit.len() + 1
    &&& exact(value) == (Exact {
        mantissa: exact(number).mantissa,
        power: exact(number).power + si_prefix(rest).power(),
    })
}

/// Whether one value is larger than another, but not more than ten times as large.
#[verifier::opaque]
pub open spec fn next_after(value: Seq<char>, other: Seq<char>) -> bool {
    let a = exact(value);
    let b = exact(other);
    &&& is_number(value)
    &&& is_number(other)
    &&& a.below(b)
    &&& !(Exact { mantissa: 10 * a.mantissa, power: a.power }).below(b)
}

/// What a name made of digits and letters denotes.
proof fn lemma_denotes(name: Seq<char>, k: int, value: Seq<char>, unit: Seq<char>, p: int)
    requires
        1 <= k <= 4,
        k < name.len(),
        forall|i: int| 0 <= i < k ==> digit(#[trigger] name[i]),
        forall|i: int|
            k <= i < name.len() ==> 'a' <= #[trigger] name[i] <= 'z' || 'A' <= name[i] <= 'Z',
        spells(value, Exact { mantissa: leading_digits(name, k), power: p }),
        si_prefix(name.skip(k)).power() == p,
        ends(name.skip(k), unit),
        name.len() - k <= unit.len() + 1,
    ensures
        denotes(name, value, unit),
{
    reveal(denotes);
    let none = Seq::<char>::empty();
    let n = Numeral { sign: none, whole: name.take(k), places: none };
    let rest = name.skip(k);
    assert(n.text() =~= name.take(k));
    assert forall|i: int| 0 <= i < k implies digit(#[trigger] n.whole[i]) by {
        assert(n.whole[i] == name[i]);
    }
    assert forall|i: int| 0 <= i < rest.len() implies 'a' <= #[trigger] rest[i] <= 'z' || 'A'
        <= rest[i] <= 'Z' by {
        assert(rest[i] == name[i + k]);
    }
    law_numerals_are_numbers(n);
    law_value_is_number_and_unit(n, none, rest);
    assert(n.text() + none + rest =~= name);
    assert(n.whole + n.places =~= n.whole);
    lemma_short_run(n.whole);
    assert(n.sign != seq!['-']) by {
        assert(seq!['-'].len() == 1);
    }
}

/// The range `500uA`.
proof fn lemma_microampere_500()
    ensures
        denotes("500uA"@, "500E-6"@, "A"@),
{
    reveal_strlit("500uA");
    reveal_strlit("500E-6");
    reveal_strlit("A");
    lemma_power_spelling("500E-6"@, 3);
    let rest = "500uA"@.skip(3);
    assert(rest.subrange(rest.len() - 1, rest.len() as int) =~= "A"@);
    lemma_denotes("500uA"@, 3, "500E-6"@, "A"@, -6);
}

/// The range `5mA`.
proof fn lemma_milliampere_5()
    ensures
        denotes("5mA"@, "5E-3"@, "A"@),
{
    reveal_strlit("5mA");
    reveal_strlit("5E-3");
    reveal_strlit("A");
    lemma_power_spelling("5E-3"@, 1);
    let rest = "5mA"@.skip(1);
    assert(rest.subrange(rest.len() - 1, rest.len() as int) =~= "A"@);
    lemma_denotes("5mA"@, 1, "5E-3"@, "A"@, -3);
}

/// The range `50mA`.
proof fn lemma_milliampere_50()
    ensures
        denotes("50mA"@, "50E-3"@, "A"@),
{
    reveal_strlit("50mA");
    reveal_strlit("50E-3");
    reveal_strlit("A");
    lemma_power_spelling("50E-3"@, 2);
    let rest = "50mA"@.skip(2);
    assert(rest.subrange(rest.len() - 1, rest.len() as int) =~= "A"@);
    lemma_denotes("50mA"@, 2, "50E-3"@, "A"@, -3);
}

/// The range `200mA`.
proof fn lemma_milliampere_200()
    ensures
        denotes("200mA"@, "200E-3"@, "A"@),
{
    reveal_strlit("200mA");
    reveal_strlit("200E-3");
    reveal_strlit("A");
    lemma_power_spelling("200E-3"@, 3);
    let rest = "200mA"@.skip(3);
    assert(rest.subrange(rest.len() - 1, rest.len() as int) =~= "A"@);
    lemma_denotes("200mA"@, 3, "200E-3"@, "A"@, -3);
}

/// The range `500mA`.
proof fn lemma_milliampere_500()
    ensures
        denotes("500mA"@, "500E-3"@, "A"@),
{
    reveal_strlit("500mA");
    reveal_strlit("500E-3");
    reveal_strlit("A");
    lemma_power_spelling("500E-3"@, 3);
    let rest = "500mA"@.skip(3);
    assert(rest.subrange(rest.len() - 1, rest.len() as int) =~= "A"@);
    lemma_denotes("500mA"@, 3, "500E-3"@, "A"@, -3);
}

/// The range `5A`.
proof fn lemma_ampere_5()
    ensures
        denotes("5A"@, "5"@, "A"@),
{
    reveal_strlit("5A");
    reveal_strlit("5");
    reveal_strlit("A");
    lemma_whole_spelling("5"@);
    let rest = "5A"@.skip(1);
    assert(rest.subrange(rest.len() - 1, rest.len() as int) =~= "A"@);
    lemma_denotes("5A"@, 1, "5"@, "A"@, 0);
}

/// The range `10A`.
proof fn lemma_ampere_10()
    ensures
        denotes("10A"@, "10"@, "A"@),
{
    reveal_strlit("10A");
    reveal_strlit("10");
    reveal_strlit("A");
    lemma_whole_spelling("10"@);
    let rest = "10A"@.skip(2);
    assert(rest.subrange(rest.len() - 1, rest.len() as int) =~= "A"@);
    lemma_denotes("10A"@, 2, "10"@, "A"@, 0);
}

/// The range `50nF`.
proof fn lemma_nanofarad_50()
    ensures
        denotes("50nF"@, "50E-9"@, "F"@),
{
    reveal_strlit("50nF");
    reveal_strlit("50E-9");
    reveal_strlit("F");
    lemma_power_spelling("50E-9"@, 2);
    let rest = "50nF"@.skip(2);
    assert(rest.subrange(rest.len() - 1, rest.len() as int) =~= "F"@);
    lemma_denotes("50nF"@, 2, "50E-9"@, "F"@, -9);
}

/// The range `500nF`.
proof fn lemma_nanofarad_500()
    ensures
        denotes("500nF"@, "500E-9"@, "F"@),
{
    reveal_strlit("500nF");
    reveal_strlit("500E-9");
    reveal_strlit("F");
    lemma_power_spelling("500E-9"@, 3);
    let rest = "500nF"@.skip(3);
    assert(rest.subrange(rest.len() - 1, rest.len() as int) =~= "F"@);
    lemma_denotes("500nF"@, 3, "500E-9"@, "F"@, -9);
}

/// The range `5uF`.
proof fn lemma_microfarad_5()
    ensures
        denotes("5uF"@, "5E-6"@, "F"@),
{
    reveal_strlit("5uF");
    reveal_strlit("5E-6");
    reveal_strlit("F");
    lemma_power_spelling("5E-6"@, 1);
    let rest = "5uF"@.skip(1);
    assert(rest.subrange(rest.len() - 1, rest.len() as int) =~= "F"@);
    lemma_denotes("5uF"@, 1, "5E-6"@, "F"@, -6);
}

/// The range `50uF`.
proof fn lemma_microfarad_50()
    ensures
        denotes("50uF"@, "50E-6"@, "F"@),
{
    reveal_strlit("50uF");
    reveal_strlit("50E-6");
    reveal_strlit("F");
    lemma_power_spelling("50E-6"@, 2);
    let rest = "50uF"@.skip(2);
    assert(rest.subrange(rest.len() - 1, rest.len() as int) =~= "F"@);
    lemma_denotes("50uF"@, 2, "50E-6"@, "F"@, -6);
}

/// The range `500uF`.
proof fn lemma_microfarad_500()
    ensures
        denotes("500uF"@, "500E-6"@, "F"@),
{
    reveal_strlit("500uF");
    reveal_strlit("500E-6");
    reveal_strlit("F");
    lemma_power_spelling("500E-6"@, 3);
    let rest = "500uF"@.skip(3);
    assert(rest.subrange(rest.len() - 1, rest.len() as int) =~= "F"@);
    lemma_denotes("500uF"@, 3, "500E-6"@, "F"@, -6);
}

/// The range `5mF`.
proof fn lemma_millifarad_5()
    ensures
        denotes("5mF"@, "5E-3"@, "F"@),
{
    reveal_strlit("5mF");
    reveal_strlit("5E-3");
    reveal_strlit("F");
    lemma_power_spelling("5E-3"@, 1);
    let rest = "5mF"@.skip(1);
    assert(rest.subrange(rest.len() - 1, rest.len() as int) =~= "F"@);
    lemma_denotes("5mF"@, 1, "5E-3"@, "F"@, -3);
}

/// The range `50mF`.
proof fn lemma_millifarad_50()
    ensures
        denotes("50mF"@, "50E-3"@, "F"@),
{
    reveal_strlit("50mF");
    reveal_strlit("50E-3");
    reveal_strlit("F");
    lemma_power_spelling("50E-3"@, 2);
    let rest = "50mF"@.skip(2);
    assert(rest.subrange(rest.len() - 1, rest.len() as int) =~= "F"@);
    lemma_denotes("50mF"@, 2, "50E-3"@, "F"@, -3);
}

/// The range `200Ohm`.
proof fn lemma_ohm_200()
    ensures
        denotes("200Ohm"@, "200"@, "Ohm"@),
{
    reveal_strlit("200Ohm");
    reveal_strlit("200");
    reveal_strlit("Ohm");
    lemma_whole_spelling("200"@);
    let rest = "200Ohm"@.skip(3);
    assert(rest.subrange(rest.len() - 3, rest.len() as int) =~= "Ohm"@);
    lemma_denotes("200Ohm"@, 3, "200"@, "Ohm"@, 0);
}

/// The range `500Ohm`.
proof fn lemma_ohm_500()
    ensures
        denotes("500Ohm"@, "500"@, "Ohm"@),
{
    reveal_strlit("500Ohm");
    reveal_strlit("500");
    reveal_strlit("Ohm");
    lemma_whole_spelling("500"@);
    let rest = "500Ohm"@.skip(3);
    assert(rest.subrange(rest.len() - 3, rest.len() as int) =~= "Ohm"@);
    lemma_denotes("500Ohm"@, 3, "500"@, "Ohm"@, 0);
}

/// The range `2kOhm`.
proof fn lemma_kilohm_2()
    ensures
        denotes("2kOhm"@, "2E3"@, "Ohm"@),
{
    reveal_strlit("2kOhm");
    reveal_strlit("2E3");
    reveal_strlit("Ohm");
    lemma_power_spelling("2E3"@, 1);
    let rest = "2kOhm"@.skip(1);
    assert(rest.subrange(rest.len() - 3, rest.len() as int) =~= "Ohm"@);
    lemma_denotes("2kOhm"@, 1, "2E3"@, "Ohm"@, 3);
}

/// The range `5kOhm`.
proof fn lemma_kilohm_5()
    ensures
        denotes("5kOhm"@, "5E3"@, "Ohm"@),
{
    reveal_strlit("5kOhm");
    reveal_strlit("5E3");
    reveal_strlit("Ohm");
    lemma_power_spelling("5E3"@, 1);
    let rest = "5kOhm"@.skip(1);
    assert(rest.subrange(rest.len() - 3, rest.len() as int) =~= "Ohm"@);
    lemma_denotes("5kOhm"@, 1, "5E3"@, "Ohm"@, 3);
}

/// The range `20kOhm`.
proof fn lemma_kilohm_20()
    ensures
        denotes("20kOhm"@, "20E3"@, "Ohm"@),
{
    reveal_strlit("20kOhm");
    reveal_strlit("20E3");
    reveal_strlit("Ohm");
    lemma_power_spelling("20E3"@, 2);
    let rest = "20kOhm"@.skip(2);
    assert(rest.subrange(rest.len() - 3, rest.len() as int) =~= "Ohm"@);
    lemma_denotes("20kOhm"@, 2, "20E3"@, "Ohm"@, 3);
}

/// The range `50kOhm`.
proof fn lemma_kilohm_50()
    ensures
        denotes("50kOhm"@, "50E3"@, "Ohm"@),
{
    reveal_strlit("50kOhm");
    reveal_strlit("50E3");
    reveal_strlit("Ohm");
    lemma_power_spelling("50E3"@, 2);
    let rest = "50kOhm"@.skip(2);
    assert(rest.subrange(rest.len() - 3, rest.len() as int) =~= "Ohm"@);
    lemma_denotes("50kOhm"@, 2, "50E3"@, "Ohm"@, 3);
}

/// The range `200kOhm`.
proof fn lemma_kilohm_200()
    ensures
        denotes("200kOhm"@, "200E3"@, "Ohm"@),
{
    reveal_strlit("200kOhm");
    reveal_strlit("200E3");
    reveal_strlit("Ohm");
    lemma_power_spelling("200E3"@, 3);
    let rest = "200kOhm"@.skip(3);
    assert(rest.subrange(rest.len() - 3, rest.len() as int) =~= "Ohm"@);
    lemma_denotes("200kOhm"@, 3, "200E3"@, "Ohm"@, 3);
}

/// The range `500kOhm`.
proof fn lemma_kilohm_500()
    ensures
        denotes("500kOhm"@, "500E3"@, "Ohm"@),
{
    reveal_strlit("500kOhm");
    reveal_strlit("500E3");
    reveal_strlit("Ohm");
    lemma_power_spelling("500E3"@, 3);
    let rest = "500kOhm"@.skip(3);
    assert(rest.subrange(rest.len() - 3, rest.len() as int) =~= "Ohm"@);
    lemma_denotes("500kOhm"@, 3, "500E3"@, "Ohm"@, 3);
}

/// The range `2MOhm`.
proof fn lemma_megohm_2()
    ensures
        denotes("2MOhm"@, "2E6"@, "Ohm"@),
{
    reveal_strlit("2MOhm");
    reveal_strlit("2E6");
    reveal_strlit("Ohm");
    lemma_power_spelling("2E6"@, 1);
    let rest = "2MOhm"@.skip(1);
    assert(rest.subrange(rest.len() - 3, rest.len() as int) =~= "Ohm"@);
    lemma_denotes("2MOhm"@, 1, "2E6"@, "Ohm"@, 6);
}

/// The range `5MOhm`.
proof fn lemma_megohm_5()
    ensures
        denotes("5MOhm"@, "5E6"@, "Ohm"@),
{
    reveal_strlit("5MOhm");
    reveal_strlit("5E6");
    reveal_strlit("Ohm");
    lemma_power_spelling("5E6"@, 1);
    let rest = "5MOhm"@.skip(1);
    assert(rest.subrange(rest.len() - 3, rest.len() as int) =~= "Ohm"@);
    lemma_denotes("5MOhm"@, 1, "5E6"@, "Ohm"@, 6);
}

/// The range `20MOhm`.
proof fn lemma_megohm_20()
    ensures
        denotes("20MOhm"@, "20E6"@, "Ohm"@),
{
    reveal_strlit("20MOhm");
    reveal_strlit("20E6");
    reveal_strlit("Ohm");
    lemma_power_spelling("20E6"@, 2);
    let rest = "20MOhm"@.skip(2);
    assert(rest.subrange(rest.len() - 3, rest.len() as int) =~= "Ohm"@);
    lemma_denotes("20MOhm"@, 2, "20E6"@, "Ohm"@, 6);
}

/// The range `50MOhm`.
proof fn lemma_megohm_50()
    ensures
        denotes("50MOhm"@, "50E6"@, "Ohm"@),
{
    reveal_strlit("50MOhm");
    reveal_strlit("50E6");
    reveal_strlit("Ohm");
    lemma_power_spelling("50E6"@, 2);
    let rest = "50MOhm"@.skip(2);
    assert(rest.subrange(rest.len() - 3, rest.len() as int) =~= "Ohm"@);
    lemma_denotes("50MOhm"@, 2, "50E6"@, "Ohm"@, 6);
}

/// The range `100MOhm`.
proof fn lemma_megohm_100()
    ensures
        denotes("100MOhm"@, "100E6"@, "Ohm"@),
{
    reveal_strlit("100MOhm");
    reveal_strlit("100E6");
    reveal_strlit("Ohm");
    lemma_power_spelling("100E6"@, 3);
    let rest = "100MOhm"@.skip(3);
    assert(rest.subrange(rest.len() - 3, rest.len() as int) =~= "Ohm"@);
    lemma_denotes("100MOhm"@, 3, "100E6"@, "Ohm"@, 6);
}

/// The range `50mV`.
proof fn lemma_millivolt_50()
    ensures
        denotes("50mV"@, "50E-3"@, "V"@),
{
    reveal_strlit("50mV");
    reveal_strlit("50E-3");
    reveal_strlit("V");
    lemma_power_spelling("50E-3"@, 2);
    let rest = "50mV"@.skip(2);
    assert(rest.subrange(rest.len() - 1, rest.len() as int) =~= "V"@);
    lemma_denotes("50mV"@, 2, "50E-3"@, "V"@, -3);
}

/// The range `200mV`.
proof fn lemma_millivolt_200()
    ensures
        denotes("200mV"@, "200E-3"@, "V"@),
{
    reveal_strlit("200mV");
    reveal_strlit("200E-3");
    reveal_strlit("V");
    lemma_power_spelling("200E-3"@, 3);
    let rest = "200mV"@.skip(3);
    assert(rest.subrange(rest.len() - 1, rest.len() as int) =~= "V"@);
    lemma_denotes("200mV"@, 3, "200E-3"@, "V"@, -3);
}

/// The range `500mV`.
proof fn lemma_millivolt_500()
    ensures
        denotes("500mV"@, "500E-3"@, "V"@),
{
    reveal_strlit("500mV");
    reveal_strlit("500E-3");
    reveal_strlit("V");
    lemma_power_spelling("500E-3"@, 3);
    let rest = "500mV"@.skip(3);
    assert(rest.subrange(rest.len() - 1, rest.len() as int) =~= "V"@);
    lemma_denotes("500mV"@, 3, "500E-3"@, "V"@, -3);
}

/// The range `2V`.
proof fn lemma_volt_2()
    ensures
        denotes("2V"@, "2"@, "V"@),
{
    reveal_strlit("2V");
    reveal_strlit("2");
    reveal_strlit("V");
    lemma_whole_spelling("2"@);
    let rest = "2V"@.skip(1);
    assert(rest.subrange(rest.len() - 1, rest.len() as int) =~= "V"@);
    lemma_denotes("2V"@, 1, "2"@, "V"@, 0);
}

/// The range `5V`.
proof fn lemma_volt_5()
    ensures
        denotes("5V"@, "5"@, "V"@),
{
    reveal_strlit("5V");
    reveal_strlit("5");
    reveal_strlit("V");
    lemma_whole_spelling("5"@);
    let rest = "5V"@.skip(1);
    assert(rest.subrange(rest.len() - 1, rest.len() as int) =~= "V"@);
    lemma_denotes("5V"@, 1, "5"@, "V"@, 0);
}

/// The range `20V`.
proof fn lemma_volt_20()
    ensures
        denotes("20V"@, "20"@, "V"@),
{
    reveal_strlit("20V");
    reveal_strlit("20");
    reveal_strlit("V");
    lemma_whole_spelling("20"@);
    let rest = "20V"@.skip(2);
    assert(rest.subrange(rest.len() - 1, rest.len() as int) =~= "V"@);
    lemma_denotes("20V"@, 2, "20"@, "V"@, 0);
}

/// The range `50V`.
proof fn lemma_volt_50()
    ensures
        denotes("50V"@, "50"@, "V"@),
{
    reveal_strlit("50V");
    reveal_strlit("50");
    reveal_strlit("V");
    lemma_whole_spelling("50"@);
    let rest = "50V"@.skip(2);
    assert(rest.subrange(rest.len() - 1, rest.len() as int) =~= "V"@);
    lemma_denotes("50V"@, 2, "50"@, "V"@, 0);
}

/// The range `200V`.
proof fn lemma_volt_200()
    ensures
        denotes("200V"@, "200"@, "V"@),
{
    reveal_strlit("200V");
    reveal_strlit("200");
    reveal_strlit("V");
    lemma_whole_spelling("200"@);
    let rest = "200V"@.skip(3);
    assert(rest.subrange(rest.len() - 1, rest.len() as int) =~= "V"@);
    lemma_denotes("200V"@, 3, "200"@, "V"@, 0);
}

/// The range `500V`.
proof fn lemma_volt_500()
    ensures
        denotes("500V"@, "500"@, "V"@),
{
    reveal_strlit("500V");
    reveal_strlit("500");
    reveal_strlit("V");
    lemma_whole_spelling("500"@);
    let rest = "500V"@.skip(3);
    assert(rest.subrange(rest.len() - 1, rest.len() as int) =~= "V"@);
    lemma_denotes("500V"@, 3, "500"@, "V"@, 0);
}

/// The range `750V`.
proof fn lemma_volt_750()
    ensures
        denotes("750V"@, "750"@, "V"@),
{
    reveal_strlit("750V");
    reveal_strlit("750");
    reveal_strlit("V");
    lemma_whole_spelling("750"@);
    let rest = "750V"@.skip(3);
    assert(rest.subrange(rest.len() - 1, rest.len() as int) =~= "V"@);
    lemma_denotes("750V"@, 3, "750"@, "V"@, 0);
}

/// The range `1000V`.
proof fn lemma_volt_1000()
    ensures
        denotes("1000V"@, "1000"@, "V"@),
{
    reveal_strlit("1000V");
    reveal_strlit("1000");
    reveal_strlit("V");
    lemma_whole_spelling("1000"@);
    let rest = "1000V"@.skip(4);
    assert(rest.subrange(rest.len() - 1, rest.len() as int) =~= "V"@);
    lemma_denotes("1000V"@, 4, "1000"@, "V"@, 0);
}

/// `500E-3` comes after `50E-3`.
proof fn lemma_500em3_after_50em3()
    ensures
        next_after("50E-3"@, "500E-3"@),
{
    reveal(next_after);
    assert(spells("50E-3"@, Exact { mantissa: 50, power: -3 })) by {
        reveal_strlit("50E-3");
        lemma_power_spelling("50E-3"@, 2);
    }
    assert(spells("500E-3"@, Exact { mantissa: 500, power: -3 })) by {
        reveal_strlit("500E-3");
        lemma_power_spelling("500E-3"@, 3);
    }
    lemma_below(Exact { mantissa: 50, power: -3 }, Exact { mantissa: 500, power: -3 });
    lemma_below(Exact { mantissa: 500, power: -3 }, Exact { mantissa: 500, power: -3 });
}

/// `5` comes after `500E-3`.
proof fn lemma_5_after_500em3()
    ensures
        next_after("500E-3"@, "5"@),
{
    reveal(next_after);
    assert(spells("500E-3"@, Exact { mantissa: 500, power: -3 })) by {
        reveal_strlit("500E-3");
        lemma_power_spelling("500E-3"@, 3);
    }
    assert(spells("5"@, Exact { mantissa: 5, power: 0 })) by {
        reveal_strlit("5");
        lemma_whole_spelling("5"@);
    }
    lemma_below(Exact { mantissa: 500, power: -3 }, Exact { mantissa: 5, power: 0 });
    lemma_below(Exact { mantissa: 5000, power: -3 }, Exact { mantissa: 5, power: 0 });
}

/// `50` comes after `5`.
proof fn lemma_50_after_5()
    ensures
        next_after("5"@, "50"@),
{
    reveal(next_after);
    assert(spells("5"@, Exact { mantissa: 5, power: 0 })) by {
        reveal_strlit("5");
        lemma_whole_spelling("5"@);
    }
    assert(spells("50"@, Exact { mantissa: 50, power: 0 })) by {
        reveal_strlit("50");
        lemma_whole_spelling("50"@);
    }
    lemma_below(Exact { mantissa: 5, power: 0 }, Exact { mantissa: 50, power: 0 });
    lemma_below(Exact { mantissa: 50, power: 0 }, Exact { mantissa: 50, power: 0 });
}

/// `500` comes after `50`.
proof fn lemma_500_after_50()
    ensures
        next_after("50"@, "500"@),
{
    reveal(next_after);
    assert(spells("50"@, Exact { mantissa: 50, power: 0 })) by {
        reveal_strlit("50");
        lemma_whole_spelling("50"@);
    }
    assert(spells("500"@, Exact { mantissa: 500, power: 0 })) by {
        reveal_strlit("500");
        lemma_whole_spelling("500"@);
    }
    lemma_below(Exact { mantissa: 50, power: 0 }, Exact { mantissa: 500, power: 0 });
    lemma_below(Exact { mantissa: 500, power: 0 }, Exact { mantissa: 500, power: 0 });
}

/// `1000` comes after `500`.
proof fn lemma_1000_after_500()
    ensures
        next_after("500"@, "1000"@),
{
    reveal(next_after);
    assert(spells("500"@, Exact { mantissa: 500, power: 0 })) by {
        reveal_strlit("500");
        lemma_whole_spelling("500"@);
    }
    assert(spells("1000"@, Exact { mantissa: 1000, power: 0 })) by {
        reveal_strlit("1000");
        lemma_whole_spelling("1000"@);
    }
    lemma_below(Exact { mantissa: 500, power: 0 }, Exact { mantissa: 1000, power: 0 });
    lemma_below(Exact { mantissa: 5000, power: 0 }, Exact { mantissa: 1000, power: 0 });
}

/// `750` comes after `500`.
proof fn lemma_750_after_500()
    ensures
        next_after("500"@, "750"@),
{
    reveal(next_after);
    assert(spells("500"@, Exact { mantissa: 500, power: 0 })) by {
        reveal_strlit("500");
        lemma_whole_spelling("500"@);
    }
    assert(spells("750"@, Exact { mantissa: 750, power: 0 })) by {
        reveal_strlit("750");
        lemma_whole_spelling("750"@);
    }
    lemma_below(Exact { mantissa: 500, power: 0 }, Exact { mantissa: 750, power: 0 });
    lemma_below(Exact { mantissa: 5000, power: 0 }, Exact { mantissa: 750, power: 0 });
}

/// `5E-3` comes after `500E-6`.
proof fn lemma_5em3_after_500em6()
    ensures
        next_after("500E-6"@, "5E-3"@),
{
    reveal(next_after);
    assert(spells("500E-6"@, Exact { mantissa: 500, power: -6 })) by {
        reveal_strlit("500E-6");
        lemma_power_spelling("500E-6"@, 3);
    }
    assert(spells("5E-3"@, Exact { mantissa: 5, power: -3 })) by {
        reveal_strlit("5E-3");
        lemma_power_spelling("5E-3"@, 1);
    }
    lemma_below(Exact { mantissa: 500, power: -6 }, Exact { mantissa: 5, power: -3 });
    lemma_below(Exact { mantissa: 5000, power: -6 }, Exact { mantissa: 5, power: -3 });
}

/// `50E-3` comes after `5E-3`.
proof fn lemma_50em3_after_5em3()
    ensures
        next_after("5E-3"@, "50E-3"@),
{
    reveal(next_after);
    assert(spells("5E-3"@, Exact { mantissa: 5, power: -3 })) by {
        reveal_strlit("5E-3");
        lemma_power_spelling("5E-3"@, 1);
    }
    assert(spells("50E-3"@, Exact { mantissa: 50, power: -3 })) by {
        reveal_strlit("50E-3");
        lemma_power_spelling("50E-3"@, 2);
    }
    lemma_below(Exact { mantissa: 5, power: -3 }, Exact { mantissa: 50, power: -3 });
    lemma_below(Exact { mantissa: 50, power: -3 }, Exact { mantissa: 50, power: -3 });
}

/// `10` comes after `5`.
proof fn lemma_10_after_5()
    ensures
        next_after("5"@, "10"@),
{
    reveal(next_after);
    assert(spells("5"@, Exact { mantissa: 5, power: 0 })) by {
        reveal_strlit("5");
        lemma_whole_spelling("5"@);
    }
    assert(spells("10"@, Exact { mantissa: 10, power: 0 })) by {
        reveal_strlit("10");
        lemma_whole_spelling("10"@);
    }
    lemma_below(Exact { mantissa: 5, power: 0 }, Exact { mantissa: 10, power: 0 });
    lemma_below(Exact { mantissa: 50, power: 0 }, Exact { mantissa: 10, power: 0 });
}

/// `5E3` comes after `500`.
proof fn lemma_5e3_after_500()
    ensures
        next_after("500"@, "5E3"@),
{
    reveal(next_after);
    assert(spells("500"@, Exact { mantissa: 500, power: 0 })) by {
        reveal_strlit("500");
        lemma_whole_spelling("500"@);
    }
    assert(spells("5E3"@, Exact { mantissa: 5, power: 3 })) by {
        reveal_strlit("5E3");
        lemma_power_spelling("5E3"@, 1);
    }
    lemma_below(Exact { mantissa: 500, power: 0 }, Exact { mantissa: 5, power: 3 });
    lemma_below(Exact { mantissa: 5000, power: 0 }, Exact { mantissa: 5, power: 3 });
}

/// `50E3` comes after `5E3`.
proof fn lemma_50e3_after_5e3()
    ensures
        next_after("5E3"@, "50E3"@),
{
    reveal(next_after);
    assert(spells("5E3"@, Exact { mantissa: 5, power: 3 })) by {
        reveal_strlit("5E3");
        lemma_power_spelling("5E3"@, 1);
    }
    assert(spells("50E3"@, Exact { mantissa: 50, power: 3 })) by {
        reveal_strlit("50E3");
        lemma_power_spelling("50E3"@, 2);
    }
    lemma_below(Exact { mantissa: 5, power: 3 }, Exact { mantissa: 50, power: 3 });
    lemma_below(Exact { mantissa: 50, power: 3 }, Exact { mantissa: 50, power: 3 });
}

/// `500E3` comes after `50E3`.
proof fn lemma_500e3_after_50e3()
    ensures
        next_after("50E3"@, "500E3"@),
{
    reveal(next_after);
    assert(spells("50E3"@, Exact { mantissa: 50, power: 3 })) by {
        reveal_strlit("50E3");
        lemma_power_spelling("50E3"@, 2);
    }
    assert(spells("500E3"@, Exact { mantissa: 500, power: 3 })) by {
        reveal_strlit("500E3");
        lemma_power_spelling("500E3"@, 3);
    }
    lemma_below(Exact { mantissa: 50, power: 3 }, Exact { mantissa: 500, power: 3 });
    lemma_below(Exact { mantissa: 500, power: 3 }, Exact { mantissa: 500, power: 3 });
}

/// `5E6` comes after `500E3`.
proof fn lemma_5e6_after_500e3()
    ensures
        next_after("500E3"@, "5E6"@),
{
    reveal(next_after);
    assert(spells("500E3"@, Exact { mantissa: 500, power: 3 })) by {
        reveal_strlit("500E3");
        lemma_power_spelling("500E3"@, 3);
    }
    assert(spells("5E6"@, Exact { mantissa: 5, power: 6 })) by {
        reveal_strlit("5E6");
        lemma_power_spelling("5E6"@, 1);
    }
    lemma_below(Exact { mantissa: 500, power: 3 }, Exact { mantissa: 5, power: 6 });
    lemma_below(Exact { mantissa: 5000, power: 3 }, Exact { mantissa: 5, power: 6 });
}

/// `50E6` comes after `5E6`.
proof fn lemma_50e6_after_5e6()
    ensures
        next_after("5E6"@, "50E6"@),
{
    reveal(next_after);
    assert(spells("5E6"@, Exact { mantissa: 5, power: 6 })) by {
        reveal_strlit("5E6");
        lemma_power_spelling("5E6"@, 1);
    }
    assert(spells("50E6"@, Exact { mantissa: 50, power: 6 })) by {
        reveal_strlit("50E6");
        lemma_power_spelling("50E6"@, 2);
    }
    lemma_below(Exact { mantissa: 5, power: 6 }, Exact { mantissa: 50, power: 6 });
    lemma_below(Exact { mantissa: 50, power: 6 }, Exact { mantissa: 50, power: 6 });
}

/// `500E-9` comes after `50E-9`.
proof fn lemma_500em9_after_50em9()
    ensures
        next_after("50E-9"@, "500E-9"@),
{
    reveal(next_after);
    assert(spells("50E-9"@, Exact { mantissa: 50, power: -9 })) by {
        reveal_strlit("50E-9");
        lemma_power_spelling("50E-9"@, 2);
    }
    assert(spells("500E-9"@, Exact { mantissa: 500, power: -9 })) by {
        reveal_strlit("500E-9");
        lemma_power_spelling("500E-9"@, 3);
    }
    lemma_below(Exact { mantissa: 50, power: -9 }, Exact { mantissa: 500, power: -9 });
    lemma_below(Exact { mantissa: 500, power: -9 }, Exact { mantissa: 500, power: -9 });
}

/// `5E-6` comes after `500E-9`.
proof fn lemma_5em6_after_500em9()
    ensures
        next_after("500E-9"@, "5E-6"@),
{
    reveal(next_after);
    assert(spells("500E-9"@, Exact { mantissa: 500, power: -9 })) by {
        reveal_strlit("500E-9");
        lemma_power_spelling("500E-9"@, 3);
    }
    assert(spells("5E-6"@, Exact { mantissa: 5, power: -6 })) by {
        reveal_strlit("5E-6");
        lemma_power_spelling("5E-6"@, 1);
    }
    lemma_below(Exact { mantissa: 500, power: -9 }, Exact { mantissa: 5, power: -6 });
    lemma_below(Exact { mantissa: 5000, power: -9 }, Exact { mantissa: 5, power: -6 });
}

/// `50E-6` comes after `5E-6`.
proof fn lemma_50em6_after_5em6()
    ensures
        next_after("5E-6"@, "50E-6"@),
{
    reveal(next_after);
    assert(spells("5E-6"@, Exact { mantissa: 5, power: -6 })) by {
        reveal_strlit("5E-6");
        lemma_power_spelling("5E-6"@, 1);
    }
    assert(spells("50E-6"@, Exact { mantissa: 50, power: -6 })) by {
        reveal_strlit("50E-6");
        lemma_power_spelling("50E-6"@, 2);
    }
    lemma_below(Exact { mantissa: 5, power: -6 }, Exact { mantissa: 50, power: -6 });
    lemma_below(Exact { mantissa: 50, power: -6 }, Exact { mantissa: 50, power: -6 });
}

/// `500E-6` comes after `50E-6`.
proof fn lemma_500em6_after_50em6()
    ensures
        next_after("50E-6"@, "500E-6"@),
{
    reveal(next_after);
    assert(spells("50E-6"@, Exact { mantissa: 50, power: -6 })) by {
        reveal_strlit("50E-6");
        lemma_power_spelling("50E-6"@, 2);
    }
    assert(spells("500E-6"@, Exact { mantissa: 500, power: -6 })) by {
        reveal_strlit("500E-6");
        lemma_power_spelling("500E-6"@, 3);
    }
    lemma_below(Exact { mantissa: 50, power: -6 }, Exact { mantissa: 500, power: -6 });
    lemma_below(Exact { mantissa: 500, power: -6 }, Exact { mantissa: 500, power: -6 });
}

/// `2` comes after `200E-3`.
proof fn lemma_2_after_200em3()
    ensures
        next_after("200E-3"@, "2"@),
{
    reveal(next_after);
    assert(spells("200E-3"@, Exact { mantissa: 200, power: -3 })) by {
        reveal_strlit("200E-3");
        lemma_power_spelling("200E-3"@, 3);
    }
    assert(spells("2"@, Exact { mantissa: 2, power: 0 })) by {
        reveal_strlit("2");
        lemma_whole_spelling("2"@);
    }
    lemma_below(Exact { mantissa: 200, power: -3 }, Exact { mantissa: 2, power: 0 });
    lemma_below(Exact { mantissa: 2000, power: -3 }, Exact { mantissa: 2, power: 0 });
}

/// `20` comes after `2`.
proof fn lemma_20_after_2()
    ensures
        next_after("2"@, "20"@),
{
    reveal(next_after);
    assert(spells("2"@, Exact { mantissa: 2, power: 0 })) by {
        reveal_strlit("2");
        lemma_whole_spelling("2"@);
    }
    assert(spells("20"@, Exact { mantissa: 20, power: 0 })) by {
        reveal_strlit("20");
        lemma_whole_spelling("20"@);
    }
    lemma_below(Exact { mantissa: 2, power: 0 }, Exact { mantissa: 20, power: 0 });
    lemma_below(Exact { mantissa: 20, power: 0 }, Exact { mantissa: 20, power: 0 });
}

/// `200` comes after `20`.
proof fn lemma_200_after_20()
    ensures
        next_after("20"@, "200"@),
{
    reveal(next_after);
    assert(spells("20"@, Exact { mantissa: 20, power: 0 })) by {
        reveal_strlit("20");
        lemma_whole_spelling("20"@);
    }
    assert(spells("200"@, Exact { mantissa: 200, power: 0 })) by {
        reveal_strlit("200");
        lemma_whole_spelling("200"@);
    }
    lemma_below(Exact { mantissa: 20, power: 0 }, Exact { mantissa: 200, power: 0 });
    lemma_below(Exact { mantissa: 200, power: 0 }, Exact { mantissa: 200, power: 0 });
}

/// `1000` comes after `200`.
proof fn lemma_1000_after_200()
    ensures
        next_after("200"@, "1000"@),
{
    reveal(next_after);
    assert(spells("200"@, Exact { mantissa: 200, power: 0 })) by {
        reveal_strlit("200");
        lemma_whole_spelling("200"@);
    }
    assert(spells("1000"@, Exact { mantissa: 1000, power: 0 })) by {
        reveal_strlit("1000");
        lemma_whole_spelling("1000"@);
    }
    lemma_below(Exact { mantissa: 200, power: 0 }, Exact { mantissa: 1000, power: 0 });
    lemma_below(Exact { mantissa: 2000, power: 0 }, Exact { mantissa: 1000, power: 0 });
}

/// `750` comes after `200`.
proof fn lemma_750_after_200()
    ensures
        next_after("200"@, "750"@),
{
    reveal(next_after);
    assert(spells("200"@, Exact { mantissa: 200, power: 0 })) by {
        reveal_strlit("200");
        lemma_whole_spelling("200"@);
    }
    assert(spells("750"@, Exact { mantissa: 750, power: 0 })) by {
        reveal_strlit("750");
        lemma_whole_spelling("750"@);
    }
    lemma_below(Exact { mantissa: 200, power: 0 }, Exact { mantissa: 750, power: 0 });
    lemma_below(Exact { mantissa: 2000, power: 0 }, Exact { mantissa: 750, power: 0 });
}

/// `2E3` comes after `200`.
proof fn lemma_2e3_after_200()
    ensures
        next_after("200"@, "2E3"@),
{
    reveal(next_after);
    assert(spells("200"@, Exact { mantissa: 200, power: 0 })) by {
        reveal_strlit("200");
        lemma_whole_spelling("200"@);
    }
    assert(spells("2E3"@, Exact { mantissa: 2, power: 3 })) by {
        reveal_strlit("2E3");
        lemma_power_spelling("2E3"@, 1);
    }
    lemma_below(Exact { mantissa: 200, power: 0 }, Exact { mantissa: 2, power: 3 });
    lemma_below(Exact { mantissa: 2000, power: 0 }, Exact { mantissa: 2, power: 3 });
}

/// `20E3` comes after `2E3`.
proof fn lemma_20e3_after_2e3()
    ensures
        next_after("2E3"@, "20E3"@),
{
    reveal(next_after);
    assert(spells("2E3"@, Exact { mantissa: 2, power: 3 })) by {
        reveal_strlit("2E3");
        lemma_power_spelling("2E3"@, 1);
    }
    assert(spells("20E3"@, Exact { mantissa: 20, power: 3 })) by {
        reveal_strlit("20E3");
        lemma_power_spelling("20E3"@, 2);
    }
    lemma_below(Exact { mantissa: 2, power: 3 }, Exact { mantissa: 20, power: 3 });
    lemma_below(Exact { mantissa: 20, power: 3 }, Exact { mantissa: 20, power: 3 });
}

/// `200E3` comes after `20E3`.
proof fn lemma_200e3_after_20e3()
    ensures
        next_after("20E3"@, "200E3"@),
{
    reveal(next_after);
    assert(spells("20E3"@, Exact { mantissa: 20, power: 3 })) by {
        reveal_strlit("20E3");
        lemma_power_spelling("20E3"@, 2);
    }
    assert(spells("200E3"@, Exact { mantissa: 200, power: 3 })) by {
        reveal_strlit("200E3");
        lemma_power_spelling("200E3"@, 3);
    }
    lemma_below(Exact { mantissa: 20, power: 3 }, Exact { mantissa: 200, power: 3 });
    lemma_below(Exact { mantissa: 200, power: 3 }, Exact { mantissa: 200, power: 3 });
}

/// `2E6` comes after `200E3`.
proof fn lemma_2e6_after_200e3()
    ensures
        next_after("200E3"@, "2E6"@),
{
    reveal(next_after);
    assert(spells("200E3"@, Exact { mantissa: 200, power: 3 })) by {
        reveal_strlit("200E3");
        lemma_power_spelling("200E3"@, 3);
    }
    assert(spells("2E6"@, Exact { mantissa: 2, power: 6 })) by {
        reveal_strlit("2E6");
        lemma_power_spelling("2E6"@, 1);
    }
    lemma_below(Exact { mantissa: 200, power: 3 }, Exact { mantissa: 2, power: 6 });
    lemma_below(Exact { mantissa: 2000, power: 3 }, Exact { mantissa: 2, power: 6 });
}

/// `20E6` comes after `2E6`.
proof fn lemma_20e6_after_2e6()
    ensures
        next_after("2E6"@, "20E6"@),
{
    reveal(next_after);
    assert(spells("2E6"@, Exact { mantissa: 2, power: 6 })) by {
        reveal_strlit("2E6");
        lemma_power_spelling("2E6"@, 1);
    }
    assert(spells("20E6"@, Exact { mantissa: 20, power: 6 })) by {
        reveal_strlit("20E6");
        lemma_power_spelling("20E6"@, 2);
    }
    lemma_below(Exact { mantissa: 2, power: 6 }, Exact { mantissa: 20, power: 6 });
    lemma_below(Exact { mantissa: 20, power: 6 }, Exact { mantissa: 20, power: 6 });
}

/// `100E6` comes after `20E6`.
proof fn lemma_100e6_after_20e6()
    ensures
        next_after("20E6"@, "100E6"@),
{
    reveal(next_after);
    assert(spells("20E6"@, Exact { mantissa: 20, power: 6 })) by {
        reveal_strlit("20E6");
        lemma_power_spelling("20E6"@, 2);
    }
    assert(spells("100E6"@, Exact { mantissa: 100, power: 6 })) by {
        reveal_strlit("100E6");
        lemma_power_spelling("100E6"@, 3);
    }
    lemma_below(Exact { mantissa: 20, power: 6 }, Exact { mantissa: 100, power: 6 });
    lemma_below(Exact { mantissa: 200, power: 6 }, Exact { mantissa: 100, power: 6 });
}

/// The name of every range of an XDM multimeter says what the command selects: its number and unit
/// are the value that is sent, in the unit of the mode. Automatic ranging comes first, and a probe
/// is sent by the name that it is shown with.
pub proof fn law_xdm_names_tell_their_values(mode: MeterMode, i: int)
    requires
        xdm_table(mode) matches Some(table) && 0 <= i < table.ranges.len(),
    ensures
        ({
            let (name, value) = (xdm_table(mode)->0).ranges[i];
            &&& mode == MeterMode::Vdc || mode == MeterMode::Vac ==> name == "auto"@ || denotes(
                name,
                value,
                "V"@,
            )
            &&& mode == MeterMode::Adc || mode == MeterMode::Aac ==> denotes(name, value, "A"@)
            &&& mode == MeterMode::Res ==> name == "auto"@ || denotes(name, value, "Ohm"@)
            &&& mode == MeterMode::Cap ==> name == "auto"@ || denotes(name, value, "F"@)
            &&& mode == MeterMode::Temp ==> occurs(name, value)
            &&& name == "auto"@ ==> i == 0 && value == "AUTO"@
        }),
{
    reveal_strlit("auto");
    match mode {
        MeterMode::Vdc => {
            lemma_millivolt_50();
            assert("50mV"@[0] != "auto"@[0]) by {
                reveal_strlit("50mV");
            }
            lemma_millivolt_500();
            assert("500mV"@.len() != 4) by {
                reveal_strlit("500mV");
            }
            lemma_volt_5();
            assert("5V"@.len() != 4) by {
                reveal_strlit("5V");
            }
            lemma_volt_50();
            assert("50V"@.len() != 4) by {
                reveal_strlit("50V");
            }
            lemma_volt_500();
            assert("500V"@[0] != "auto"@[0]) by {
                reveal_strlit("500V");
            }
            lemma_volt_1000();
            assert("1000V"@.len() != 4) by {
                reveal_strlit("1000V");
            }
        },
        MeterMode::Vac => {
            lemma_millivolt_500();
            assert("500mV"@.len() != 4) by {
                reveal_strlit("500mV");
            }
            lemma_volt_5();
            assert("5V"@.len() != 4) by {
                reveal_strlit("5V");
            }
            lemma_volt_50();
            assert("50V"@.len() != 4) by {
                reveal_strlit("50V");
            }
            lemma_volt_500();
            assert("500V"@[0] != "auto"@[0]) by {
                reveal_strlit("500V");
            }
            lemma_volt_750();
            assert("750V"@[0] != "auto"@[0]) by {
                reveal_strlit("750V");
            }
        },
        MeterMode::Adc => {
            lemma_microampere_500();
            assert("500uA"@.len() != 4) by {
                reveal_strlit("500uA");
            }
            lemma_milliampere_5();
            assert("5mA"@.len() != 4) by {
                reveal_strlit("5mA");
            }
            lemma_milliampere_50();
            assert("50mA"@[0] != "auto"@[0]) by {
                reveal_strlit("50mA");
            }
            lemma_milliampere_500();
            assert("500mA"@.len() != 4) by {
                reveal_strlit("500mA");
            }
            lemma_ampere_5();
            assert("5A"@.len() != 4) by {
                reveal_strlit("5A");
            }
            lemma_ampere_10();
            assert("10A"@.len() != 4) by {
                reveal_strlit("10A");
            }
        },
        MeterMode::Aac => {
            lemma_microampere_500();
            assert("500uA"@.len() != 4) by {
                reveal_strlit("500uA");
            }
            lemma_milliampere_5();
            assert("5mA"@.len() != 4) by {
                reveal_strlit("5mA");
            }
            lemma_milliampere_50();
            assert("50mA"@[0] != "auto"@[0]) by {
                reveal_strlit("50mA");
            }
            lemma_milliampere_500();
            assert("500mA"@.len() != 4) by {
                reveal_strlit("500mA");
            }
            lemma_ampere_5();
            assert("5A"@.len() != 4) by {
                reveal_strlit("5A");
            }
            lemma_ampere_10();
            assert("10A"@.len() != 4) by {
                reveal_strlit("10A");
            }
        },
        MeterMode::Res => {
            lemma_ohm_500();
            assert("500Ohm"@.len() != 4) by {
                reveal_strlit("500Ohm");
            }
            lemma_kilohm_5();
            assert("5kOhm"@.len() != 4) by {
                reveal_strlit("5kOhm");
            }
            lemma_kilohm_50();
            assert("50kOhm"@.len() != 4) by {
                reveal_strlit("50kOhm");
            }
            lemma_kilohm_500();
            assert("500kOhm"@.len() != 4) by {
                reveal_strlit("500kOhm");
            }
            lemma_megohm_5();
            assert("5MOhm"@.len() != 4) by {
                reveal_strlit("5MOhm");
            }
            lemma_megohm_50();
            assert("50MOhm"@.len() != 4) by {
                reveal_strlit("50MOhm");
            }
        },
        MeterMode::Cap => {
            lemma_nanofarad_50();
            assert("50nF"@[0] != "auto"@[0]) by {
                reveal_strlit("50nF");
            }
            lemma_nanofarad_500();
            assert("500nF"@.len() != 4) by {
                reveal_strlit("500nF");
            }
            lemma_microfarad_5();
            assert("5uF"@.len() != 4) by {
                reveal_strlit("5uF");
            }
            lemma_microfarad_50();
            assert("50uF"@[0] != "auto"@[0]) by {
                reveal_strlit("50uF");
            }
            lemma_microfarad_500();
            assert("500uF"@.len() != 4) by {
                reveal_strlit("500uF");
            }
            lemma_millifarad_5();
            assert("5mF"@.len() != 4) by {
                reveal_strlit("5mF");
            }
            lemma_millifarad_50();
            assert("50mF"@[0] != "auto"@[0]) by {
                reveal_strlit("50mF");
            }
        },
        MeterMode::Temp => {
            reveal_strlit("PT100");
            reveal_strlit("KITS90");
            reveal_strlit("K-type (KITS90)");
            assert("PT100"@.subrange(0, 5) =~= "PT100"@);
            assert("K-type (KITS90)"@.subrange(8, 14) =~= "KITS90"@);
            assert(occurs_at("PT100"@, "PT100"@, 0));
            assert(occurs_at("K-type (KITS90)"@, "KITS90"@, 8));
        },
        _ => {},
    }
}

/// The name of every range of an SPM power supply says what the command selects: its number and unit
/// are the value that is sent, in the unit of the mode. Automatic ranging comes first.
pub proof fn law_spm_names_tell_their_values(mode: MeterMode, i: int)
    requires
        spm_table(mode) matches Some(table) && 0 <= i < table.ranges.len(),
    ensures
        ({
            let (name, value) = (spm_table(mode)->0).ranges[i];
            &&& mode == MeterMode::Vdc || mode == MeterMode::Vac ==> name == "auto"@ || denotes(
                name,
                value,
                "V"@,
            )
            &&& mode == MeterMode::Adc || mode == MeterMode::Aac ==> denotes(name, value, "A"@)
            &&& mode == MeterMode::Res ==> name == "auto"@ || denotes(name, value, "Ohm"@)
            &&& mode == MeterMode::Cap ==> name == "auto"@ || denotes(name, value, "F"@)
            &&& mode == MeterMode::Temp ==> occurs(name, value)
            &&& name == "auto"@ ==> i == 0 && value == "AUTO"@
        }),
{
    reveal_strlit("auto");
    match mode {
        MeterMode::Vdc => {
            lemma_millivolt_200();
            assert("200mV"@.len() != 4) by {
                reveal_strlit("200mV");
            }
            lemma_volt_2();
            assert("2V"@.len() != 4) by {
                reveal_strlit("2V");
            }
            lemma_volt_20();
            assert("20V"@.len() != 4) by {
                reveal_strlit("20V");
            }
            lemma_volt_200();
            assert("200V"@[0] != "auto"@[0]) by {
                reveal_strlit("200V");
            }
            lemma_volt_1000();
            assert("1000V"@.len() != 4) by {
                reveal_strlit("1000V");
            }
        },
        MeterMode::Vac => {
            lemma_millivolt_200();
            assert("200mV"@.len() != 4) by {
                reveal_strlit("200mV");
            }
            lemma_volt_2();
            assert("2V"@.len() != 4) by {
                reveal_strlit("2V");
            }
            lemma_volt_20();
            assert("20V"@.len() != 4) by {
                reveal_strlit("20V");
            }
            lemma_volt_200();
            assert("200V"@[0] != "auto"@[0]) by {
                reveal_strlit("200V");
            }
            lemma_volt_750();
            assert("750V"@[0] != "auto"@[0]) by {
                reveal_strlit("750V");
            }
        },
        MeterMode::Adc => {
            lemma_milliampere_200();
            assert("200mA"@.len() != 4) by {
                reveal_strlit("200mA");
            }
            lemma_ampere_10();
            assert("10A"@.len() != 4) by {
                reveal_strlit("10A");
            }
        },
        MeterMode::Aac => {
            lemma_milliampere_200();
            assert("200mA"@.len() != 4) by {
                reveal_strlit("200mA");
            }
            lemma_ampere_10();
            assert("10A"@.len() != 4) by {
                reveal_strlit("10A");
            }
        },
        MeterMode::Res => {
            lemma_ohm_200();
            assert("200Ohm"@.len() != 4) by {
                reveal_strlit("200Ohm");
            }
            lemma_kilohm_2();
            assert("2kOhm"@.len() != 4) by {
                reveal_strlit("2kOhm");
            }
            lemma_kilohm_20();
            assert("20kOhm"@.len() != 4) by {
                reveal_strlit("20kOhm");
            }
            lemma_kilohm_200();
            assert("200kOhm"@.len() != 4) by {
                reveal_strlit("200kOhm");
            }
            lemma_megohm_2();
            assert("2MOhm"@.len() != 4) by {
                reveal_strlit("2MOhm");
            }
            lemma_megohm_20();
            assert("20MOhm"@.len() != 4) by {
                reveal_strlit("20MOhm");
            }
            lemma_megohm_100();
            assert("100MOhm"@.len() != 4) by {
                reveal_strlit("100MOhm");
            }
        },
        MeterMode::Cap => {
        },
        _ => {},
    }
}

/// Each range of an XDM multimeter measures more than the one before, and no more than ten times as
/// much.
pub proof fn law_xdm_ranges_leave_no_gap(mode: MeterMode, i: int)
    requires
        xdm_table(mode) matches Some(table) && 0 <= i < table.ranges.len() - 1,
        mode != MeterMode::Temp,
    ensures
        ({
            let ranges = (xdm_table(mode)->0).ranges;
            &&& ranges[i].0 != "auto"@ ==> next_after(ranges[i].1, ranges[i + 1].1)
        }),
{
    reveal_strlit("auto");
    match mode {
        MeterMode::Vdc => {
            lemma_500em3_after_50em3();
            lemma_5_after_500em3();
            lemma_50_after_5();
            lemma_500_after_50();
            lemma_1000_after_500();
        },
        MeterMode::Vac => {
            lemma_5_after_500em3();
            lemma_50_after_5();
            lemma_500_after_50();
            lemma_750_after_500();
        },
        MeterMode::Adc => {
            lemma_5em3_after_500em6();
            lemma_50em3_after_5em3();
            lemma_500em3_after_50em3();
            lemma_5_after_500em3();
            lemma_10_after_5();
        },
        MeterMode::Aac => {
            lemma_5em3_after_500em6();
            lemma_50em3_after_5em3();
            lemma_500em3_after_50em3();
            lemma_5_after_500em3();
            lemma_10_after_5();
        },
        MeterMode::Res => {
            lemma_5e3_after_500();
            lemma_50e3_after_5e3();
            lemma_500e3_after_50e3();
            lemma_5e6_after_500e3();
            lemma_50e6_after_5e6();
        },
        MeterMode::Cap => {
            lemma_500em9_after_50em9();
            lemma_5em6_after_500em9();
            lemma_50em6_after_5em6();
            lemma_500em6_after_50em6();
            lemma_5em3_after_500em6();
            lemma_50em3_after_5em3();
        },
        _ => {},
    }
}

/// Each range of an SPM power supply for voltage or resistance measures more than the one before, and
/// no more than ten times as much.
pub proof fn law_spm_ranges_leave_no_gap(mode: MeterMode, i: int)
    requires
        spm_table(mode) matches Some(table) && 0 <= i < table.ranges.len() - 1,
        mode != MeterMode::Adc && mode != MeterMode::Aac,
    ensures
        ({
            let ranges = (spm_table(mode)->0).ranges;
            &&& ranges[i].0 != "auto"@ ==> next_after(ranges[i].1, ranges[i + 1].1)
        }),
{
    reveal_strlit("auto");
    match mode {
        MeterMode::Vdc => {
            lemma_2_after_200em3();
            lemma_20_after_2();
            lemma_200_after_20();
            lemma_1000_after_200();
        },
        MeterMode::Vac => {
            lemma_2_after_200em3();
            lemma_20_after_2();
            lemma_200_after_20();
            lemma_750_after_200();
        },
        MeterMode::Res => {
            lemma_2e3_after_200();
            lemma_20e3_after_2e3();
            lemma_200e3_after_20e3();
            lemma_2e6_after_200e3();
            lemma_20e6_after_2e6();
            lemma_100e6_after_20e6();
        },
        _ => {},
    }
}

/// The ranges of an XDM multimeter reach from the smallest to the largest that it has in each mode.
/// Current and temperature have no automatic ranging.
pub proof fn law_xdm_ranges_span(mode: MeterMode)
    ensures
        xdm_table(mode) matches Some(table) ==> {
            let first = if offers_auto(table.ranges) {
                1
            } else {
                0int
            };
            let last = table.ranges.len() - 1;
            match mode {
                MeterMode::Vdc => {
                    &&& offers_auto(table.ranges)
                    &&& table.ranges[first].0 == "50mV"@
                    &&& table.ranges[last].0 == "1000V"@
                },
                MeterMode::Vac => {
                    &&& offers_auto(table.ranges)
                    &&& table.ranges[first].0 == "500mV"@
                    &&& table.ranges[last].0 == "750V"@
                },
                MeterMode::Adc => {
                    &&& !offers_auto(table.ranges)
                    &&& table.ranges[first].0 == "500uA"@
                    &&& table.ranges[last].0 == "10A"@
                },
                MeterMode::Aac => {
                    &&& !offers_auto(table.ranges)
                    &&& table.ranges[first].0 == "500uA"@
                    &&& table.ranges[last].0 == "10A"@
                },
                MeterMode::Res => {
                    &&& offers_auto(table.ranges)
                    &&& table.ranges[first].0 == "500Ohm"@
                    &&& table.ranges[last].0 == "50MOhm"@
                },
                MeterMode::Cap => {
                    &&& offers_auto(table.ranges)
                    &&& table.ranges[first].0 == "50nF"@
                    &&& table.ranges[last].0 == "50mF"@
                },
                MeterMode::Temp => {
                    &&& !offers_auto(table.ranges)
                    &&& table.ranges[first].0 == "PT100"@
                    &&& table.ranges[last].0 == "K-type (KITS90)"@
                },
                _ => false,
            }
        },
{
    reveal_strlit("auto");
    reveal_strlit("500uA");
    assert("500uA"@.len() != "auto"@.len());
    reveal_strlit("500uA");
    assert("500uA"@.len() != "auto"@.len());
    reveal_strlit("PT100");
    assert("PT100"@.len() != "auto"@.len());
}

/// The ranges of an SPM power supply reach from the smallest to the largest that it has in each mode.
/// Current has no automatic ranging, and capacitance nothing else.
pub proof fn law_spm_ranges_span(mode: MeterMode)
    ensures
        spm_table(mode) matches Some(table) ==> {
            let first = if offers_auto(table.ranges) {
                1
            } else {
                0int
            };
            let last = table.ranges.len() - 1;
            match mode {
                MeterMode::Vdc => {
                    &&& offers_auto(table.ranges)
                    &&& table.ranges[first].0 == "200mV"@
                    &&& table.ranges[last].0 == "1000V"@
                },
                MeterMode::Vac => {
                    &&& offers_auto(table.ranges)
                    &&& table.ranges[first].0 == "200mV"@
                    &&& table.ranges[last].0 == "750V"@
                },
                MeterMode::Adc => {
                    &&& !offers_auto(table.ranges)
                    &&& table.ranges[first].0 == "200mA"@
                    &&& table.ranges[last].0 == "10A"@
                },
                MeterMode::Aac => {
                    &&& !offers_auto(table.ranges)
                    &&& table.ranges[first].0 == "200mA"@
                    &&& table.ranges[last].0 == "10A"@
                },
                MeterMode::Res => {
                    &&& offers_auto(table.ranges)
                    &&& table.ranges[first].0 == "200Ohm"@
                    &&& table.ranges[last].0 == "100MOhm"@
                },
                MeterMode::Cap => offers_auto(table.ranges) && last == 0,
                _ => false,
            }
        },
{
    reveal_strlit("auto");
    reveal_strlit("200mA");
    assert("200mA"@.len() != "auto"@.len());
    reveal_strlit("200mA");
    assert("200mA"@.len() != "auto"@.len());
}

} // verus!
