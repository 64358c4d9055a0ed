//! What holds of the range tables, and that the value in a range command reads back as its range.

use crate::device_plugin::DeviceModel;
use crate::exact::{
    exact, lemma_apart, lemma_below, lemma_near_itself, lemma_no_number, lemma_power_spelling,
    lemma_whole_spelling, spells, Exact,
};
use crate::multimeter::MeterMode;
use crate::number::is_number;
use crate::plugins::family::DeviceFamily;
use crate::range_laws::{
    bare_name, law_spm6103_has_the_spm_ranges, lemma_found, lemma_spm_names,
    lemma_spm_unambiguous, lemma_untrimmed, lemma_without_absent, lemma_xdm_unambiguous, plain,
    unambiguous,
};
use crate::ranges::{
    by_lower_name, lemma_first_true, numeric_ranges, offers_auto, valued_range, Matching,
    RangeScale, RangeTable, Tolerance,
};
use crate::tables::{spm_table, xdm_table};
use crate::text::{
    all_ascii, eq_ignoring_case, leading, lemma_leading, lemma_leading_holds, lower, trim_start,
    white_space, words, CharClass,
};
use vstd::prelude::*;

verus! {

// ---------------------------------------------------------------------------------------------
// Order
// ---------------------------------------------------------------------------------------------

/// Whether no two ranges share a display name or a value.
pub open spec fn distinct(ranges: Seq<(Seq<char>, Seq<char>)>) -> bool {
    forall|i: int, j: int|
        0 <= i < j < ranges.len() ==> (#[trigger] ranges[i]).0 != (#[trigger] ranges[j]).0
            && ranges[i].1 != ranges[j].1
}

/// Whether automatic ranging comes first if at all, with the value `AUTO`, and the numeric values
/// increase.
pub open spec fn in_order(ranges: Seq<(Seq<char>, Seq<char>)>) -> bool {
    &&& forall|i: int|
        0 <= i < ranges.len() && (#[trigger] ranges[i]).0 == "auto"@ ==> i == 0 && ranges[i].1
            == "AUTO"@
    &&& forall|i: int, j: int|
        0 <= i < j < ranges.len() && is_number(ranges[i].1) && is_number(ranges[j].1) ==> exact(
            #[trigger] ranges[i].1,
        ).below(exact(#[trigger] ranges[j].1))
}

/// Whether every value but that of automatic ranging is a number, and no two are within a tenth of
/// each other.
pub open spec fn readable(ranges: Seq<(Seq<char>, Seq<char>)>) -> bool {
    &&& forall|i: int|
        0 <= i < ranges.len() && (#[trigger] ranges[i]).0 != "auto"@ ==> plain(ranges[i].1)
            && spells(ranges[i].1, exact(ranges[i].1))
    &&& forall|i: int, j: int|
        0 <= i < ranges.len() && 0 <= j < ranges.len() && i != j && is_number(ranges[i].1)
            && is_number(ranges[j].1) ==> !exact(#[trigger] ranges[i].1).within_a_tenth(
            exact(#[trigger] ranges[j].1),
        )
}

/// Whether a text is a word that spells a value, or no number.
#[verifier::opaque]
spec fn numeral(s: Seq<char>, value: Option<Exact>) -> bool {
    match value {
        Some(value) => spells(s, value) && plain(s),
        None => !is_number(s),
    }
}

/// Whether the values that there are increase.
spec fn increasing(values: Seq<Option<Exact>>) -> bool {
    forall|i: int, j: int|
        0 <= i < j < values.len() && values[i] is Some && values[j] is Some ==> (
        #[trigger] values[i])->0.below((#[trigger] values[j])->0)
}

/// Whether no two of the values that there are come within a tenth of each other.
spec fn apart(values: Seq<Option<Exact>>) -> bool {
    forall|i: int, j: int|
        0 <= i < values.len() && 0 <= j < values.len() && i != j && values[i] is Some
            && values[j] is Some ==> !(#[trigger] values[i])->0.within_a_tenth(
            (#[trigger] values[j])->0,
        )
}

/// `AUTO` is no number.
proof fn lemma_numeral_auto()
    ensures
        numeral("AUTO"@, None),
{
    reveal(numeral);
    reveal_strlit("AUTO");
    lemma_no_number("AUTO"@);
}

/// The value of `50E-3`.
proof fn lemma_numeral_50e_minus_3()
    ensures
        numeral("50E-3"@, Some(Exact { mantissa: 50, power: -3 })),
{
    reveal(numeral);
    reveal_strlit("50E-3");
    lemma_power_spelling("50E-3"@, 2);
}

/// The value of `500E-3`.
proof fn lemma_numeral_500e_minus_3()
    ensures
        numeral("500E-3"@, Some(Exact { mantissa: 500, power: -3 })),
{
    reveal(numeral);
    reveal_strlit("500E-3");
    lemma_power_spelling("500E-3"@, 3);
}

/// The value of `5`.
proof fn lemma_numeral_5()
    ensures
        numeral("5"@, Some(Exact { mantissa: 5, power: 0 })),
{
    reveal(numeral);
    reveal_strlit("5");
    lemma_whole_spelling("5"@);
}

/// The value of `50`.
proof fn lemma_numeral_50()
    ensures
        numeral("50"@, Some(Exact { mantissa: 50, power: 0 })),
{
    reveal(numeral);
    reveal_strlit("50");
    lemma_whole_spelling("50"@);
}

/// The value of `500`.
proof fn lemma_numeral_500()
    ensures
        numeral("500"@, Some(Exact { mantissa: 500, power: 0 })),
{
    reveal(numeral);
    reveal_strlit("500");
    lemma_whole_spelling("500"@);
}

/// The value of `1000`.
proof fn lemma_numeral_1000()
    ensures
        numeral("1000"@, Some(Exact { mantissa: 1000, power: 0 })),
{
    reveal(numeral);
    reveal_strlit("1000");
    lemma_whole_spelling("1000"@);
}

/// The value of `750`.
proof fn lemma_numeral_750()
    ensures
        numeral("750"@, Some(Exact { mantissa: 750, power: 0 })),
{
    reveal(numeral);
    reveal_strlit("750");
    lemma_whole_spelling("750"@);
}

/// The value of `500E-6`.
proof fn lemma_numeral_500e_minus_6()
    ensures
        numeral("500E-6"@, Some(Exact { mantissa: 500, power: -6 })),
{
    reveal(numeral);
    reveal_strlit("500E-6");
    lemma_power_spelling("500E-6"@, 3);
}

/// The value of `5E-3`.
proof fn lemma_numeral_5e_minus_3()
    ensures
        numeral("5E-3"@, Some(Exact { mantissa: 5, power: -3 })),
{
    reveal(numeral);
    reveal_strlit("5E-3");
    lemma_power_spelling("5E-3"@, 1);
}

/// The value of `10`.
proof fn lemma_numeral_10()
    ensures
        numeral("10"@, Some(Exact { mantissa: 10, power: 0 })),
{
    reveal(numeral);
    reveal_strlit("10");
    lemma_whole_spelling("10"@);
}

/// The value of `5E3`.
proof fn lemma_numeral_5e3()
    ensures
        numeral("5E3"@, Some(Exact { mantissa: 5, power: 3 })),
{
    reveal(numeral);
    reveal_strlit("5E3");
    lemma_power_spelling("5E3"@, 1);
}

/// The value of `50E3`.
proof fn lemma_numeral_50e3()
    ensures
        numeral("50E3"@, Some(Exact { mantissa: 50, power: 3 })),
{
    reveal(numeral);
    reveal_strlit("50E3");
    lemma_power_spelling("50E3"@, 2);
}

/// The value of `500E3`.
proof fn lemma_numeral_500e3()
    ensures
        numeral("500E3"@, Some(Exact { mantissa: 500, power: 3 })),
{
    reveal(numeral);
    reveal_strlit("500E3");
    lemma_power_spelling("500E3"@, 3);
}

/// The value of `5E6`.
proof fn lemma_numeral_5e6()
    ensures
        numeral("5E6"@, Some(Exact { mantissa: 5, power: 6 })),
{
    reveal(numeral);
    reveal_strlit("5E6");
    lemma_power_spelling("5E6"@, 1);
}

/// The value of `50E6`.
proof fn lemma_numeral_50e6()
    ensures
        numeral("50E6"@, Some(Exact { mantissa: 50, power: 6 })),
{
    reveal(numeral);
    reveal_strlit("50E6");
    lemma_power_spelling("50E6"@, 2);
}

/// The value of `50E-9`.
proof fn lemma_numeral_50e_minus_9()
    ensures
        numeral("50E-9"@, Some(Exact { mantissa: 50, power: -9 })),
{
    reveal(numeral);
    reveal_strlit("50E-9");
    lemma_power_spelling("50E-9"@, 2);
}

/// The value of `500E-9`.
proof fn lemma_numeral_500e_minus_9()
    ensures
        numeral("500E-9"@, Some(Exact { mantissa: 500, power: -9 })),
{
    reveal(numeral);
    reveal_strlit("500E-9");
    lemma_power_spelling("500E-9"@, 3);
}

/// The value of `5E-6`.
proof fn lemma_numeral_5e_minus_6()
    ensures
        numeral("5E-6"@, Some(Exact { mantissa: 5, power: -6 })),
{
    reveal(numeral);
    reveal_strlit("5E-6");
    lemma_power_spelling("5E-6"@, 1);
}

/// The value of `50E-6`.
proof fn lemma_numeral_50e_minus_6()
    ensures
        numeral("50E-6"@, Some(Exact { mantissa: 50, power: -6 })),
{
    reveal(numeral);
    reveal_strlit("50E-6");
    lemma_power_spelling("50E-6"@, 2);
}

/// `PT100` is no number.
proof fn lemma_numeral_pt100()
    ensures
        numeral("PT100"@, None),
{
    reveal(numeral);
    reveal_strlit("PT100");
    lemma_no_number("PT100"@);
}

/// `KITS90` is no number.
proof fn lemma_numeral_kits90()
    ensures
        numeral("KITS90"@, None),
{
    reveal(numeral);
    reveal_strlit("KITS90");
    lemma_no_number("KITS90"@);
}

/// The value of `200E-3`.
proof fn lemma_numeral_200e_minus_3()
    ensures
        numeral("200E-3"@, Some(Exact { mantissa: 200, power: -3 })),
{
    reveal(numeral);
    reveal_strlit("200E-3");
    lemma_power_spelling("200E-3"@, 3);
}

/// The value of `2`.
proof fn lemma_numeral_2()
    ensures
        numeral("2"@, Some(Exact { mantissa: 2, power: 0 })),
{
    reveal(numeral);
    reveal_strlit("2");
    lemma_whole_spelling("2"@);
}

/// The value of `20`.
proof fn lemma_numeral_20()
    ensures
        numeral("20"@, Some(Exact { mantissa: 20, power: 0 })),
{
    reveal(numeral);
    reveal_strlit("20");
    lemma_whole_spelling("20"@);
}

/// The value of `200`.
proof fn lemma_numeral_200()
    ensures
        numeral("200"@, Some(Exact { mantissa: 200, power: 0 })),
{
    reveal(numeral);
    reveal_strlit("200");
    lemma_whole_spelling("200"@);
}

/// The value of `2E3`.
proof fn lemma_numeral_2e3()
    ensures
        numeral("2E3"@, Some(Exact { mantissa: 2, power: 3 })),
{
    reveal(numeral);
    reveal_strlit("2E3");
    lemma_power_spelling("2E3"@, 1);
}

/// The value of `20E3`.
proof fn lemma_numeral_20e3()
    ensures
        numeral("20E3"@, Some(Exact { mantissa: 20, power: 3 })),
{
    reveal(numeral);
    reveal_strlit("20E3");
    lemma_power_spelling("20E3"@, 2);
}

/// The value of `200E3`.
proof fn lemma_numeral_200e3()
    ensures
        numeral("200E3"@, Some(Exact { mantissa: 200, power: 3 })),
{
    reveal(numeral);
    reveal_strlit("200E3");
    lemma_power_spelling("200E3"@, 3);
}

/// The value of `2E6`.
proof fn lemma_numeral_2e6()
    ensures
        numeral("2E6"@, Some(Exact { mantissa: 2, power: 6 })),
{
    reveal(numeral);
    reveal_strlit("2E6");
    lemma_power_spelling("2E6"@, 1);
}

/// The value of `20E6`.
proof fn lemma_numeral_20e6()
    ensures
        numeral("20E6"@, Some(Exact { mantissa: 20, power: 6 })),
{
    reveal(numeral);
    reveal_strlit("20E6");
    lemma_power_spelling("20E6"@, 2);
}

/// The value of `100E6`.
proof fn lemma_numeral_100e6()
    ensures
        numeral("100E6"@, Some(Exact { mantissa: 100, power: 6 })),
{
    reveal(numeral);
    reveal_strlit("100E6");
    lemma_power_spelling("100E6"@, 3);
}

/// Order of the values is order of the ranges.
proof fn lemma_in_order(ranges: Seq<(Seq<char>, Seq<char>)>, values: Seq<Option<Exact>>)
    requires
        values.len() == ranges.len(),
        forall|i: int| 0 <= i < ranges.len() ==> numeral((#[trigger] ranges[i]).1, values[i]),
        forall|i: int|
            0 <= i < ranges.len() && (#[trigger] ranges[i]).0 == "auto"@ ==> i == 0 && ranges[i].1
                == "AUTO"@,
        increasing(values),
    ensures
        in_order(ranges),
{
    reveal(numeral);
    assert forall|i: int, j: int|
        0 <= i < j < ranges.len() && is_number(ranges[i].1) && is_number(
            ranges[j].1,
        ) implies exact(#[trigger] ranges[i].1).below(exact(#[trigger] ranges[j].1)) by {
        assert(numeral(ranges[i].1, values[i]) && numeral(ranges[j].1, values[j]));
        assert(values[i]->0.below(values[j]->0));
    }
}

/// Values that are words and apart make the ranges readable.
proof fn lemma_readable(ranges: Seq<(Seq<char>, Seq<char>)>, values: Seq<Option<Exact>>)
    requires
        values.len() == ranges.len(),
        forall|i: int| 0 <= i < ranges.len() ==> numeral((#[trigger] ranges[i]).1, values[i]),
        forall|i: int|
            0 <= i < ranges.len() && (#[trigger] ranges[i]).0 != "auto"@ ==> values[i] is Some,
        apart(values),
    ensures
        readable(ranges),
{
    reveal(numeral);
    assert forall|i: int, j: int|
        0 <= i < ranges.len() && 0 <= j < ranges.len() && i != j && is_number(ranges[i].1)
            && is_number(ranges[j].1) implies !exact(#[trigger] ranges[i].1).within_a_tenth(
        exact(#[trigger] ranges[j].1),
    ) by {
        assert(numeral(ranges[i].1, values[i]) && numeral(ranges[j].1, values[j]));
        assert(!values[i]->0.within_a_tenth(values[j]->0));
    }
}

/// The XDM ranges of a mode are in order.
proof fn lemma_xdm_in_order(mode: MeterMode)
    ensures
        xdm_table(mode) matches Some(table) ==> in_order(table.ranges),
{
    match mode {
        MeterMode::Vdc => lemma_xdm_vdc(),
        MeterMode::Vac => lemma_xdm_vac(),
        MeterMode::Adc | MeterMode::Aac => lemma_xdm_current(),
        MeterMode::Res => lemma_xdm_res(),
        MeterMode::Cap => lemma_xdm_cap(),
        MeterMode::Temp => lemma_xdm_temp(),
        _ => {},
    }
}

/// The XDM ranges for DC voltage are in order.
proof fn lemma_xdm_vdc()
    ensures
        in_order(xdm_table(MeterMode::Vdc)->0.ranges),
{
    let ranges = xdm_table(MeterMode::Vdc)->0.ranges;
    let values: Seq<Option<Exact>> = seq![
        None,
        Some(Exact { mantissa: 50, power: -3 }),
        Some(Exact { mantissa: 500, power: -3 }),
        Some(Exact { mantissa: 5, power: 0 }),
        Some(Exact { mantissa: 50, power: 0 }),
        Some(Exact { mantissa: 500, power: 0 }),
        Some(Exact { mantissa: 1000, power: 0 }),
    ];
    lemma_numeral_auto();
    lemma_numeral_50e_minus_3();
    lemma_numeral_500e_minus_3();
    lemma_numeral_5();
    lemma_numeral_50();
    lemma_numeral_500();
    lemma_numeral_1000();
    assert("50mV"@ != "auto"@) by {
        reveal_strlit("50mV");
        reveal_strlit("auto");
        assert("50mV"@[0] != "auto"@[0]);
    }
    assert("500mV"@ != "auto"@) by {
        reveal_strlit("500mV");
        reveal_strlit("auto");
        assert("500mV"@[0] != "auto"@[0]);
    }
    assert("5V"@ != "auto"@) by {
        reveal_strlit("5V");
        reveal_strlit("auto");
        assert("5V"@[0] != "auto"@[0]);
    }
    assert("50V"@ != "auto"@) by {
        reveal_strlit("50V");
        reveal_strlit("auto");
        assert("50V"@[0] != "auto"@[0]);
    }
    assert("500V"@ != "auto"@) by {
        reveal_strlit("500V");
        reveal_strlit("auto");
        assert("500V"@[0] != "auto"@[0]);
    }
    assert("1000V"@ != "auto"@) by {
        reveal_strlit("1000V");
        reveal_strlit("auto");
        assert("1000V"@[0] != "auto"@[0]);
    }
    assert(increasing(values)) by {
        lemma_below(Exact { mantissa: 50, power: -3 }, Exact { mantissa: 500, power: -3 });
        lemma_below(Exact { mantissa: 50, power: -3 }, Exact { mantissa: 5, power: 0 });
        lemma_below(Exact { mantissa: 50, power: -3 }, Exact { mantissa: 50, power: 0 });
        lemma_below(Exact { mantissa: 50, power: -3 }, Exact { mantissa: 500, power: 0 });
        lemma_below(Exact { mantissa: 50, power: -3 }, Exact { mantissa: 1000, power: 0 });
        lemma_below(Exact { mantissa: 500, power: -3 }, Exact { mantissa: 5, power: 0 });
        lemma_below(Exact { mantissa: 500, power: -3 }, Exact { mantissa: 50, power: 0 });
        lemma_below(Exact { mantissa: 500, power: -3 }, Exact { mantissa: 500, power: 0 });
        lemma_below(Exact { mantissa: 500, power: -3 }, Exact { mantissa: 1000, power: 0 });
        lemma_below(Exact { mantissa: 5, power: 0 }, Exact { mantissa: 50, power: 0 });
        lemma_below(Exact { mantissa: 5, power: 0 }, Exact { mantissa: 500, power: 0 });
        lemma_below(Exact { mantissa: 5, power: 0 }, Exact { mantissa: 1000, power: 0 });
        lemma_below(Exact { mantissa: 50, power: 0 }, Exact { mantissa: 500, power: 0 });
        lemma_below(Exact { mantissa: 50, power: 0 }, Exact { mantissa: 1000, power: 0 });
        lemma_below(Exact { mantissa: 500, power: 0 }, Exact { mantissa: 1000, power: 0 });
    }
    lemma_in_order(ranges, values);
}

/// The XDM ranges for AC voltage are in order.
proof fn lemma_xdm_vac()
    ensures
        in_order(xdm_table(MeterMode::Vac)->0.ranges),
{
    let ranges = xdm_table(MeterMode::Vac)->0.ranges;
    let values: Seq<Option<Exact>> = seq![
        None,
        Some(Exact { mantissa: 500, power: -3 }),
        Some(Exact { mantissa: 5, power: 0 }),
        Some(Exact { mantissa: 50, power: 0 }),
        Some(Exact { mantissa: 500, power: 0 }),
        Some(Exact { mantissa: 750, power: 0 }),
    ];
    lemma_numeral_auto();
    lemma_numeral_500e_minus_3();
    lemma_numeral_5();
    lemma_numeral_50();
    lemma_numeral_500();
    lemma_numeral_750();
    assert("500mV"@ != "auto"@) by {
        reveal_strlit("500mV");
        reveal_strlit("auto");
        assert("500mV"@[0] != "auto"@[0]);
    }
    assert("5V"@ != "auto"@) by {
        reveal_strlit("5V");
        reveal_strlit("auto");
        assert("5V"@[0] != "auto"@[0]);
    }
    assert("50V"@ != "auto"@) by {
        reveal_strlit("50V");
        reveal_strlit("auto");
        assert("50V"@[0] != "auto"@[0]);
    }
    assert("500V"@ != "auto"@) by {
        reveal_strlit("500V");
        reveal_strlit("auto");
        assert("500V"@[0] != "auto"@[0]);
    }
    assert("750V"@ != "auto"@) by {
        reveal_strlit("750V");
        reveal_strlit("auto");
        assert("750V"@[0] != "auto"@[0]);
    }
    assert(increasing(values)) by {
        lemma_below(Exact { mantissa: 500, power: -3 }, Exact { mantissa: 5, power: 0 });
        lemma_below(Exact { mantissa: 500, power: -3 }, Exact { mantissa: 50, power: 0 });
        lemma_below(Exact { mantissa: 500, power: -3 }, Exact { mantissa: 500, power: 0 });
        lemma_below(Exact { mantissa: 500, power: -3 }, Exact { mantissa: 750, power: 0 });
        lemma_below(Exact { mantissa: 5, power: 0 }, Exact { mantissa: 50, power: 0 });
        lemma_below(Exact { mantissa: 5, power: 0 }, Exact { mantissa: 500, power: 0 });
        lemma_below(Exact { mantissa: 5, power: 0 }, Exact { mantissa: 750, power: 0 });
        lemma_below(Exact { mantissa: 50, power: 0 }, Exact { mantissa: 500, power: 0 });
        lemma_below(Exact { mantissa: 50, power: 0 }, Exact { mantissa: 750, power: 0 });
        lemma_below(Exact { mantissa: 500, power: 0 }, Exact { mantissa: 750, power: 0 });
    }
    lemma_in_order(ranges, values);
}

/// The XDM ranges for current, DC and AC, are in order.
proof fn lemma_xdm_current()
    ensures
        in_order(xdm_table(MeterMode::Adc)->0.ranges),
        in_order(xdm_table(MeterMode::Aac)->0.ranges),
{
    let ranges = xdm_table(MeterMode::Adc)->0.ranges;
    let values: Seq<Option<Exact>> = seq![
        Some(Exact { mantissa: 500, power: -6 }),
        Some(Exact { mantissa: 5, power: -3 }),
        Some(Exact { mantissa: 50, power: -3 }),
        Some(Exact { mantissa: 500, power: -3 }),
        Some(Exact { mantissa: 5, power: 0 }),
        Some(Exact { mantissa: 10, power: 0 }),
    ];
    lemma_numeral_500e_minus_6();
    lemma_numeral_5e_minus_3();
    lemma_numeral_50e_minus_3();
    lemma_numeral_500e_minus_3();
    lemma_numeral_5();
    lemma_numeral_10();
    assert("500uA"@ != "auto"@) by {
        reveal_strlit("500uA");
        reveal_strlit("auto");
        assert("500uA"@[0] != "auto"@[0]);
    }
    assert("5mA"@ != "auto"@) by {
        reveal_strlit("5mA");
        reveal_strlit("auto");
        assert("5mA"@[0] != "auto"@[0]);
    }
    assert("50mA"@ != "auto"@) by {
        reveal_strlit("50mA");
        reveal_strlit("auto");
        assert("50mA"@[0] != "auto"@[0]);
    }
    assert("500mA"@ != "auto"@) by {
        reveal_strlit("500mA");
        reveal_strlit("auto");
        assert("500mA"@[0] != "auto"@[0]);
    }
    assert("5A"@ != "auto"@) by {
        reveal_strlit("5A");
        reveal_strlit("auto");
        assert("5A"@[0] != "auto"@[0]);
    }
    assert("10A"@ != "auto"@) by {
        reveal_strlit("10A");
        reveal_strlit("auto");
        assert("10A"@[0] != "auto"@[0]);
    }
    assert(increasing(values)) by {
        lemma_below(Exact { mantissa: 500, power: -6 }, Exact { mantissa: 5, power: -3 });
        lemma_below(Exact { mantissa: 500, power: -6 }, Exact { mantissa: 50, power: -3 });
        lemma_below(Exact { mantissa: 500, power: -6 }, Exact { mantissa: 500, power: -3 });
        lemma_below(Exact { mantissa: 500, power: -6 }, Exact { mantissa: 5, power: 0 });
        lemma_below(Exact { mantissa: 500, power: -6 }, Exact { mantissa: 10, power: 0 });
        lemma_below(Exact { mantissa: 5, power: -3 }, Exact { mantissa: 50, power: -3 });
        lemma_below(Exact { mantissa: 5, power: -3 }, Exact { mantissa: 500, power: -3 });
        lemma_below(Exact { mantissa: 5, power: -3 }, Exact { mantissa: 5, power: 0 });
        lemma_below(Exact { mantissa: 5, power: -3 }, Exact { mantissa: 10, power: 0 });
        lemma_below(Exact { mantissa: 50, power: -3 }, Exact { mantissa: 500, power: -3 });
        lemma_below(Exact { mantissa: 50, power: -3 }, Exact { mantissa: 5, power: 0 });
        lemma_below(Exact { mantissa: 50, power: -3 }, Exact { mantissa: 10, power: 0 });
        lemma_below(Exact { mantissa: 500, power: -3 }, Exact { mantissa: 5, power: 0 });
        lemma_below(Exact { mantissa: 500, power: -3 }, Exact { mantissa: 10, power: 0 });
        lemma_below(Exact { mantissa: 5, power: 0 }, Exact { mantissa: 10, power: 0 });
    }
    lemma_in_order(ranges, values);
    assert(xdm_table(MeterMode::Aac)->0.ranges =~= xdm_table(MeterMode::Adc)->0.ranges);
}

/// The XDM ranges for resistance are in order.
proof fn lemma_xdm_res()
    ensures
        in_order(xdm_table(MeterMode::Res)->0.ranges),
{
    let ranges = xdm_table(MeterMode::Res)->0.ranges;
    let values: Seq<Option<Exact>> = seq![
        None,
        Some(Exact { mantissa: 500, power: 0 }),
        Some(Exact { mantissa: 5, power: 3 }),
        Some(Exact { mantissa: 50, power: 3 }),
        Some(Exact { mantissa: 500, power: 3 }),
        Some(Exact { mantissa: 5, power: 6 }),
        Some(Exact { mantissa: 50, power: 6 }),
    ];
    lemma_numeral_auto();
    lemma_numeral_500();
    lemma_numeral_5e3();
    lemma_numeral_50e3();
    lemma_numeral_500e3();
    lemma_numeral_5e6();
    lemma_numeral_50e6();
    assert("500Ohm"@ != "auto"@) by {
        reveal_strlit("500Ohm");
        reveal_strlit("auto");
        assert("500Ohm"@[0] != "auto"@[0]);
    }
    assert("5kOhm"@ != "auto"@) by {
        reveal_strlit("5kOhm");
        reveal_strlit("auto");
        assert("5kOhm"@[0] != "auto"@[0]);
    }
    assert("50kOhm"@ != "auto"@) by {
        reveal_strlit("50kOhm");
        reveal_strlit("auto");
        assert("50kOhm"@[0] != "auto"@[0]);
    }
    assert("500kOhm"@ != "auto"@) by {
        reveal_strlit("500kOhm");
        reveal_strlit("auto");
        assert("500kOhm"@[0] != "auto"@[0]);
    }
    assert("5MOhm"@ != "auto"@) by {
        reveal_strlit("5MOhm");
        reveal_strlit("auto");
        assert("5MOhm"@[0] != "auto"@[0]);
    }
    assert("50MOhm"@ != "auto"@) by {
        reveal_strlit("50MOhm");
        reveal_strlit("auto");
        assert("50MOhm"@[0] != "auto"@[0]);
    }
    assert(increasing(values)) by {
        lemma_below(Exact { mantissa: 500, power: 0 }, Exact { mantissa: 5, power: 3 });
        lemma_below(Exact { mantissa: 500, power: 0 }, Exact { mantissa: 50, power: 3 });
        lemma_below(Exact { mantissa: 500, power: 0 }, Exact { mantissa: 500, power: 3 });
        lemma_below(Exact { mantissa: 500, power: 0 }, Exact { mantissa: 5, power: 6 });
        lemma_below(Exact { mantissa: 500, power: 0 }, Exact { mantissa: 50, power: 6 });
        lemma_below(Exact { mantissa: 5, power: 3 }, Exact { mantissa: 50, power: 3 });
        lemma_below(Exact { mantissa: 5, power: 3 }, Exact { mantissa: 500, power: 3 });
        lemma_below(Exact { mantissa: 5, power: 3 }, Exact { mantissa: 5, power: 6 });
        lemma_below(Exact { mantissa: 5, power: 3 }, Exact { mantissa: 50, power: 6 });
        lemma_below(Exact { mantissa: 50, power: 3 }, Exact { mantissa: 500, power: 3 });
        lemma_below(Exact { mantissa: 50, power: 3 }, Exact { mantissa: 5, power: 6 });
        lemma_below(Exact { mantissa: 50, power: 3 }, Exact { mantissa: 50, power: 6 });
        lemma_below(Exact { mantissa: 500, power: 3 }, Exact { mantissa: 5, power: 6 });
        lemma_below(Exact { mantissa: 500, power: 3 }, Exact { mantissa: 50, power: 6 });
        lemma_below(Exact { mantissa: 5, power: 6 }, Exact { mantissa: 50, power: 6 });
    }
    lemma_in_order(ranges, values);
}

/// The XDM ranges for capacitance are in order.
proof fn lemma_xdm_cap()
    ensures
        in_order(xdm_table(MeterMode::Cap)->0.ranges),
{
    let ranges = xdm_table(MeterMode::Cap)->0.ranges;
    let values: Seq<Option<Exact>> = seq![
        None,
        Some(Exact { mantissa: 50, power: -9 }),
        Some(Exact { mantissa: 500, power: -9 }),
        Some(Exact { mantissa: 5, power: -6 }),
        Some(Exact { mantissa: 50, power: -6 }),
        Some(Exact { mantissa: 500, power: -6 }),
        Some(Exact { mantissa: 5, power: -3 }),
        Some(Exact { mantissa: 50, power: -3 }),
    ];
    lemma_numeral_auto();
    lemma_numeral_50e_minus_9();
    lemma_numeral_500e_minus_9();
    lemma_numeral_5e_minus_6();
    lemma_numeral_50e_minus_6();
    lemma_numeral_500e_minus_6();
    lemma_numeral_5e_minus_3();
    lemma_numeral_50e_minus_3();
    assert("50nF"@ != "auto"@) by {
        reveal_strlit("50nF");
        reveal_strlit("auto");
        assert("50nF"@[0] != "auto"@[0]);
    }
    assert("500nF"@ != "auto"@) by {
        reveal_strlit("500nF");
        reveal_strlit("auto");
        assert("500nF"@[0] != "auto"@[0]);
    }
    assert("5uF"@ != "auto"@) by {
        reveal_strlit("5uF");
        reveal_strlit("auto");
        assert("5uF"@[0] != "auto"@[0]);
    }
    assert("50uF"@ != "auto"@) by {
        reveal_strlit("50uF");
        reveal_strlit("auto");
        assert("50uF"@[0] != "auto"@[0]);
    }
    assert("500uF"@ != "auto"@) by {
        reveal_strlit("500uF");
        reveal_strlit("auto");
        assert("500uF"@[0] != "auto"@[0]);
    }
    assert("5mF"@ != "auto"@) by {
        reveal_strlit("5mF");
        reveal_strlit("auto");
        assert("5mF"@[0] != "auto"@[0]);
    }
    assert("50mF"@ != "auto"@) by {
        reveal_strlit("50mF");
        reveal_strlit("auto");
        assert("50mF"@[0] != "auto"@[0]);
    }
    assert(increasing(values)) by {
        lemma_below(Exact { mantissa: 50, power: -9 }, Exact { mantissa: 500, power: -9 });
        lemma_below(Exact { mantissa: 50, power: -9 }, Exact { mantissa: 5, power: -6 });
        lemma_below(Exact { mantissa: 50, power: -9 }, Exact { mantissa: 50, power: -6 });
        lemma_below(Exact { mantissa: 50, power: -9 }, Exact { mantissa: 500, power: -6 });
        lemma_below(Exact { mantissa: 50, power: -9 }, Exact { mantissa: 5, power: -3 });
        lemma_below(Exact { mantissa: 50, power: -9 }, Exact { mantissa: 50, power: -3 });
        lemma_below(Exact { mantissa: 500, power: -9 }, Exact { mantissa: 5, power: -6 });
        lemma_below(Exact { mantissa: 500, power: -9 }, Exact { mantissa: 50, power: -6 });
        lemma_below(Exact { mantissa: 500, power: -9 }, Exact { mantissa: 500, power: -6 });
        lemma_below(Exact { mantissa: 500, power: -9 }, Exact { mantissa: 5, power: -3 });
        lemma_below(Exact { mantissa: 500, power: -9 }, Exact { mantissa: 50, power: -3 });
        lemma_below(Exact { mantissa: 5, power: -6 }, Exact { mantissa: 50, power: -6 });
        lemma_below(Exact { mantissa: 5, power: -6 }, Exact { mantissa: 500, power: -6 });
        lemma_below(Exact { mantissa: 5, power: -6 }, Exact { mantissa: 5, power: -3 });
        lemma_below(Exact { mantissa: 5, power: -6 }, Exact { mantissa: 50, power: -3 });
        lemma_below(Exact { mantissa: 50, power: -6 }, Exact { mantissa: 500, power: -6 });
        lemma_below(Exact { mantissa: 50, power: -6 }, Exact { mantissa: 5, power: -3 });
        lemma_below(Exact { mantissa: 50, power: -6 }, Exact { mantissa: 50, power: -3 });
        lemma_below(Exact { mantissa: 500, power: -6 }, Exact { mantissa: 5, power: -3 });
        lemma_below(Exact { mantissa: 500, power: -6 }, Exact { mantissa: 50, power: -3 });
        lemma_below(Exact { mantissa: 5, power: -3 }, Exact { mantissa: 50, power: -3 });
    }
    lemma_in_order(ranges, values);
}

/// The XDM ranges for temperature are in order.
proof fn lemma_xdm_temp()
    ensures
        in_order(xdm_table(MeterMode::Temp)->0.ranges),
{
    let ranges = xdm_table(MeterMode::Temp)->0.ranges;
    let values: Seq<Option<Exact>> = seq![
        None,
        None,
    ];
    lemma_numeral_pt100();
    lemma_numeral_kits90();
    assert("PT100"@ != "auto"@) by {
        reveal_strlit("PT100");
        reveal_strlit("auto");
        assert("PT100"@[0] != "auto"@[0]);
    }
    assert("K-type (KITS90)"@ != "auto"@) by {
        reveal_strlit("K-type (KITS90)");
        reveal_strlit("auto");
        assert("K-type (KITS90)"@[0] != "auto"@[0]);
    }
    assert(increasing(values)) by {
    }
    lemma_in_order(ranges, values);
}

/// The SPM ranges of a mode are in order.
proof fn lemma_spm_in_order(mode: MeterMode)
    ensures
        spm_table(mode) matches Some(table) ==> in_order(table.ranges) && readable(table.ranges),
{
    match mode {
        MeterMode::Vdc => lemma_spm_vdc(),
        MeterMode::Vac => lemma_spm_vac(),
        MeterMode::Adc | MeterMode::Aac => lemma_spm_current(),
        MeterMode::Res => lemma_spm_res(),
        MeterMode::Cap => lemma_spm_cap(),
        _ => {},
    }
}

/// The SPM ranges for DC voltage are in order.
proof fn lemma_spm_vdc()
    ensures
        in_order(spm_table(MeterMode::Vdc)->0.ranges),
        readable(spm_table(MeterMode::Vdc)->0.ranges),
{
    let ranges = spm_table(MeterMode::Vdc)->0.ranges;
    let values: Seq<Option<Exact>> = seq![
        None,
        Some(Exact { mantissa: 200, power: -3 }),
        Some(Exact { mantissa: 2, power: 0 }),
        Some(Exact { mantissa: 20, power: 0 }),
        Some(Exact { mantissa: 200, power: 0 }),
        Some(Exact { mantissa: 1000, power: 0 }),
    ];
    lemma_numeral_auto();
    lemma_numeral_200e_minus_3();
    lemma_numeral_2();
    lemma_numeral_20();
    lemma_numeral_200();
    lemma_numeral_1000();
    assert("200mV"@ != "auto"@) by {
        reveal_strlit("200mV");
        reveal_strlit("auto");
        assert("200mV"@[0] != "auto"@[0]);
    }
    assert("2V"@ != "auto"@) by {
        reveal_strlit("2V");
        reveal_strlit("auto");
        assert("2V"@[0] != "auto"@[0]);
    }
    assert("20V"@ != "auto"@) by {
        reveal_strlit("20V");
        reveal_strlit("auto");
        assert("20V"@[0] != "auto"@[0]);
    }
    assert("200V"@ != "auto"@) by {
        reveal_strlit("200V");
        reveal_strlit("auto");
        assert("200V"@[0] != "auto"@[0]);
    }
    assert("1000V"@ != "auto"@) by {
        reveal_strlit("1000V");
        reveal_strlit("auto");
        assert("1000V"@[0] != "auto"@[0]);
    }
    assert(increasing(values)) by {
        lemma_below(Exact { mantissa: 200, power: -3 }, Exact { mantissa: 2, power: 0 });
        lemma_below(Exact { mantissa: 200, power: -3 }, Exact { mantissa: 20, power: 0 });
        lemma_below(Exact { mantissa: 200, power: -3 }, Exact { mantissa: 200, power: 0 });
        lemma_below(Exact { mantissa: 200, power: -3 }, Exact { mantissa: 1000, power: 0 });
        lemma_below(Exact { mantissa: 2, power: 0 }, Exact { mantissa: 20, power: 0 });
        lemma_below(Exact { mantissa: 2, power: 0 }, Exact { mantissa: 200, power: 0 });
        lemma_below(Exact { mantissa: 2, power: 0 }, Exact { mantissa: 1000, power: 0 });
        lemma_below(Exact { mantissa: 20, power: 0 }, Exact { mantissa: 200, power: 0 });
        lemma_below(Exact { mantissa: 20, power: 0 }, Exact { mantissa: 1000, power: 0 });
        lemma_below(Exact { mantissa: 200, power: 0 }, Exact { mantissa: 1000, power: 0 });
    }
    lemma_in_order(ranges, values);
    assert(apart(values)) by {
        lemma_apart(Exact { mantissa: 200, power: -3 }, Exact { mantissa: 2, power: 0 });
        lemma_apart(Exact { mantissa: 200, power: -3 }, Exact { mantissa: 20, power: 0 });
        lemma_apart(Exact { mantissa: 200, power: -3 }, Exact { mantissa: 200, power: 0 });
        lemma_apart(Exact { mantissa: 200, power: -3 }, Exact { mantissa: 1000, power: 0 });
        lemma_apart(Exact { mantissa: 2, power: 0 }, Exact { mantissa: 200, power: -3 });
        lemma_apart(Exact { mantissa: 2, power: 0 }, Exact { mantissa: 20, power: 0 });
        lemma_apart(Exact { mantissa: 2, power: 0 }, Exact { mantissa: 200, power: 0 });
        lemma_apart(Exact { mantissa: 2, power: 0 }, Exact { mantissa: 1000, power: 0 });
        lemma_apart(Exact { mantissa: 20, power: 0 }, Exact { mantissa: 200, power: -3 });
        lemma_apart(Exact { mantissa: 20, power: 0 }, Exact { mantissa: 2, power: 0 });
        lemma_apart(Exact { mantissa: 20, power: 0 }, Exact { mantissa: 200, power: 0 });
        lemma_apart(Exact { mantissa: 20, power: 0 }, Exact { mantissa: 1000, power: 0 });
        lemma_apart(Exact { mantissa: 200, power: 0 }, Exact { mantissa: 200, power: -3 });
        lemma_apart(Exact { mantissa: 200, power: 0 }, Exact { mantissa: 2, power: 0 });
        lemma_apart(Exact { mantissa: 200, power: 0 }, Exact { mantissa: 20, power: 0 });
        lemma_apart(Exact { mantissa: 200, power: 0 }, Exact { mantissa: 1000, power: 0 });
        lemma_apart(Exact { mantissa: 1000, power: 0 }, Exact { mantissa: 200, power: -3 });
        lemma_apart(Exact { mantissa: 1000, power: 0 }, Exact { mantissa: 2, power: 0 });
        lemma_apart(Exact { mantissa: 1000, power: 0 }, Exact { mantissa: 20, power: 0 });
        lemma_apart(Exact { mantissa: 1000, power: 0 }, Exact { mantissa: 200, power: 0 });
    }
    lemma_readable(ranges, values);
}

/// The SPM ranges for AC voltage are in order.
proof fn lemma_spm_vac()
    ensures
        in_order(spm_table(MeterMode::Vac)->0.ranges),
        readable(spm_table(MeterMode::Vac)->0.ranges),
{
    let ranges = spm_table(MeterMode::Vac)->0.ranges;
    let values: Seq<Option<Exact>> = seq![
        None,
        Some(Exact { mantissa: 200, power: -3 }),
        Some(Exact { mantissa: 2, power: 0 }),
        Some(Exact { mantissa: 20, power: 0 }),
        Some(Exact { mantissa: 200, power: 0 }),
        Some(Exact { mantissa: 750, power: 0 }),
    ];
    lemma_numeral_auto();
    lemma_numeral_200e_minus_3();
    lemma_numeral_2();
    lemma_numeral_20();
    lemma_numeral_200();
    lemma_numeral_750();
    assert("200mV"@ != "auto"@) by {
        reveal_strlit("200mV");
        reveal_strlit("auto");
        assert("200mV"@[0] != "auto"@[0]);
    }
    assert("2V"@ != "auto"@) by {
        reveal_strlit("2V");
        reveal_strlit("auto");
        assert("2V"@[0] != "auto"@[0]);
    }
    assert("20V"@ != "auto"@) by {
        reveal_strlit("20V");
        reveal_strlit("auto");
        assert("20V"@[0] != "auto"@[0]);
    }
    assert("200V"@ != "auto"@) by {
        reveal_strlit("200V");
        reveal_strlit("auto");
        assert("200V"@[0] != "auto"@[0]);
    }
    assert("750V"@ != "auto"@) by {
        reveal_strlit("750V");
        reveal_strlit("auto");
        assert("750V"@[0] != "auto"@[0]);
    }
    assert(increasing(values)) by {
        lemma_below(Exact { mantissa: 200, power: -3 }, Exact { mantissa: 2, power: 0 });
        lemma_below(Exact { mantissa: 200, power: -3 }, Exact { mantissa: 20, power: 0 });
        lemma_below(Exact { mantissa: 200, power: -3 }, Exact { mantissa: 200, power: 0 });
        lemma_below(Exact { mantissa: 200, power: -3 }, Exact { mantissa: 750, power: 0 });
        lemma_below(Exact { mantissa: 2, power: 0 }, Exact { mantissa: 20, power: 0 });
        lemma_below(Exact { mantissa: 2, power: 0 }, Exact { mantissa: 200, power: 0 });
        lemma_below(Exact { mantissa: 2, power: 0 }, Exact { mantissa: 750, power: 0 });
        lemma_below(Exact { mantissa: 20, power: 0 }, Exact { mantissa: 200, power: 0 });
        lemma_below(Exact { mantissa: 20, power: 0 }, Exact { mantissa: 750, power: 0 });
        lemma_below(Exact { mantissa: 200, power: 0 }, Exact { mantissa: 750, power: 0 });
    }
    lemma_in_order(ranges, values);
    assert(apart(values)) by {
        lemma_apart(Exact { mantissa: 200, power: -3 }, Exact { mantissa: 2, power: 0 });
        lemma_apart(Exact { mantissa: 200, power: -3 }, Exact { mantissa: 20, power: 0 });
        lemma_apart(Exact { mantissa: 200, power: -3 }, Exact { mantissa: 200, power: 0 });
        lemma_apart(Exact { mantissa: 200, power: -3 }, Exact { mantissa: 750, power: 0 });
        lemma_apart(Exact { mantissa: 2, power: 0 }, Exact { mantissa: 200, power: -3 });
        lemma_apart(Exact { mantissa: 2, power: 0 }, Exact { mantissa: 20, power: 0 });
        lemma_apart(Exact { mantissa: 2, power: 0 }, Exact { mantissa: 200, power: 0 });
        lemma_apart(Exact { mantissa: 2, power: 0 }, Exact { mantissa: 750, power: 0 });
        lemma_apart(Exact { mantissa: 20, power: 0 }, Exact { mantissa: 200, power: -3 });
        lemma_apart(Exact { mantissa: 20, power: 0 }, Exact { mantissa: 2, power: 0 });
        lemma_apart(Exact { mantissa: 20, power: 0 }, Exact { mantissa: 200, power: 0 });
        lemma_apart(Exact { mantissa: 20, power: 0 }, Exact { mantissa: 750, power: 0 });
        lemma_apart(Exact { mantissa: 200, power: 0 }, Exact { mantissa: 200, power: -3 });
        lemma_apart(Exact { mantissa: 200, power: 0 }, Exact { mantissa: 2, power: 0 });
        lemma_apart(Exact { mantissa: 200, power: 0 }, Exact { mantissa: 20, power: 0 });
        lemma_apart(Exact { mantissa: 200, power: 0 }, Exact { mantissa: 750, power: 0 });
        lemma_apart(Exact { mantissa: 750, power: 0 }, Exact { mantissa: 200, power: -3 });
        lemma_apart(Exact { mantissa: 750, power: 0 }, Exact { mantissa: 2, power: 0 });
        lemma_apart(Exact { mantissa: 750, power: 0 }, Exact { mantissa: 20, power: 0 });
        lemma_apart(Exact { mantissa: 750, power: 0 }, Exact { mantissa: 200, power: 0 });
    }
    lemma_readable(ranges, values);
}

/// The SPM ranges for current, DC and AC, are in order.
proof fn lemma_spm_current()
    ensures
        in_order(spm_table(MeterMode::Adc)->0.ranges),
        readable(spm_table(MeterMode::Adc)->0.ranges),
        in_order(spm_table(MeterMode::Aac)->0.ranges),
        readable(spm_table(MeterMode::Aac)->0.ranges),
{
    let ranges = spm_table(MeterMode::Adc)->0.ranges;
    let values: Seq<Option<Exact>> = seq![
        Some(Exact { mantissa: 200, power: -3 }),
        Some(Exact { mantissa: 10, power: 0 }),
    ];
    lemma_numeral_200e_minus_3();
    lemma_numeral_10();
    assert("200mA"@ != "auto"@) by {
        reveal_strlit("200mA");
        reveal_strlit("auto");
        assert("200mA"@[0] != "auto"@[0]);
    }
    assert("10A"@ != "auto"@) by {
        reveal_strlit("10A");
        reveal_strlit("auto");
        assert("10A"@[0] != "auto"@[0]);
    }
    assert(increasing(values)) by {
        lemma_below(Exact { mantissa: 200, power: -3 }, Exact { mantissa: 10, power: 0 });
    }
    lemma_in_order(ranges, values);
    assert(apart(values)) by {
        lemma_apart(Exact { mantissa: 200, power: -3 }, Exact { mantissa: 10, power: 0 });
        lemma_apart(Exact { mantissa: 10, power: 0 }, Exact { mantissa: 200, power: -3 });
    }
    lemma_readable(ranges, values);
    assert(spm_table(MeterMode::Aac)->0.ranges =~= spm_table(MeterMode::Adc)->0.ranges);
}

/// The SPM ranges for resistance are in order.
proof fn lemma_spm_res()
    ensures
        in_order(spm_table(MeterMode::Res)->0.ranges),
        readable(spm_table(MeterMode::Res)->0.ranges),
{
    let ranges = spm_table(MeterMode::Res)->0.ranges;
    let values: Seq<Option<Exact>> = seq![
        None,
        Some(Exact { mantissa: 200, power: 0 }),
        Some(Exact { mantissa: 2, power: 3 }),
        Some(Exact { mantissa: 20, power: 3 }),
        Some(Exact { mantissa: 200, power: 3 }),
        Some(Exact { mantissa: 2, power: 6 }),
        Some(Exact { mantissa: 20, power: 6 }),
        Some(Exact { mantissa: 100, power: 6 }),
    ];
    lemma_numeral_auto();
    lemma_numeral_200();
    lemma_numeral_2e3();
    lemma_numeral_20e3();
    lemma_numeral_200e3();
    lemma_numeral_2e6();
    lemma_numeral_20e6();
    lemma_numeral_100e6();
    assert("200Ohm"@ != "auto"@) by {
        reveal_strlit("200Ohm");
        reveal_strlit("auto");
        assert("200Ohm"@[0] != "auto"@[0]);
    }
    assert("2kOhm"@ != "auto"@) by {
        reveal_strlit("2kOhm");
        reveal_strlit("auto");
        assert("2kOhm"@[0] != "auto"@[0]);
    }
    assert("20kOhm"@ != "auto"@) by {
        reveal_strlit("20kOhm");
        reveal_strlit("auto");
        assert("20kOhm"@[0] != "auto"@[0]);
    }
    assert("200kOhm"@ != "auto"@) by {
        reveal_strlit("200kOhm");
        reveal_strlit("auto");
        assert("200kOhm"@[0] != "auto"@[0]);
    }
    assert("2MOhm"@ != "auto"@) by {
        reveal_strlit("2MOhm");
        reveal_strlit("auto");
        assert("2MOhm"@[0] != "auto"@[0]);
    }
    assert("20MOhm"@ != "auto"@) by {
        reveal_strlit("20MOhm");
        reveal_strlit("auto");
        assert("20MOhm"@[0] != "auto"@[0]);
    }
    assert("100MOhm"@ != "auto"@) by {
        reveal_strlit("100MOhm");
        reveal_strlit("auto");
        assert("100MOhm"@[0] != "auto"@[0]);
    }
    assert(increasing(values)) by {
        lemma_below(Exact { mantissa: 200, power: 0 }, Exact { mantissa: 2, power: 3 });
        lemma_below(Exact { mantissa: 200, power: 0 }, Exact { mantissa: 20, power: 3 });
        lemma_below(Exact { mantissa: 200, power: 0 }, Exact { mantissa: 200, power: 3 });
        lemma_below(Exact { mantissa: 200, power: 0 }, Exact { mantissa: 2, power: 6 });
        lemma_below(Exact { mantissa: 200, power: 0 }, Exact { mantissa: 20, power: 6 });
        lemma_below(Exact { mantissa: 200, power: 0 }, Exact { mantissa: 100, power: 6 });
        lemma_below(Exact { mantissa: 2, power: 3 }, Exact { mantissa: 20, power: 3 });
        lemma_below(Exact { mantissa: 2, power: 3 }, Exact { mantissa: 200, power: 3 });
        lemma_below(Exact { mantissa: 2, power: 3 }, Exact { mantissa: 2, power: 6 });
        lemma_below(Exact { mantissa: 2, power: 3 }, Exact { mantissa: 20, power: 6 });
        lemma_below(Exact { mantissa: 2, power: 3 }, Exact { mantissa: 100, power: 6 });
        lemma_below(Exact { mantissa: 20, power: 3 }, Exact { mantissa: 200, power: 3 });
        lemma_below(Exact { mantissa: 20, power: 3 }, Exact { mantissa: 2, power: 6 });
        lemma_below(Exact { mantissa: 20, power: 3 }, Exact { mantissa: 20, power: 6 });
        lemma_below(Exact { mantissa: 20, power: 3 }, Exact { mantissa: 100, power: 6 });
        lemma_below(Exact { mantissa: 200, power: 3 }, Exact { mantissa: 2, power: 6 });
        lemma_below(Exact { mantissa: 200, power: 3 }, Exact { mantissa: 20, power: 6 });
        lemma_below(Exact { mantissa: 200, power: 3 }, Exact { mantissa: 100, power: 6 });
        lemma_below(Exact { mantissa: 2, power: 6 }, Exact { mantissa: 20, power: 6 });
        lemma_below(Exact { mantissa: 2, power: 6 }, Exact { mantissa: 100, power: 6 });
        lemma_below(Exact { mantissa: 20, power: 6 }, Exact { mantissa: 100, power: 6 });
    }
    lemma_in_order(ranges, values);
    assert(apart(values)) by {
        lemma_apart(Exact { mantissa: 200, power: 0 }, Exact { mantissa: 2, power: 3 });
        lemma_apart(Exact { mantissa: 200, power: 0 }, Exact { mantissa: 20, power: 3 });
        lemma_apart(Exact { mantissa: 200, power: 0 }, Exact { mantissa: 200, power: 3 });
        lemma_apart(Exact { mantissa: 200, power: 0 }, Exact { mantissa: 2, power: 6 });
        lemma_apart(Exact { mantissa: 200, power: 0 }, Exact { mantissa: 20, power: 6 });
        lemma_apart(Exact { mantissa: 200, power: 0 }, Exact { mantissa: 100, power: 6 });
        lemma_apart(Exact { mantissa: 2, power: 3 }, Exact { mantissa: 200, power: 0 });
        lemma_apart(Exact { mantissa: 2, power: 3 }, Exact { mantissa: 20, power: 3 });
        lemma_apart(Exact { mantissa: 2, power: 3 }, Exact { mantissa: 200, power: 3 });
        lemma_apart(Exact { mantissa: 2, power: 3 }, Exact { mantissa: 2, power: 6 });
        lemma_apart(Exact { mantissa: 2, power: 3 }, Exact { mantissa: 20, power: 6 });
        lemma_apart(Exact { mantissa: 2, power: 3 }, Exact { mantissa: 100, power: 6 });
        lemma_apart(Exact { mantissa: 20, power: 3 }, Exact { mantissa: 200, power: 0 });
        lemma_apart(Exact { mantissa: 20, power: 3 }, Exact { mantissa: 2, power: 3 });
        lemma_apart(Exact { mantissa: 20, power: 3 }, Exact { mantissa: 200, power: 3 });
        lemma_apart(Exact { mantissa: 20, power: 3 }, Exact { mantissa: 2, power: 6 });
        lemma_apart(Exact { mantissa: 20, power: 3 }, Exact { mantissa: 20, power: 6 });
        lemma_apart(Exact { mantissa: 20, power: 3 }, Exact { mantissa: 100, power: 6 });
        lemma_apart(Exact { mantissa: 200, power: 3 }, Exact { mantissa: 200, power: 0 });
        lemma_apart(Exact { mantissa: 200, power: 3 }, Exact { mantissa: 2, power: 3 });
        lemma_apart(Exact { mantissa: 200, power: 3 }, Exact { mantissa: 20, power: 3 });
        lemma_apart(Exact { mantissa: 200, power: 3 }, Exact { mantissa: 2, power: 6 });
        lemma_apart(Exact { mantissa: 200, power: 3 }, Exact { mantissa: 20, power: 6 });
        lemma_apart(Exact { mantissa: 200, power: 3 }, Exact { mantissa: 100, power: 6 });
        lemma_apart(Exact { mantissa: 2, power: 6 }, Exact { mantissa: 200, power: 0 });
        lemma_apart(Exact { mantissa: 2, power: 6 }, Exact { mantissa: 2, power: 3 });
        lemma_apart(Exact { mantissa: 2, power: 6 }, Exact { mantissa: 20, power: 3 });
        lemma_apart(Exact { mantissa: 2, power: 6 }, Exact { mantissa: 200, power: 3 });
        lemma_apart(Exact { mantissa: 2, power: 6 }, Exact { mantissa: 20, power: 6 });
        lemma_apart(Exact { mantissa: 2, power: 6 }, Exact { mantissa: 100, power: 6 });
        lemma_apart(Exact { mantissa: 20, power: 6 }, Exact { mantissa: 200, power: 0 });
        lemma_apart(Exact { mantissa: 20, power: 6 }, Exact { mantissa: 2, power: 3 });
        lemma_apart(Exact { mantissa: 20, power: 6 }, Exact { mantissa: 20, power: 3 });
        lemma_apart(Exact { mantissa: 20, power: 6 }, Exact { mantissa: 200, power: 3 });
        lemma_apart(Exact { mantissa: 20, power: 6 }, Exact { mantissa: 2, power: 6 });
        lemma_apart(Exact { mantissa: 20, power: 6 }, Exact { mantissa: 100, power: 6 });
        lemma_apart(Exact { mantissa: 100, power: 6 }, Exact { mantissa: 200, power: 0 });
        lemma_apart(Exact { mantissa: 100, power: 6 }, Exact { mantissa: 2, power: 3 });
        lemma_apart(Exact { mantissa: 100, power: 6 }, Exact { mantissa: 20, power: 3 });
        lemma_apart(Exact { mantissa: 100, power: 6 }, Exact { mantissa: 200, power: 3 });
        lemma_apart(Exact { mantissa: 100, power: 6 }, Exact { mantissa: 2, power: 6 });
        lemma_apart(Exact { mantissa: 100, power: 6 }, Exact { mantissa: 20, power: 6 });
    }
    lemma_readable(ranges, values);
}

/// The SPM ranges for capacitance are in order.
proof fn lemma_spm_cap()
    ensures
        in_order(spm_table(MeterMode::Cap)->0.ranges),
        readable(spm_table(MeterMode::Cap)->0.ranges),
{
    let ranges = spm_table(MeterMode::Cap)->0.ranges;
    let values: Seq<Option<Exact>> = seq![
        None,
    ];
    lemma_numeral_auto();
    assert(increasing(values)) by {
    }
    lemma_in_order(ranges, values);
    assert(apart(values)) by {
    }
    lemma_readable(ranges, values);
}

/// Ranges that cannot be mistaken for each other are distinct.
proof fn lemma_distinct(ranges: Seq<(Seq<char>, Seq<char>)>)
    requires
        unambiguous(ranges),
    ensures
        distinct(ranges),
{
    assert forall|i: int, j: int| 0 <= i < j < ranges.len() implies (#[trigger] ranges[i]).0 != (
    #[trigger] ranges[j]).0 && ranges[i].1 != ranges[j].1 by {
        assert(!eq_ignoring_case(ranges[i].1, ranges[j].1));
        assert(!eq_ignoring_case(bare_name(ranges[i]), bare_name(ranges[j])));
    }
}

/// An XDM multimeter has ranges in every mode but frequency, period, diode and continuity, and the
/// XDM1041 can be queried for exactly those. Names and values are distinct, even up to case and
/// spaces; automatic ranging comes first, with the value `AUTO`; numeric values increase.
pub proof fn law_xdm_ranges(mode: MeterMode)
    ensures
        xdm_table(mode) is Some == !(mode == MeterMode::Freq || mode == MeterMode::Per || mode
            == MeterMode::Diod || mode == MeterMode::Cont),
        DeviceModel::Xdm1041.ranges(mode) == xdm_table(mode),
        DeviceModel::Xdm1041.range_query(mode) is Some == xdm_table(mode) is Some,
        xdm_table(mode) matches Some(table) ==> distinct(table.ranges) && unambiguous(table.ranges)
            && in_order(table.ranges),
{
    lemma_xdm_unambiguous(mode);
    lemma_xdm_in_order(mode);
    if xdm_table(mode) is Some {
        lemma_distinct(xdm_table(mode)->0.ranges);
    }
}

/// An SPM power supply has ranges for voltage, current, resistance and capacitance, and the SPM6103
/// can be queried for exactly those. Names and values are distinct, even up to case and spaces;
/// automatic ranging comes first, with the value `AUTO`; the others are numbers, increase, and are
/// a tenth or more apart.
pub proof fn law_spm_ranges(mode: MeterMode)
    ensures
        spm_table(mode) is Some == (mode == MeterMode::Vdc || mode == MeterMode::Vac || mode
            == MeterMode::Adc || mode == MeterMode::Aac || mode == MeterMode::Res || mode
            == MeterMode::Cap),
        DeviceModel::Spm6103.range_query(mode) is Some == spm_table(mode) is Some,
        spm_table(mode) matches Some(table) ==> distinct(table.ranges) && unambiguous(table.ranges)
            && in_order(table.ranges) && readable(table.ranges),
{
    lemma_spm_unambiguous(mode);
    lemma_spm_in_order(mode);
    if spm_table(mode) is Some {
        lemma_distinct(spm_table(mode)->0.ranges);
    }
}

// ---------------------------------------------------------------------------------------------
// Values in commands
// ---------------------------------------------------------------------------------------------

/// The last word of a line is what follows its last white space.
proof fn lemma_last_word(head: Seq<char>, w: Seq<char>)
    requires
        head.len() > 0 ==> white_space(head.last()),
        plain(w),
    ensures
        words(head + w + seq!['\n']).len() > 0,
        words(head + w + seq!['\n']).last() == w,
    decreases head.len(),
{
    let s = head + w + seq!['\n'];
    let n = leading(head, CharClass::Space);
    lemma_leading_holds(head, CharClass::Space);
    assert forall|k: int| 0 <= k < n implies CharClass::Space.has(#[trigger] s[k]) by {
        assert(s[k] == head[k]);
    }
    let rest = head.skip(n as int);
    if n == head.len() {
        assert(s[n as int] == w[0]);
    } else {
        assert(s[n as int] == head[n as int]);
    }
    lemma_leading(s, CharClass::Space, n);
    let t = trim_start(s, CharClass::Space);
    assert(t =~= rest + w + seq!['\n']);
    if rest.len() == 0 {
        assert forall|k: int| 0 <= k < w.len() implies CharClass::NotSpace.has(#[trigger] t[k]) by {
            assert(t[k] == w[k]);
        }
        assert(t[w.len() as int] == '\n');
        lemma_leading(t, CharClass::NotSpace, w.len());
        assert(t.take(w.len() as int) =~= w);
        let e = t.skip(w.len() as int);
        assert(e =~= seq!['\n']);
        lemma_leading(e, CharClass::Space, 1);
        assert(trim_start(e, CharClass::Space).len() == 0);
        assert(words(e) =~= seq![]);
        assert(words(s) =~= seq![w]);
    } else {
        assert(rest[0] == head[n as int]);
        assert(rest.last() == head.last());
        let m = leading(rest, CharClass::NotSpace);
        lemma_leading_holds(rest, CharClass::NotSpace);
        if m == rest.len() {
            assert(CharClass::NotSpace.has(rest[rest.len() - 1]));
        }
        assert forall|k: int| 0 <= k < m implies CharClass::NotSpace.has(#[trigger] t[k]) by {
            assert(t[k] == rest[k]);
        }
        assert(t[m as int] == rest[m as int]);
        lemma_leading(t, CharClass::NotSpace, m);
        if m == 0 {
            assert(!CharClass::NotSpace.has(rest[0]));
        }
        let tail = rest.skip(m as int);
        assert(t.skip(m as int) =~= tail + w + seq!['\n']);
        assert(tail.last() == head.last());
        lemma_last_word(tail, w);
        assert(words(s) =~= seq![t.take(m as int)] + words(tail + w + seq!['\n']));
    }
}

/// The candidates of a comparison are the ranges with numeric values.
proof fn lemma_candidates(ranges: Seq<(Seq<char>, Seq<char>)>)
    requires
        ranges.len() <= usize::MAX,
    ensures
        forall|k: int|
            0 <= k < numeric_ranges(ranges).len() ==> {
                let (i, value) = #[trigger] numeric_ranges(ranges)[k];
                i < ranges.len() && value == ranges[i as int].1 && is_number(value)
            },
        forall|i: int|
            0 <= i < ranges.len() && is_number((#[trigger] ranges[i]).1) ==> numeric_ranges(
                ranges,
            ).contains((i as usize, ranges[i].1)),
    decreases ranges.len(),
{
    if ranges.len() > 0 {
        let before = ranges.drop_last();
        let rest = numeric_ranges(before);
        let all = numeric_ranges(ranges);
        lemma_candidates(before);
        assert forall|k: int| 0 <= k < all.len() implies {
            let (i, value) = #[trigger] all[k];
            i < ranges.len() && value == ranges[i as int].1 && is_number(value)
        } by {
            if k < rest.len() {
                assert(all[k] == rest[k]);
            }
        }
        assert forall|i: int| 0 <= i < ranges.len() && is_number(
            (#[trigger] ranges[i]).1,
        ) implies all.contains((i as usize, ranges[i].1)) by {
            if i < before.len() {
                assert(before[i] == ranges[i]);
                assert(rest.contains((i as usize, ranges[i].1)));
                let k = choose|k: int|
                    0 <= k < rest.len() && rest[k] == (i as usize, ranges[i].1);
                assert(all[k] == rest[k]);
            } else {
                assert(all[all.len() - 1] == (i as usize, ranges[i].1));
            }
        }
    }
}

/// Whether a match of a range's value comes out at that range: it is settled there, or it is a
/// question whether that very value is near to those of the ranges, which exact arithmetic answers
/// with that range, and which falls back to that range.
pub open spec fn reads_back(matched: Matching, i: int, value: Seq<char>) -> bool {
    match matched {
        Matching::Settled(found) => found == Some(i as usize),
        Matching::Numeric(question) => {
            &&& question.number == lower(value)
            &&& exact(question.number) == exact(value)
            &&& question.scale == RangeScale::One
            &&& question.tolerance == Tolerance::OneTenth
            &&& question.candidates.contains((i as usize, value))
            &&& question.outcome(question.exact_answers()) == Some(i as usize)
            &&& question.otherwise == Some(i as usize)
        },
    }
}

/// The value of a range, as a reply, reads back as that range.
proof fn lemma_value_reads_back(ranges: Seq<(Seq<char>, Seq<char>)>, i: int)
    requires
        ranges.len() <= 8,
        unambiguous(ranges),
        in_order(ranges),
        readable(ranges),
        forall|k: int|
            0 <= k < ranges.len() ==> all_ascii((#[trigger] ranges[k]).0) && bare_name(ranges[k])
                == ranges[k].0,
        0 <= i < ranges.len(),
        ranges[i].0 != "auto"@,
    ensures
        reads_back(valued_range(ranges, ranges[i].1), i, ranges[i].1),
{
    let value = ranges[i].1;
    assert(plain(value) && spells(value, exact(value)));
    lemma_untrimmed(value, CharClass::Space);
    assert(forall|k: int| 0 <= k < value.len() ==> !white_space(#[trigger] value[k]));
    lemma_without_absent(value, ' ');
    let n = lower(value);
    if offers_auto(ranges) {
        assert(ranges[0].1 == "AUTO"@);
        assert(!eq_ignoring_case(ranges[0].1, value));
    }
    lemma_found(ranges, i, value);
    let flags = Seq::new(ranges.len(), |k: int| n == lower(ranges[k].0));
    lemma_first_true(flags);
    if by_lower_name(ranges, n) is Some {
        let k = by_lower_name(ranges, n)->0 as int;
        assert(flags[k]);
        assert(all_ascii(ranges[k].0));
        assert(eq_ignoring_case(bare_name(ranges[k]), value));
    } else {
        let question = valued_range(ranges, value)->Numeric_0;
        lemma_candidates(ranges);
        let near = question.exact_answers();
        lemma_candidate_count(ranges);
        lemma_first_true(near);
        assert(question.scaled() == exact(value));
        assert(question.candidates.contains((i as usize, value)));
        let at = choose|k: int|
            0 <= k < question.candidates.len() && question.candidates[k] == (i as usize, value);
        lemma_near_itself(exact(value));
        assert(near[at]);
        assert forall|k: int| 0 <= k < near.len() && near[k] implies question.candidates[k].0
            == i by {
            let (j, other) = question.candidates[k];
            if j != i {
                assert(!exact(ranges[i].1).within_a_tenth(exact(ranges[j as int].1)));
            }
        }
    }
}

/// There are no more candidates than ranges.
proof fn lemma_candidate_count(ranges: Seq<(Seq<char>, Seq<char>)>)
    ensures
        numeric_ranges(ranges).len() <= ranges.len(),
    decreases ranges.len(),
{
    if ranges.len() > 0 {
        lemma_candidate_count(ranges.drop_last());
    }
}

/// Every range of an SPM power supply, and no other, can be selected. The command ends its line,
/// and the last word of one that selects a fixed range is the range's value, which both the plugin
/// of the family and that of the SPM6103 read back as the range.
pub proof fn law_spm_selection_reads_back(mode: MeterMode, i: int)
    ensures
        DeviceFamily::Spm.range_command(mode, i) is Some == (DeviceFamily::Spm.range_names(
            mode,
        ) matches Some(names) && 0 <= i < names.len()),
        DeviceFamily::Spm.range_command(mode, i) matches Some(command) ==> {
            let (name, value) = (spm_table(mode)->0).ranges[i];
            &&& command.len() > 0
            &&& command.last() == '\n'
            &&& name != "auto"@ ==> {
                let word = words(command).last();
                &&& words(command).len() > 0
                &&& word == value
                &&& reads_back(DeviceFamily::Spm.parse_range_response(word, mode), i, value)
                &&& DeviceModel::Spm6103.parse_range(word, mode)
                    == DeviceFamily::Spm.parse_range_response(word, mode)
            }
        },
{
    if let Some(command) = DeviceFamily::Spm.range_command(mode, i) {
        let table = spm_table(mode)->0;
        let (name, value) = table.ranges[i];
        lemma_command_shape(mode, i);
        if name != "auto"@ {
            lemma_spm_unambiguous(mode);
            lemma_spm_in_order(mode);
            lemma_spm_names(mode);
            assert(plain(value));
            let head = selection_head(table);
            lemma_last_word(head, value);
            lemma_value_reads_back(table.ranges, i);
            law_spm6103_has_the_spm_ranges(mode);
        }
    }
}

/// What a command that selects a fixed range begins with.
spec fn selection_head(table: RangeTable) -> Seq<char> {
    match table.auto_off {
        Some(off) => off + table.prefix,
        None => table.prefix,
    }
}

/// How the commands that select a range are made up.
proof fn lemma_command_shape(mode: MeterMode, i: int)
    requires
        DeviceFamily::Spm.range_command(mode, i) is Some,
    ensures
        ({
            let command = DeviceFamily::Spm.range_command(mode, i)->0;
            let table = spm_table(mode)->0;
            &&& command.len() > 0
            &&& command.last() == '\n'
            &&& table.ranges[i].0 != "auto"@ ==> command == selection_head(table)
                + table.ranges[i].1 + seq!['\n']
            &&& selection_head(table).last() == ' '
        }),
{
    let command = DeviceFamily::Spm.range_command(mode, i)->0;
    let table = spm_table(mode)->0;
    reveal_strlit("\n");
    assert("\n"@ =~= seq!['\n']);
    assert(table.prefix.len() > 0 && table.prefix.last() == ' ') by {
        reveal_strlit("SENS:VOLT:DC:RANG ");
        reveal_strlit("SENS:VOLT:AC:RANG ");
        reveal_strlit("SENS:CURR:DC:RANG ");
        reveal_strlit("SENS:CURR:AC:RANG ");
        reveal_strlit("SENS:RES:RANG ");
        reveal_strlit("SENS:CAP:RANG ");
    }
    assert(table.auto_on matches Some(on) ==> on.len() > 0 && on.last() == '\n') by {
        reveal_strlit("VOLT:DC:RANG:AUTO 1\n");
        reveal_strlit("VOLT:AC:RANG:AUTO 1\n");
        reveal_strlit("RES:RANG:AUTO 1\n");
    }
    assert(selection_head(table).last() == ' ');
    if table.ranges[i].0 != "auto"@ {
        assert(command =~= selection_head(table) + table.ranges[i].1 + seq!['\n']);
    }
}

} // verus!
