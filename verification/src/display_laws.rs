//! What is shown of a measured value: the same quantity, in a unit of handy size.

use crate::command_laws::mode_name;
use crate::double::{
    law_whole_limits, lemma_magnitude_order, whole, Double, HUNDRED, KILO, MEGA, MICRO, MILLI, ONE,
    OVERLOAD, SIGN, TEN, ZERO,
};
use crate::helpers::{notation, shown, DisplayScale, Format, Notation};
use crate::multimeter::MeterMode;
use crate::replies::si_prefix;
use crate::tables::{label_text, unit_text};
use vstd::prelude::*;

verus! {

/// The power of ten by which a scale multiplies.
pub open spec fn scale_power(scale: DisplayScale) -> int {
    match scale {
        DisplayScale::One => 0,
        DisplayScale::TimesThousand => 3,
        DisplayScale::TimesMillion => 6,
        DisplayScale::TimesBillion => 9,
        DisplayScale::OverThousand => -3,
        DisplayScale::OverMillion => -6,
    }
}

/// The magnitude of a number.
pub open spec fn size(value: Double) -> int {
    if value.value() < 0 {
        -value.value()
    } else {
        value.value()
    }
}

/// The number without its sign has the magnitude as its value.
proof fn lemma_size(value: Double)
    ensures
        value.magnitude_of().value() == size(value),
        value.magnitude_of().nan() == value.nan(),
        size(value) >= 0,
        !(Double { bits: ONE }).nan(),
        !(Double { bits: TEN }).nan(),
        !(Double { bits: HUNDRED }).nan(),
        !(Double { bits: KILO }).nan(),
        !(Double { bits: MEGA }).nan(),
        !(Double { bits: OVERLOAD }).nan(),
        !(Double { bits: ZERO }).nan(),
{
}

/// What is shown is what was measured: the value is multiplied by the power of ten by which the
/// unit's prefix divides, and without its prefix the unit is that of the mode.
pub proof fn law_scale_and_unit_go_together(value: Double, mode: MeterMode)
    ensures
        shown(value, mode) matches Format::Number { scale, unit } ==> {
            &&& si_prefix(unit).power() == -scale_power(scale)
            &&& scale == DisplayScale::One ==> unit == unit_text(mode)
            &&& scale != DisplayScale::One ==> unit.len() == unit_text(mode).len() + 1
                && unit.skip(1) == unit_text(mode)
        },
{
    reveal_strlit("VDC");
    reveal_strlit("VAC");
    reveal_strlit("ADC");
    reveal_strlit("AAC");
    reveal_strlit("Ohm");
    reveal_strlit("F");
    reveal_strlit("Hz");
    reveal_strlit("s");
    reveal_strlit("V");
    reveal_strlit("°C");
    reveal_strlit("mADC");
    reveal_strlit("mAAC");
    reveal_strlit("kOhm");
    reveal_strlit("MOhm");
    reveal_strlit("mF");
    reveal_strlit("\u{3bc}F");
    reveal_strlit("nF");
    reveal_strlit("ms");
    assert("mADC"@.skip(1) =~= "ADC"@);
    assert("mAAC"@.skip(1) =~= "AAC"@);
    assert("kOhm"@.skip(1) =~= "Ohm"@);
    assert("MOhm"@.skip(1) =~= "Ohm"@);
    assert("mF"@.skip(1) =~= "F"@);
    assert("\u{3bc}F"@.skip(1) =~= "F"@);
    assert("nF"@.skip(1) =~= "F"@);
    assert("ms"@.skip(1) =~= "s"@);
}

/// A number is shown as words only where it says that the input is open or overloaded: one billion
/// in a diode, continuity or resistance measurement. What is no number is shown as such in every
/// mode, and everything else as a number.
pub proof fn law_words_stand_for_no_number(value: Double, mode: MeterMode)
    ensures
        value.nan() ==> shown(value, mode) == Format::Words("    NaN"@),
        !value.nan() && value.value() == whole(1_000_000_000) ==> {
            &&& mode == MeterMode::Diod ==> shown(value, mode) == Format::Words("    Open"@)
            &&& mode == MeterMode::Cont || mode == MeterMode::Res ==> shown(value, mode)
                == Format::Words("      OL"@)
        },
        !value.nan() && !(value.value() == whole(1_000_000_000) && (mode == MeterMode::Diod || mode
            == MeterMode::Cont || mode == MeterMode::Res)) ==> shown(value, mode) is Number,
{
    law_whole_limits();
    lemma_size(value);
}

/// The unit has a handy size, whatever the sign: below one ampere or second thousandths are shown;
/// from a thousand and from a million ohms on, thousands and millions; farads in thousandths,
/// millionths or billionths. Other quantities are shown as they are.
pub proof fn law_units_have_a_handy_size(value: Double, mode: MeterMode)
    requires
        shown(value, mode) is Number,
    ensures
        ({
            let scale = shown(value, mode)->scale;
            let milli = (Double { bits: MILLI }).value();
            let micro = (Double { bits: MICRO }).value();
            match mode {
                MeterMode::Adc | MeterMode::Aac | MeterMode::Per => scale == (if size(value)
                    < whole(1) {
                    DisplayScale::TimesThousand
                } else {
                    DisplayScale::One
                }),
                MeterMode::Res | MeterMode::Cont => scale == (if size(value) < whole(1000) {
                    DisplayScale::One
                } else if size(value) < whole(1_000_000) {
                    DisplayScale::OverThousand
                } else {
                    DisplayScale::OverMillion
                }),
                MeterMode::Cap => scale == (if size(value) < micro {
                    DisplayScale::TimesBillion
                } else if size(value) < milli {
                    DisplayScale::TimesMillion
                } else {
                    DisplayScale::TimesThousand
                }),
                _ => scale == DisplayScale::One,
            }
        }),
{
    law_whole_limits();
    lemma_size(value);
    assert(!(Double { bits: MILLI }).nan());
    assert(!(Double { bits: MICRO }).nan());
    lemma_magnitude_order(MICRO as nat, MILLI as nat);
}

/// A value and its negative are shown in the same unit and the same notation.
pub proof fn law_sign_does_not_matter(
    value: Double,
    other: Double,
    mode: MeterMode,
    high: Double,
    low: Double,
    decimals: Option<usize>,
)
    requires
        !value.nan(),
        !other.nan(),
        value.value() == -other.value(),
    ensures
        shown(value, mode) is Number && shown(other, mode) is Number ==> shown(value, mode)
            == shown(other, mode),
        notation(value, high, low, decimals) == notation(other, high, low, decimals),
{
    lemma_size(value);
    lemma_size(other);
}

/// A displayed value is written in scientific notation from the upper threshold on and below the
/// lower one, unless it is zero. In between it has the decimals of its precision or, without one,
/// as many as fill six digits: the larger the value, the fewer.
pub proof fn law_notation_fills_the_display(
    display: Double,
    high: Double,
    low: Double,
    decimals: Option<usize>,
)
    requires
        !display.nan(),
        !high.nan(),
        !low.nan(),
    ensures
        ({
            let written = notation(display, high, low, decimals);
            let beyond = size(display) >= high.value() || (0 < size(display) < low.value());
            &&& beyond ==> written == Notation::Scientific
            &&& !beyond && decimals is Some ==> written == Notation::Fixed(decimals->0)
            &&& !beyond && decimals is None ==> written == Notation::Fixed(
                if size(display) >= whole(1000) {
                    2
                } else if size(display) >= whole(100) {
                    3
                } else if size(display) >= whole(10) {
                    4
                } else {
                    5
                },
            )
        }),
{
    law_whole_limits();
    lemma_size(display);
}

/// No two modes have the same button.
pub proof fn law_labels_tell_modes_apart(a: MeterMode, b: MeterMode)
    requires
        a != b,
    ensures
        label_text(a) != label_text(b),
{
    reveal_strlit("VDC");
    reveal_strlit("VAC");
    reveal_strlit("ADC");
    reveal_strlit("AAC");
    reveal_strlit("Ohm");
    reveal_strlit("C");
    reveal_strlit("Freq");
    reveal_strlit("Period");
    reveal_strlit("Diode");
    reveal_strlit("Cont");
    reveal_strlit("Temp");
    let x = label_text(a);
    let y = label_text(b);
    assert(x.len() != y.len() || x[0] != y[0] || x[1] != y[1]);
}

/// The unit of a voltage or a current is the letter of the quantity and the kind of current that the
/// mode's name says, which is also the label of its button. Resistance and continuity share a unit.
pub proof fn law_units_fit_their_modes(mode: MeterMode)
    ensures
        mode == MeterMode::Vdc || mode == MeterMode::Vac ==> unit_text(mode) == "V"@ + mode_name(
            mode,
        ).skip(5) && label_text(mode) == unit_text(mode),
        mode == MeterMode::Adc || mode == MeterMode::Aac ==> unit_text(mode) == "A"@ + mode_name(
            mode,
        ).skip(5) && label_text(mode) == unit_text(mode),
        unit_text(MeterMode::Cont) == unit_text(MeterMode::Res),
        mode == MeterMode::Res ==> unit_text(mode) == "Ohm"@,
        mode == MeterMode::Cap ==> unit_text(mode) == "F"@,
        mode == MeterMode::Freq ==> unit_text(mode) == "Hz"@,
        mode == MeterMode::Per ==> unit_text(mode) == "s"@,
        mode == MeterMode::Diod ==> unit_text(mode) == "V"@,
        mode == MeterMode::Temp ==> unit_text(mode) == "°C"@,
{
    reveal_strlit("V");
    reveal_strlit("A");
    reveal_strlit("VDC");
    reveal_strlit("VAC");
    reveal_strlit("ADC");
    reveal_strlit("AAC");
    reveal_strlit("VOLT:DC");
    reveal_strlit("VOLT:AC");
    reveal_strlit("CURR:DC");
    reveal_strlit("CURR:AC");
    assert("VDC"@ =~= "V"@ + "VOLT:DC"@.skip(5));
    assert("VAC"@ =~= "V"@ + "VOLT:AC"@.skip(5));
    assert("ADC"@ =~= "A"@ + "CURR:DC"@.skip(5));
    assert("AAC"@ =~= "A"@ + "CURR:AC"@.skip(5));
}

/// Numbers are ordered by their value: of two numbers one is less, or they are equal; a number and
/// its negative lie on opposite sides of zero; and what is no number is neither less than anything
/// nor equal to anything, itself included.
pub proof fn law_numbers_are_ordered(a: Double, b: Double)
    ensures
        !a.nan() && !b.nan() ==> (a.below(b) || b.below(a) || (a.at_most(b) && b.at_most(a))),
        a.below(b) ==> a.at_most(b) && !b.at_most(a),
        !a.nan() && !b.nan() ==> a.at_most(b) == !b.below(a),
        a.nan() ==> !a.below(b) && !b.below(a) && !a.at_most(b) && !b.at_most(a) && !a.at_most(a),
        a.bits < SIGN && b.bits == a.bits + SIGN ==> b.value() == -a.value() && a.nan() == b.nan()
            && a.value() >= 0,
        a.bits < SIGN && b.bits < SIGN ==> (a.value() < b.value()) == (a.bits < b.bits),
{
    lemma_magnitude_order(a.bits as nat, b.bits as nat);
    if a.bits < SIGN && b.bits == a.bits + SIGN {
        assert(b.bits as nat % SIGN as nat == a.bits as nat);
    }
}

} // verus!
