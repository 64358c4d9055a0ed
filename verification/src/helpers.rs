//! How a measured value is shown: which unit, which scale, which notation.

use crate::double::{Double, HUNDRED, KILO, MEGA, MICRO, MILLI, ONE, OVERLOAD, TEN, ZERO};
use crate::multimeter::MeterMode;
use crate::tables::{unit_of, unit_text};
use vstd::prelude::*;

verus! {

/// What the base value is multiplied or divided by for display.
#[derive(Clone, Copy, PartialEq, Eq, Debug, Structural)]
pub enum DisplayScale {
    One,
    TimesThousand,
    TimesMillion,
    TimesBillion,
    OverThousand,
    OverMillion,
}

/// What a `MeasurementFormat` holds, as pure data.
#[verifier::ext_equal]
pub enum Format {
    Words(Seq<char>),
    Number { scale: DisplayScale, unit: Seq<char> },
}

/// How a measured value is shown.
#[derive(Debug)]
pub enum MeasurementFormat {
    /// As these words, without a unit.
    Words(&'static str),
    /// As a number in a unit.
    Number { scale: DisplayScale, unit: &'static str },
}

impl View for MeasurementFormat {
    type V = Format;

    open spec fn view(&self) -> Format {
        match self {
            MeasurementFormat::Words(words) => Format::Words(words@),
            MeasurementFormat::Number { scale, unit } => Format::Number {
                scale: *scale,
                unit: unit@,
            },
        }
    }
}

/// The scale and unit in which a magnitude is shown.
pub open spec fn scaled_unit(mode: MeterMode, abs: Double) -> (DisplayScale, Seq<char>) {
    match mode {
        MeterMode::Adc | MeterMode::Aac => if abs.below(Double { bits: ONE }) {
            (
                DisplayScale::TimesThousand,
                if mode == MeterMode::Adc {
                    "mADC"@
                } else {
                    "mAAC"@
                },
            )
        } else {
            (DisplayScale::One, unit_text(mode))
        },
        MeterMode::Res | MeterMode::Cont => if (Double { bits: MEGA }).at_most(abs) {
            (DisplayScale::OverMillion, "MOhm"@)
        } else if (Double { bits: KILO }).at_most(abs) {
            (DisplayScale::OverThousand, "kOhm"@)
        } else {
            (DisplayScale::One, unit_text(mode))
        },
        MeterMode::Cap => if (Double { bits: MILLI }).at_most(abs) {
            (DisplayScale::TimesThousand, "mF"@)
        } else if (Double { bits: MICRO }).at_most(abs) {
            (DisplayScale::TimesMillion, "\u{3bc}F"@)
        } else {
            (DisplayScale::TimesBillion, "nF"@)
        },
        MeterMode::Per => if abs.below(Double { bits: ONE }) {
            (DisplayScale::TimesThousand, "ms"@)
        } else {
            (DisplayScale::One, unit_text(mode))
        },
        _ => (DisplayScale::One, unit_text(mode)),
    }
}

/// How a value is shown: words for what is no number and for an overload, a scaled number
/// otherwise.
pub open spec fn shown(value: Double, mode: MeterMode) -> Format {
    let overload = value.at_most(Double { bits: OVERLOAD }) && (Double { bits: OVERLOAD }).at_most(
        value,
    );
    if value.nan() {
        Format::Words("    NaN"@)
    } else if overload && mode == MeterMode::Diod {
        Format::Words("    Open"@)
    } else if overload && (mode == MeterMode::Cont || mode == MeterMode::Res) {
        Format::Words("      OL"@)
    } else {
        let (scale, unit) = scaled_unit(mode, value.magnitude_of());
        Format::Number { scale, unit }
    }
}

/// Chooses how a measured value is shown.
pub fn format_measurement(value: Double, meter_mode: &MeterMode) -> (r: MeasurementFormat)
    ensures
        r@ == shown(value, *meter_mode),
{
    if value.is_nan() {
        return MeasurementFormat::Words("    NaN");
    }
    if value.same_value(Double { bits: OVERLOAD }) {
        match meter_mode {
            MeterMode::Diod => {
                return MeasurementFormat::Words("    Open");
            },
            MeterMode::Cont | MeterMode::Res => {
                return MeasurementFormat::Words("      OL");
            },
            _ => {},
        }
    }
    let abs: Double = value.abs();
    let (scale, unit): (DisplayScale, &'static str) = match meter_mode {
        MeterMode::Adc => if abs.lt(Double { bits: ONE }) {
            (DisplayScale::TimesThousand, "mADC")
        } else {
            (DisplayScale::One, unit_of(*meter_mode))
        },
        MeterMode::Aac => if abs.lt(Double { bits: ONE }) {
            (DisplayScale::TimesThousand, "mAAC")
        } else {
            (DisplayScale::One, unit_of(*meter_mode))
        },
        MeterMode::Res | MeterMode::Cont => if (Double { bits: MEGA }).le(abs) {
            (DisplayScale::OverMillion, "MOhm")
        } else if (Double { bits: KILO }).le(abs) {
            (DisplayScale::OverThousand, "kOhm")
        } else {
            (DisplayScale::One, unit_of(*meter_mode))
        },
        MeterMode::Cap => if (Double { bits: MILLI }).le(abs) {
            (DisplayScale::TimesThousand, "mF")
        } else if (Double { bits: MICRO }).le(abs) {
            (DisplayScale::TimesMillion, "\u{3bc}F")
        } else {
            (DisplayScale::TimesBillion, "nF")
        },
        MeterMode::Per => if abs.lt(Double { bits: ONE }) {
            (DisplayScale::TimesThousand, "ms")
        } else {
            (DisplayScale::One, unit_of(*meter_mode))
        },
        _ => (DisplayScale::One, unit_of(*meter_mode)),
    };
    MeasurementFormat::Number { scale, unit }
}

/// Whether a precision is finite and above zero.
pub open spec fn usable(p: Double) -> bool {
    p.finite() && (Double { bits: ZERO }).below(p)
}

/// Decides whether a precision says how many decimals to show: one that is not positive or not
/// finite counts as none.
pub fn usable_precision(p: Double) -> (b: bool)
    ensures
        b == usable(p),
{
    p.is_finite() && (Double { bits: ZERO }).lt(p)
}

/// The decimals that a precision gives a displayed value: as many as are asked for, but no fewer
/// than zero. A precision that is absent, unusable, or unusable once scaled gives none.
pub open spec fn precision_decimals(
    precision: Option<Double>,
    displayed: Double,
    asked: i32,
) -> Option<usize> {
    if precision is Some && usable(precision->0) && usable(displayed) {
        Some(vstd::math::max(asked as int, 0) as usize)
    } else {
        None
    }
}

/// Chooses how many decimals to show for a precision in the base unit. `displayed` is that precision
/// in the displayed unit, and `asked` the decimals that its logarithm asks for.
pub fn shown_decimals(precision: Option<Double>, displayed: Double, asked: i32) -> (r: Option<usize>)
    ensures
        r == precision_decimals(precision, displayed, asked),
{
    match precision {
        Some(p) => if usable_precision(p) && usable_precision(displayed) {
            if asked > 0 {
                Some(asked as usize)
            } else {
                Some(0)
            }
        } else {
            None
        },
        None => None,
    }
}

/// The notation of a displayed number.
#[derive(Clone, Copy, PartialEq, Eq, Debug, Structural)]
pub enum Notation {
    /// Scientific, with three decimals.
    Scientific,
    /// With this many decimals.
    Fixed(usize),
}

/// The notation in which a displayed value is written: scientific beyond the thresholds, otherwise
/// with the decimals that the precision asks for or, if it asks for none, with fewer the larger
/// the value.
pub open spec fn notation(
    display: Double,
    high: Double,
    low: Double,
    decimals: Option<usize>,
) -> Notation {
    let abs = display.magnitude_of();
    if high.at_most(abs) || (abs.below(low) && (Double { bits: ZERO }).below(abs)) {
        Notation::Scientific
    } else if decimals is Some {
        Notation::Fixed(decimals->0)
    } else if (Double { bits: KILO }).at_most(abs) {
        Notation::Fixed(2)
    } else if (Double { bits: HUNDRED }).at_most(abs) {
        Notation::Fixed(3)
    } else if (Double { bits: TEN }).at_most(abs) {
        Notation::Fixed(4)
    } else {
        Notation::Fixed(5)
    }
}

/// Chooses the notation of a displayed value.
pub fn choose_notation(
    display: Double,
    sci_threshold_high: Double,
    sci_threshold_low: Double,
    decimals: Option<usize>,
) -> (r: Notation)
    ensures
        r == notation(display, sci_threshold_high, sci_threshold_low, decimals),
{
    let abs: Double = display.abs();
    if sci_threshold_high.le(abs) || (abs.lt(sci_threshold_low) && (Double { bits: ZERO }).lt(
        abs,
    )) {
        return Notation::Scientific;
    }
    match decimals {
        Some(decimals) => Notation::Fixed(decimals),
        None => if (Double { bits: KILO }).le(abs) {
            Notation::Fixed(2)
        } else if (Double { bits: HUNDRED }).le(abs) {
            Notation::Fixed(3)
        } else if (Double { bits: TEN }).le(abs) {
            Notation::Fixed(4)
        } else {
            Notation::Fixed(5)
        },
    }
}

/// A precision that is unusable, or unusable once scaled, gives a displayed value the same notation
/// as no precision.
pub proof fn law_unusable_precision_counts_as_none(
    p: Double,
    displayed: Double,
    asked: i32,
    display: Double,
    sci_threshold_high: Double,
    sci_threshold_low: Double,
)
    requires
        !usable(p) || !usable(displayed),
    ensures
        notation(
            display,
            sci_threshold_high,
            sci_threshold_low,
            precision_decimals(Some(p), displayed, asked),
        ) == notation(
            display,
            sci_threshold_high,
            sci_threshold_low,
            precision_decimals(None, displayed, asked),
        ),
        precision_decimals(None, displayed, asked) is None,
{
}

} // verus!
