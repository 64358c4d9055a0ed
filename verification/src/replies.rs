//! Measurement replies: mode names, SI prefixes, readings.

use crate::multimeter::MeterMode;
use crate::number::{count_decimals, decimal_places, is_number, NumberText};
use crate::text::{
    begins, lemma_trailing_holds, remove_char, same, split_words, starts_with, texts, trim_end,
    without_char, without_trailing, words, CharClass,
};
use vstd::prelude::*;

verus! {

// ---------------------------------------------------------------------------------------------
// SI prefixes
// ---------------------------------------------------------------------------------------------

/// The power of ten that a unit's first letter stands for.
#[derive(Clone, Copy, PartialEq, Eq, Debug, Structural)]
pub enum SiPrefix {
    Nano,
    Micro,
    Milli,
    One,
    Kilo,
    Mega,
    Giga,
}

impl SiPrefix {
    /// The exponent of ten.
    pub open spec fn power(self) -> int {
        match self {
            SiPrefix::Nano => -9,
            SiPrefix::Micro => -6,
            SiPrefix::Milli => -3,
            SiPrefix::One => 0,
            SiPrefix::Kilo => 3,
            SiPrefix::Mega => 6,
            SiPrefix::Giga => 9,
        }
    }

    /// Computes the exponent of ten.
    pub fn exponent(self) -> (e: i32)
        ensures
            e == self.power(),
    {
        match self {
            SiPrefix::Nano => -9,
            SiPrefix::Micro => -6,
            SiPrefix::Milli => -3,
            SiPrefix::One => 0,
            SiPrefix::Kilo => 3,
            SiPrefix::Mega => 6,
            SiPrefix::Giga => 9,
        }
    }

    /// Decimal places that converting to the base unit adds: a smaller unit needs more of them, a
    /// larger one never takes any away.
    pub open spec fn added_decimals(self) -> nat {
        if self.power() < 0 {
            -self.power() as nat
        } else {
            0
        }
    }

    /// Computes `added_decimals`.
    pub fn extra_decimals(self) -> (n: usize)
        ensures
            n == self.added_decimals(),
            n <= 9,
    {
        match self {
            SiPrefix::Nano => 9,
            SiPrefix::Micro => 6,
            SiPrefix::Milli => 3,
            _ => 0,
        }
    }
}

/// The SI prefix of a unit such as `mV`, `kOhm`, `KOhm`, `nF` or `MOhm`.
pub open spec fn si_prefix(unit: Seq<char>) -> SiPrefix {
    if unit.len() == 0 {
        SiPrefix::One
    } else if unit[0] == 'n' {
        SiPrefix::Nano
    } else if unit[0] == 'u' || unit[0] == '\u{3bc}' {
        SiPrefix::Micro
    } else if unit[0] == 'm' {
        SiPrefix::Milli
    } else if unit[0] == 'k' || unit[0] == 'K' {
        SiPrefix::Kilo
    } else if unit[0] == 'M' {
        SiPrefix::Mega
    } else if unit[0] == 'G' {
        SiPrefix::Giga
    } else {
        SiPrefix::One
    }
}

/// Reads the SI prefix off a unit.
pub fn extract_si_multiplier(unit_suffix: &str) -> (p: SiPrefix)
    ensures
        p == si_prefix(unit_suffix@),
{
    if unit_suffix.unicode_len() == 0 {
        return SiPrefix::One;
    }
    let c: char = unit_suffix.get_char(0);
    if c == 'n' {
        SiPrefix::Nano
    } else if c == 'u' || c == '\u{3bc}' {
        SiPrefix::Micro
    } else if c == 'm' {
        SiPrefix::Milli
    } else if c == 'k' || c == 'K' {
        SiPrefix::Kilo
    } else if c == 'M' {
        SiPrefix::Mega
    } else if c == 'G' {
        SiPrefix::Giga
    } else {
        SiPrefix::One
    }
}

// ---------------------------------------------------------------------------------------------
// Readings
// ---------------------------------------------------------------------------------------------

/// What a `Reading` holds, as pure data.
#[verifier::ext_equal]
pub enum ReadingText {
    Overload,
    Number(Seq<char>, SiPrefix),
}

/// A measured value in the base unit of its mode.
#[derive(Debug)]
pub enum Reading {
    /// The input is overloaded or open; shown as one billion.
    Overload,
    /// A number, to be multiplied by the power of ten of its prefix.
    Number(NumberText, SiPrefix),
}

impl View for Reading {
    type V = ReadingText;

    open spec fn view(&self) -> ReadingText {
        match self {
            Reading::Overload => ReadingText::Overload,
            Reading::Number(n, p) => ReadingText::Number(n@, *p),
        }
    }
}

/// The content of a reading that may be absent.
pub open spec fn reading(r: Option<Reading>) -> Option<ReadingText> {
    match r {
        Some(r) => Some(r@),
        None => None,
    }
}

/// The smallest step that a reading resolves, in the base unit: ten to the power of minus the
/// number of decimal places, multiplied by the power of ten of the prefix.
#[derive(Clone, Copy, PartialEq, Eq, Debug, Structural)]
pub struct Precision {
    pub decimals: usize,
    pub prefix: SiPrefix,
}

/// The number of a value field such as `+20.44mV` or `+0.0007 KOhm`: what remains in front of the
/// unit once spaces are removed.
pub open spec fn value_number(value: Seq<char>) -> Seq<char> {
    trim_end(without_char(value, ' '), CharClass::Letter)
}

/// The SI prefix of a value field's unit.
pub open spec fn value_prefix(value: Seq<char>) -> SiPrefix {
    si_prefix(without_char(value, ' ').skip(value_number(value).len() as int))
}

/// Whether a value field reports an overloaded or open input.
pub open spec fn is_overload(value: Seq<char>) -> bool {
    begins(value, "OL"@) || value == "Open"@
}

/// The reading of a value field, if it holds one.
pub open spec fn value_reading(value: Seq<char>) -> Option<ReadingText> {
    if is_overload(value) {
        Some(ReadingText::Overload)
    } else if is_number(value_number(value)) {
        Some(ReadingText::Number(value_number(value), value_prefix(value)))
    } else {
        None
    }
}

/// A value field taken apart.
pub struct ValueField {
    /// Whether the field reports an overloaded or open input.
    pub overload: bool,
    /// The reading, if the field holds one.
    pub reading: Option<Reading>,
    /// Decimal places of the text in front of the unit.
    pub decimals: usize,
    /// The SI prefix of the unit.
    pub prefix: SiPrefix,
}

impl ValueField {
    /// Whether this is what the text of a value field holds.
    pub open spec fn describes(self, value: Seq<char>) -> bool {
        &&& self.overload == is_overload(value)
        &&& reading(self.reading) == value_reading(value)
        &&& self.decimals == decimal_places(value_number(value))
        &&& self.prefix == value_prefix(value)
    }
}

/// The text with characters removed is no longer than before.
proof fn lemma_without_char_len(s: Seq<char>, c: char)
    ensures
        without_char(s, c).len() <= s.len(),
    decreases s.len(),
{
    if s.len() > 0 {
        lemma_without_char_len(s.drop_last(), c);
    }
}

/// Takes a value field apart.
pub fn parse_value_field(value: &str) -> (f: ValueField)
    ensures
        f.describes(value@),
        f.decimals <= value@.len(),
{
    let clean: String = remove_char(value, ' ');
    let head: &str = without_trailing(clean.as_str(), CharClass::Letter);
    proof {
        lemma_trailing_holds(clean@, CharClass::Letter);
        lemma_without_char_len(value@, ' ');
    }
    let suffix: &str = clean.as_str().substring_char(
        head.unicode_len(),
        clean.as_str().unicode_len(),
    );
    assert(suffix@ =~= clean@.skip(head@.len() as int));
    let prefix: SiPrefix = extract_si_multiplier(suffix);
    let overload: bool = starts_with(value, "OL") || same(value, "Open");
    let reading: Option<Reading> = if overload {
        Some(Reading::Overload)
    } else {
        match NumberText::parse(head) {
            Some(number) => Some(Reading::Number(number, prefix)),
            None => None,
        }
    };
    ValueField { overload, reading, decimals: count_decimals(head), prefix }
}

// ---------------------------------------------------------------------------------------------
// Mode names
// ---------------------------------------------------------------------------------------------

/// The mode that a function name stands for. Some firmware reports the diode test as continuity
/// and the other way round: `swap` undoes that.
pub open spec fn mode_named(name: Seq<char>, swap: bool) -> Option<MeterMode> {
    if name == "VOLT"@ || name == "VOLT:DC"@ {
        Some(MeterMode::Vdc)
    } else if name == "VOLT:AC"@ {
        Some(MeterMode::Vac)
    } else if name == "CURR"@ || name == "CURR:DC"@ {
        Some(MeterMode::Adc)
    } else if name == "CURR:AC"@ {
        Some(MeterMode::Aac)
    } else if name == "RES"@ {
        Some(MeterMode::Res)
    } else if name == "CAP"@ {
        Some(MeterMode::Cap)
    } else if name == "FREQ"@ {
        Some(MeterMode::Freq)
    } else if name == "PER"@ {
        Some(MeterMode::Per)
    } else if name == "TEMP"@ {
        Some(MeterMode::Temp)
    } else if name == "DIOD"@ {
        Some(if swap { MeterMode::Cont } else { MeterMode::Diod })
    } else if name == "CONT"@ {
        Some(if swap { MeterMode::Diod } else { MeterMode::Cont })
    } else {
        None
    }
}

/// Looks a function name up.
pub fn mode_from_name(name: &str, swap: bool) -> (m: Option<MeterMode>)
    ensures
        m == mode_named(name@, swap),
{
    if same(name, "VOLT") || same(name, "VOLT:DC") {
        Some(MeterMode::Vdc)
    } else if same(name, "VOLT:AC") {
        Some(MeterMode::Vac)
    } else if same(name, "CURR") || same(name, "CURR:DC") {
        Some(MeterMode::Adc)
    } else if same(name, "CURR:AC") {
        Some(MeterMode::Aac)
    } else if same(name, "RES") {
        Some(MeterMode::Res)
    } else if same(name, "CAP") {
        Some(MeterMode::Cap)
    } else if same(name, "FREQ") {
        Some(MeterMode::Freq)
    } else if same(name, "PER") {
        Some(MeterMode::Per)
    } else if same(name, "TEMP") {
        Some(MeterMode::Temp)
    } else if same(name, "DIOD") {
        Some(if swap { MeterMode::Cont } else { MeterMode::Diod })
    } else if same(name, "CONT") {
        Some(if swap { MeterMode::Diod } else { MeterMode::Cont })
    } else {
        None
    }
}

/// Whether a reply, quotes removed, answers a function query rather than a measurement query.
pub open spec fn is_function(reply: Seq<char>) -> bool {
    ||| begins(reply, "VOLT"@)
    ||| begins(reply, "CURR"@)
    ||| reply == "FREQ"@
    ||| reply == "PER"@
    ||| reply == "CAP"@
    ||| reply == "CONT"@
    ||| reply == "DIOD"@
    ||| reply == "RES"@
    ||| reply == "TEMP"@
}

/// Decides `is_function`.
pub fn is_function_reply(reply: &str) -> (b: bool)
    ensures
        b == is_function(reply@),
{
    starts_with(reply, "VOLT") || starts_with(reply, "CURR") || same(reply, "FREQ") || same(
        reply,
        "PER",
    ) || same(reply, "CAP") || same(reply, "CONT") || same(reply, "DIOD") || same(reply, "RES")
        || same(reply, "TEMP")
}

/// The mode that the answer to a function query names. The name may be split by a space
/// (`VOLT AC`), and a range may follow it.
pub open spec fn function_mode(reply: Seq<char>, swap: bool) -> Option<MeterMode> {
    if reply == "VOLT AC"@ || begins(reply, "VOLT AC "@) {
        Some(MeterMode::Vac)
    } else if reply == "CURR AC"@ || begins(reply, "CURR AC "@) {
        Some(MeterMode::Aac)
    } else if words(reply).len() > 0 {
        mode_named(words(reply)[0], swap)
    } else {
        mode_named(reply, swap)
    }
}

/// Reads the mode off the answer to a function query.
pub fn parse_function(reply: &str, swap: bool) -> (m: Option<MeterMode>)
    ensures
        m == function_mode(reply@, swap),
{
    if same(reply, "VOLT AC") || starts_with(reply, "VOLT AC ") {
        return Some(MeterMode::Vac);
    }
    if same(reply, "CURR AC") || starts_with(reply, "CURR AC ") {
        return Some(MeterMode::Aac);
    }
    let parts: Vec<&str> = split_words(reply);
    assert(texts(parts@).len() == parts@.len());
    if parts.len() > 0 {
        assert(texts(parts@)[0] == parts@[0]@);
        mode_from_name(parts[0], swap)
    } else {
        mode_from_name(reply, swap)
    }
}

/// Swapping the diode and continuity names twice changes nothing, and it touches no other mode.
pub proof fn law_swap_exchanges(name: Seq<char>)
    ensures
        mode_named(name, true) is Some == mode_named(name, false) is Some,
        mode_named(name, true) == (match mode_named(name, false) {
            Some(MeterMode::Diod) => Some(MeterMode::Cont),
            Some(MeterMode::Cont) => Some(MeterMode::Diod),
            other => other,
        }),
        mode_named(name, false) == (match mode_named(name, true) {
            Some(MeterMode::Diod) => Some(MeterMode::Cont),
            Some(MeterMode::Cont) => Some(MeterMode::Diod),
            other => other,
        }),
{
    reveal_strlit("DIOD");
    reveal_strlit("CONT");
    assert("DIOD"@[0] != "CONT"@[0]);
}

} // verus!
