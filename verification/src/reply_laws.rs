//! What the replies of an instrument mean: the reading is the number that was written, in the unit
//! that was written behind it, and each answer is told apart from the others.

use crate::command_laws::{
    law_names_are_answers, law_names_stand_for_their_modes, lemma_names_are_words, lemma_one_word,
    mode_name,
};
use crate::device_plugin::DeviceModel;
use crate::exact::{exact, lemma_no_number, Exact};
use crate::multimeter::MeterMode;
use crate::number::{
    decimal_places, decimal_value, digits, is_number, mantissa, pointed_at, unsigned,
};
use crate::plugins::family::{field_range, DeviceFamily};
use crate::plugins::{output_state, ps_meas_all, ps_value, PowerText, PsOutput};
use crate::range_laws::{
    law_spm6103_has_the_spm_ranges, law_spm_reply_names_range, lemma_untrimmed,
    lemma_without_absent, lemma_without_one, plain,
};
use crate::ranges::Matching;
use crate::replies::{
    function_mode, is_function, is_overload, mode_named, si_prefix, value_number, value_prefix,
    value_reading, Precision, ReadingText, SiPrefix,
};
use crate::serial_laws::lemma_number_chars;
use crate::tables::{spm6103_table, spm_table, xdm_table};
use crate::text::{
    ascii_lower, ascii_lower_char, digit, eq_ignoring_case, lemma_leading, lemma_leading_holds,
    lemma_trailing, split, trim, trim_end, trim_start, trimmed, white_space, without_char, words,
    CharClass,
};
use vstd::prelude::*;

verus! {

// ---------------------------------------------------------------------------------------------
// Numbers as they are written
// ---------------------------------------------------------------------------------------------

/// A number in decimal notation: an optional sign, digits, and the digits behind the point, if
/// there are any.
pub struct Numeral {
    pub sign: Seq<char>,
    pub whole: Seq<char>,
    pub places: Seq<char>,
}

/// Whether all characters are digits.
pub open spec fn only_digits(s: Seq<char>) -> bool {
    forall|k: int| 0 <= k < s.len() ==> '0' <= #[trigger] s[k] <= '9'
}

impl Numeral {
    /// Whether the parts are what they are meant to be.
    pub open spec fn wf(self) -> bool {
        &&& self.sign == Seq::<char>::empty() || self.sign == seq!['+'] || self.sign == seq!['-']
        &&& self.whole.len() > 0
        &&& only_digits(self.whole)
        &&& only_digits(self.places)
        &&& self.places.len() <= usize::MAX
    }

    /// The number as text.
    pub open spec fn text(self) -> Seq<char> {
        if self.places.len() > 0 {
            self.sign + self.whole + seq!['.'] + self.places
        } else {
            self.sign + self.whole
        }
    }

    /// The number: all its digits, negative behind a minus sign, over ten to the power of the
    /// digits behind the point.
    pub open spec fn value(self) -> Exact {
        let all = decimal_value(self.whole + self.places) as int;
        Exact {
            mantissa: if self.sign == seq!['-'] {
                -all
            } else {
                all
            },
            power: -(self.places.len() as int),
        }
    }
}

/// The characters of a numeral.
pub proof fn lemma_numeral_chars(n: Numeral)
    requires
        n.wf(),
    ensures
        n.text().len() > 0,
        digit(n.text().last()),
        digit(n.text()[0]) || n.text()[0] == '+' || n.text()[0] == '-',
        forall|k: int|
            0 <= k < n.text().len() ==> digit(#[trigger] n.text()[k]) || n.text()[k] == '+'
                || n.text()[k] == '-' || n.text()[k] == '.',
{
    let t = n.text();
    let a = n.sign.len() as int;
    let b = a + n.whole.len();
    assert forall|k: int| 0 <= k < t.len() implies digit(#[trigger] t[k]) || t[k] == '+' || t[k]
        == '-' || t[k] == '.' by {
        if k < a {
            assert(t[k] == n.sign[k]);
        } else if k < b {
            assert(t[k] == n.whole[k - a]);
        } else if k > b {
            assert(t[k] == n.places[k - b - 1]);
        }
    }
    assert(digit(n.whole[0]));
    assert(t[a] == n.whole[0]);
    if n.places.len() > 0 {
        assert(t.last() == n.places.last());
        assert('0' <= n.places[n.places.len() - 1] <= '9');
    } else {
        assert(t.last() == n.whole.last());
        assert('0' <= n.whole[n.whole.len() - 1] <= '9');
    }
}

/// A numeral is a number of the value that it spells, with the decimal places that it shows.
pub proof fn law_numerals_are_numbers(n: Numeral)
    requires
        n.wf(),
    ensures
        is_number(n.text()),
        exact(n.text()) == n.value(),
        decimal_places(n.text()) == n.places.len(),
{
    let t = n.text();
    let u = if n.places.len() > 0 {
        n.whole + seq!['.'] + n.places
    } else {
        n.whole
    };
    let w = n.whole.len();
    lemma_numeral_chars(n);
    assert('0' <= n.whole[0] <= '9');
    assert(t =~= n.sign + u);
    assert(u[0] == n.whole[0]);
    assert(unsigned(t) =~= u) by {
        if n.sign.len() == 0 {
            assert(t =~= u);
        } else {
            assert(t[0] == n.sign[0]);
            assert(t.skip(1) =~= u);
        }
    }
    assert forall|k: int| 0 <= k < u.len() implies digit(#[trigger] u[k]) || u[k] == '.' by {
        if k < w {
            assert(u[k] == n.whole[k]);
        } else if k > w {
            assert(u[k] == n.places[k - w - 1]);
        }
    }
    if n.places.len() > 0 {
        assert(u.take(w as int) =~= n.whole);
        assert(u.skip(w as int + 1) =~= n.places);
        assert(pointed_at(u, w as int));
    } else {
        assert(digits(u));
    }
    assert(mantissa(u));
    assert forall|k: int| 0 <= k < u.len() implies CharClass::Except('e').has(#[trigger] u[k])
        && CharClass::Except('E').has(u[k]) by {
        assert(digit(u[k]) || u[k] == '.');
    }
    lemma_leading(u, CharClass::Except('e'), u.len());
    lemma_leading(u, CharClass::Except('E'), u.len());
    assert(u.take(u.len() as int) =~= u);
    assert forall|k: int| 0 <= k < w implies CharClass::Except('.').has(#[trigger] u[k]) by {
        assert(u[k] == n.whole[k]);
    }
    lemma_leading(u, CharClass::Except('.'), w);
    if n.places.len() == 0 {
        assert(n.whole + n.places =~= n.whole);
    }
    assert(t.len() > 0 && (t[0] == '-') == (n.sign == seq!['-'])) by {
        if n.sign.len() == 0 {
            assert(t[0] == u[0]);
        } else {
            assert(t[0] == n.sign[0]);
            assert(seq!['-'][0] == '-');
            assert(seq!['+'][0] == '+');
            if t[0] == '-' {
                assert(n.sign =~= seq!['-']);
            }
        }
    }
    assert forall|k: int| 0 <= k < n.sign.len() implies CharClass::Sign.has(#[trigger] t[k]) by {
        assert(t[k] == n.sign[k]);
    }
    assert(t[n.sign.len() as int] == u[0]);
    lemma_leading(t, CharClass::Sign, n.sign.len());
    assert(trim_start(t, CharClass::Sign) =~= u);
    assert forall|k: int| 0 <= k < n.places.len() implies CharClass::Digit.has(
        #[trigger] n.places[k],
    ) by {
        assert('0' <= n.places[k] <= '9');
    }
    lemma_leading(n.places, CharClass::Digit, n.places.len());
}

/// Whether all characters are white space.
pub open spec fn blank(s: Seq<char>) -> bool {
    forall|k: int| 0 <= k < s.len() ==> white_space(#[trigger] s[k])
}

/// White space around a text is trimmed, and nothing else.
pub proof fn law_trimming_takes_the_margins(before: Seq<char>, core: Seq<char>, after: Seq<char>)
    requires
        blank(before),
        blank(after),
        core.len() > 0,
        !white_space(core[0]),
        !white_space(core.last()),
    ensures
        trimmed(before + core + after) == core,
{
    let s = before + core + after;
    assert forall|k: int| 0 <= k < before.len() implies CharClass::Space.has(#[trigger] s[k]) by {
        assert(s[k] == before[k]);
    }
    assert(s[before.len() as int] == core[0]);
    lemma_leading(s, CharClass::Space, before.len());
    let t = trim_start(s, CharClass::Space);
    assert(t =~= core + after);
    assert forall|k: int| t.len() - after.len() <= k < t.len() implies CharClass::Space.has(
        #[trigger] t[k],
    ) by {
        assert(t[k] == after[k - core.len()]);
    }
    assert(t[t.len() - after.len() - 1] == core.last());
    lemma_trailing(t, CharClass::Space, after.len());
    assert(trim_end(t, CharClass::Space) =~= core);
}

// ---------------------------------------------------------------------------------------------
// Readings of the XDM multimeters
// ---------------------------------------------------------------------------------------------

/// A number is no function name, not even in quotes.
proof fn lemma_numbers_are_no_functions(t: Seq<char>)
    requires
        is_number(t),
    ensures
        trim(t, CharClass::Only('"')) == t,
        !is_function(trim(t, CharClass::Only('"'))),
{
    lemma_number_chars(t, '"');
    assert(t.len() > 0) by {
        reveal_strlit("inf");
        reveal_strlit("infinity");
        reveal_strlit("nan");
        assert(ascii_lower("inf"@).len() == 3);
        assert(ascii_lower("infinity"@).len() == 8);
        assert(ascii_lower("nan"@).len() == 3);
        assert(ascii_lower(t).len() == t.len());
    }
    assert(t.contains(t[0]) && t.contains(t.last()));
    lemma_untrimmed(t, CharClass::Only('"'));
    reveal_strlit("VOLT");
    reveal_strlit("CURR");
    reveal_strlit("FREQ");
    reveal_strlit("PER");
    reveal_strlit("CAP");
    reveal_strlit("CONT");
    reveal_strlit("DIOD");
    reveal_strlit("RES");
    reveal_strlit("TEMP");
    if is_function(t) {
        if t.len() >= 4 {
            assert(t.subrange(0, 4)[0] == t[0]);
        }
        lemma_no_number(t);
    }
}

/// The reading of a reply that is a number has the value that the reply spells, sign included, in
/// the base unit, and as many decimal places as the reply shows. A number names neither a mode nor
/// a range.
pub proof fn law_xdm_reading_is_the_number(
    swap: bool,
    before: Seq<char>,
    n: Numeral,
    after: Seq<char>,
)
    requires
        blank(before),
        blank(after),
        n.wf(),
    ensures
        ({
            let parsed = (DeviceFamily::Default { swap_diod_cont: swap }).parse_measurement(
                before + n.text() + after,
            );
            &&& parsed.measurement == Some(ReadingText::Number(n.text(), SiPrefix::One))
            &&& parsed.measurement matches Some(ReadingText::Number(text, _)) && exact(text)
                == n.value()
            &&& parsed.precision == Some(
                Precision { decimals: n.places.len() as usize, prefix: SiPrefix::One },
            )
            &&& parsed.mode is None
            &&& parsed.range_index == Matching::Settled(None)
        }),
        ({
            let parsed = DeviceModel::Xdm1041.parse(before + n.text() + after, swap);
            &&& parsed.measurement == Some(ReadingText::Number(n.text(), SiPrefix::One))
            &&& parsed.decimals == Some(n.places.len())
            &&& parsed.mode is None
            &&& parsed.range_index == Matching::Settled(None)
        }),
{
    lemma_numeral_chars(n);
    law_numerals_are_numbers(n);
    law_trimming_takes_the_margins(before, n.text(), after);
    lemma_numbers_are_no_functions(n.text());
}

/// A minus sign in front of a number makes its reading the negative one.
pub proof fn law_xdm_minus_negates(swap: bool, whole: Seq<char>, places: Seq<char>)
    requires
        (Numeral { sign: seq![], whole, places }).wf(),
    ensures
        ({
            let family = DeviceFamily::Default { swap_diod_cont: swap };
            let n = (Numeral { sign: seq![], whole, places }).text();
            family.parse_measurement(n).measurement matches Some(ReadingText::Number(plus, p))
                && family.parse_measurement(seq!['-'] + n).measurement matches Some(
                ReadingText::Number(minus, q),
            ) && p == q && exact(minus).power == exact(plus).power && exact(minus).mantissa
                == -exact(plus).mantissa
        }),
{
    let a = Numeral { sign: seq![], whole, places };
    let b = Numeral { sign: seq!['-'], whole, places };
    lemma_bare_reading(swap, a);
    lemma_bare_reading(swap, b);
    assert(b.text() =~= seq!['-'] + a.text());
    assert(a.sign != seq!['-']) by {
        assert(seq!['-'].len() == 1);
    }
}

/// The reading of a number without margins.
proof fn lemma_bare_reading(swap: bool, n: Numeral)
    requires
        n.wf(),
    ensures
        (DeviceFamily::Default { swap_diod_cont: swap }).parse_measurement(n.text()).measurement
            == Some(ReadingText::Number(n.text(), SiPrefix::One)),
        exact(n.text()) == n.value(),
{
    let none = Seq::<char>::empty();
    law_numerals_are_numbers(n);
    law_xdm_reading_is_the_number(swap, none, n, none);
    assert(none + n.text() + none =~= n.text());
}

/// Whatever number a reply is, in whatever notation, its reading has the exact value of the trimmed
/// reply, in the base unit.
pub proof fn law_xdm_reading_keeps_the_value(swap: bool, reply: Seq<char>)
    requires
        is_number(trimmed(reply)),
    ensures
        ({
            let parsed = (DeviceFamily::Default { swap_diod_cont: swap }).parse_measurement(reply);
            &&& parsed.measurement matches Some(ReadingText::Number(text, prefix)) && exact(text)
                == exact(trimmed(reply)) && is_number(text) && prefix.power() == 0
            &&& parsed.mode is None
        }),
{
    lemma_numbers_are_no_functions(trimmed(reply));
}

/// The answer to a function query, in quotes or not, tells the mode by its name, and no measurement.
/// Firmware that swaps diode and continuity means the other of the two.
pub proof fn law_xdm_function_is_the_mode(
    mode: MeterMode,
    swap: bool,
    before: Seq<char>,
    after: Seq<char>,
)
    requires
        blank(before),
        blank(after),
    ensures
        ({
            let family = DeviceFamily::Default { swap_diod_cont: swap };
            let name = mode_name(mode);
            let told = if swap && mode == MeterMode::Diod {
                MeterMode::Cont
            } else if swap && mode == MeterMode::Cont {
                MeterMode::Diod
            } else {
                mode
            };
            let bare = family.parse_measurement(before + name + after);
            let quoted = family.parse_measurement(before + (seq!['"'] + name + seq!['"']) + after);
            &&& bare.mode == Some(told)
            &&& quoted == bare
            &&& bare.measurement is None
            &&& bare.precision is None
            &&& bare.range_index == Matching::Settled(None)
            &&& DeviceModel::Xdm1041.parse(before + name + after, swap).mode == Some(told)
            &&& DeviceModel::Xdm1041.parse(before + name + after, swap).measurement is None
        }),
{
    let name = mode_name(mode);
    let q = seq!['"'] + name + seq!['"'];
    law_names_stand_for_their_modes(mode);
    law_names_are_answers(mode, swap);
    lemma_names_are_words(mode);
    law_trimming_takes_the_margins(before, name, after);
    assert(q[0] == '"' && q.last() == '"');
    law_trimming_takes_the_margins(before, q, after);
    lemma_untrimmed(name, CharClass::Only('"'));
    let class = CharClass::Only('"');
    lemma_leading(q, class, 1);
    let t = trim_start(q, class);
    assert(t =~= name + seq!['"']);
    lemma_trailing(t, class, 1);
    assert(trim_end(t, class) =~= name);
    lemma_names_are_functions(mode);
}

/// The names of the modes are recognised as functions.
proof fn lemma_names_are_functions(mode: MeterMode)
    ensures
        is_function(mode_name(mode)),
{
    reveal_strlit("VOLT");
    reveal_strlit("CURR");
    reveal_strlit("VOLT:DC");
    reveal_strlit("VOLT:AC");
    reveal_strlit("CURR:DC");
    reveal_strlit("CURR:AC");
    assert("VOLT:DC"@.subrange(0, 4) =~= "VOLT"@);
    assert("VOLT:AC"@.subrange(0, 4) =~= "VOLT"@);
    assert("CURR:DC"@.subrange(0, 4) =~= "CURR"@);
    assert("CURR:AC"@.subrange(0, 4) =~= "CURR"@);
}

// ---------------------------------------------------------------------------------------------
// Units
// ---------------------------------------------------------------------------------------------

/// The first letter of a unit tells the power of ten, whatever the unit: nano, micro, milli, kilo,
/// mega and giga. Any other letter, and no unit at all, stand for one.
pub proof fn law_prefix_letters(unit: Seq<char>)
    ensures
        unit.len() == 0 ==> si_prefix(unit).power() == 0,
        unit.len() > 0 ==> si_prefix(unit).power() == (match unit[0] {
            'n' => -9int,
            'u' => -6,
            '\u{3bc}' => -6,
            'm' => -3,
            'k' => 3,
            'K' => 3,
            'M' => 6,
            'G' => 9,
            _ => 0,
        }),
{
}

/// A reading in a smaller unit needs as many more decimal places in the base unit as there are
/// powers of ten between the two; a larger unit takes none away.
pub proof fn law_small_units_add_places(prefix: SiPrefix)
    ensures
        prefix.power() <= 0 ==> prefix.added_decimals() == -prefix.power(),
        prefix.power() >= 0 ==> prefix.added_decimals() == 0,
{
}

/// Whether all characters are ASCII letters.
pub open spec fn only_letters(s: Seq<char>) -> bool {
    forall|k: int|
        0 <= k < s.len() ==> 'a' <= #[trigger] s[k] <= 'z' || 'A' <= s[k] <= 'Z'
}

/// A value field is a number and a unit, with a space between them or not: its reading is that
/// number, in that unit, and it has the decimal places of that number.
pub proof fn law_value_is_number_and_unit(n: Numeral, gap: Seq<char>, unit: Seq<char>)
    requires
        n.wf(),
        gap == Seq::<char>::empty() || gap == seq![' '],
        only_letters(unit),
    ensures
        value_number(n.text() + gap + unit) == n.text(),
        value_prefix(n.text() + gap + unit) == si_prefix(unit),
        value_reading(n.text() + gap + unit) == Some(
            ReadingText::Number(n.text(), si_prefix(unit)),
        ),
        decimal_places(value_number(n.text() + gap + unit)) == n.places.len(),
        !is_overload(n.text() + gap + unit),
{
    let t = n.text();
    let v = t + gap + unit;
    lemma_numeral_chars(n);
    law_numerals_are_numbers(n);
    assert forall|k: int| 0 <= k < t.len() implies t[k] != ' ' by {
        assert(digit(t[k]) || t[k] == '+' || t[k] == '-' || t[k] == '.');
    }
    assert forall|k: int| 0 <= k < unit.len() implies unit[k] != ' ' by {
        assert('a' <= unit[k] <= 'z' || 'A' <= unit[k] <= 'Z');
    }
    let clean = t + unit;
    if gap.len() == 0 {
        assert(v =~= clean);
        assert forall|k: int| 0 <= k < v.len() implies v[k] != ' ' by {
            if k < t.len() {
                assert(v[k] == t[k]);
            } else {
                assert(v[k] == unit[k - t.len()]);
            }
        }
        lemma_without_absent(v, ' ');
    } else {
        lemma_without_one(t, ' ', unit);
    }
    assert(without_char(v, ' ') == clean);
    assert forall|k: int| clean.len() - unit.len() <= k < clean.len() implies
        CharClass::Letter.has(#[trigger] clean[k]) by {
        assert(clean[k] == unit[k - t.len()]);
        assert('a' <= unit[k - t.len()] <= 'z' || 'A' <= unit[k - t.len()] <= 'Z');
    }
    assert(clean[clean.len() - unit.len() - 1] == t.last());
    lemma_trailing(clean, CharClass::Letter, unit.len());
    assert(trim_end(clean, CharClass::Letter) =~= t);
    assert(clean.skip(t.len() as int) =~= unit);
    reveal_strlit("OL");
    reveal_strlit("Open");
    assert(v[0] == t[0]);
    if v.len() >= 2 {
        assert(v.subrange(0, 2)[0] == v[0]);
    }
}

// ---------------------------------------------------------------------------------------------
// Readings of the SPM power supplies
// ---------------------------------------------------------------------------------------------

/// Whether a text can stand as a field of a reply: one line without a comma, and no white space
/// around it.
pub open spec fn field(s: Seq<char>) -> bool {
    &&& s.len() > 0
    &&& !white_space(s[0])
    &&& !white_space(s.last())
    &&& forall|k: int| 0 <= k < s.len() ==> #[trigger] s[k] != ','
}

/// Splitting off the first piece.
pub proof fn lemma_split_first(a: Seq<char>, sep: char, rest: Seq<char>)
    requires
        forall|k: int| 0 <= k < a.len() ==> #[trigger] a[k] != sep,
    ensures
        split(a + seq![sep] + rest, sep) == seq![a] + split(rest, sep),
{
    let s = a + seq![sep] + rest;
    assert forall|k: int| 0 <= k < a.len() implies CharClass::Except(sep).has(
        #[trigger] s[k],
    ) by {
        assert(s[k] == a[k]);
    }
    assert(s[a.len() as int] == sep);
    lemma_leading(s, CharClass::Except(sep), a.len());
    assert(s.take(a.len() as int) =~= a);
    assert(s.skip(a.len() as int + 1) =~= rest);
}

/// A text without the separator is its one piece.
pub proof fn lemma_split_none(a: Seq<char>, sep: char)
    requires
        forall|k: int| 0 <= k < a.len() ==> #[trigger] a[k] != sep,
    ensures
        split(a, sep) == seq![a],
{
    lemma_leading(a, CharClass::Except(sep), a.len());
}

/// The reply `TYPE,VALUE,STATUS,RANGE`.
pub open spec fn spm_reply(
    name: Seq<char>,
    value: Seq<char>,
    status: Seq<char>,
    range: Seq<char>,
) -> Seq<char> {
    name + seq![','] + value + seq![','] + status + seq![','] + range
}

/// The fields of a reply are what stands between its commas.
proof fn lemma_reply_fields(
    name: Seq<char>,
    value: Seq<char>,
    status: Seq<char>,
    range: Seq<char>,
)
    requires
        field(name),
        field(value),
        field(status),
        field(range),
    ensures
        trimmed(spm_reply(name, value, status, range)) == spm_reply(name, value, status, range),
        spm_reply(name, value, status, range).contains(','),
        split(spm_reply(name, value, status, range), ',') == seq![name, value, status, range],
        trimmed(name) == name,
        trimmed(value) == value,
        trimmed(status) == status,
        trimmed(range) == range,
{
    let s = spm_reply(name, value, status, range);
    let r2 = status + seq![','] + range;
    let r1 = value + seq![','] + r2;
    assert(s =~= name + seq![','] + r1);
    lemma_split_first(name, ',', r1);
    lemma_split_first(value, ',', r2);
    lemma_split_first(status, ',', range);
    lemma_split_none(range, ',');
    assert(split(s, ',') =~= seq![name, value, status, range]);
    assert(s[0] == name[0] && s.last() == range.last());
    assert(s[name.len() as int] == ',');
    lemma_untrimmed(s, CharClass::Space);
    lemma_untrimmed(name, CharClass::Space);
    lemma_untrimmed(value, CharClass::Space);
    lemma_untrimmed(status, CharClass::Space);
    lemma_untrimmed(range, CharClass::Space);
}

/// A reply that consists of a mode's name, a number with its unit, a status and a range tells all
/// of them: the mode, the number in that unit with its decimal places, and the range, which is
/// automatic ranging if the status says so and the mode has it, and otherwise the one whose name is
/// given.
pub proof fn law_spm_reply_tells_all(
    mode: MeterMode,
    n: Numeral,
    gap: Seq<char>,
    unit: Seq<char>,
    status: Seq<char>,
    i: int,
    swap: bool,
)
    requires
        n.wf(),
        gap == Seq::<char>::empty() || gap == seq![' '],
        only_letters(unit),
        unit.len() > 0,
        field(status),
        spm_table(mode) matches Some(table) && 0 <= i < table.ranges.len(),
    ensures
        ({
            let ranges = (spm_table(mode)->0).ranges;
            let reply = spm_reply(
                mode_name(mode),
                n.text() + gap + unit,
                status,
                ranges[i].0,
            );
            let index = if eq_ignoring_case(status, "AUTO"@) && ranges[0].0 == "auto"@ {
                0
            } else {
                i
            };
            let parsed = DeviceFamily::Spm.parse_measurement(reply);
            let old = DeviceModel::Spm6103.parse(reply, swap);
            &&& parsed.mode == Some(mode)
            &&& parsed.measurement == Some(ReadingText::Number(n.text(), si_prefix(unit)))
            &&& exact(n.text()) == n.value()
            &&& parsed.precision == Some(
                Precision { decimals: n.places.len() as usize, prefix: si_prefix(unit) },
            )
            &&& parsed.range_index == Matching::Settled(Some(index as usize))
            &&& old.mode == parsed.mode
            &&& old.measurement == parsed.measurement
            &&& old.range_index == parsed.range_index
            &&& old.decimals == Some(n.places.len() + si_prefix(unit).added_decimals())
        }),
{
    let name = mode_name(mode);
    let value = n.text() + gap + unit;
    let range = (spm_table(mode)->0).ranges[i].0;
    let fields = seq![name, value, status, range];
    lemma_names_are_words(mode);
    law_names_stand_for_their_modes(mode);
    law_numerals_are_numbers(n);
    law_value_is_number_and_unit(n, gap, unit);
    lemma_value_field(n, gap, unit);
    lemma_range_fields(mode, i);
    lemma_reply_fields(name, value, status, range);
    assert(fields[0] == name && fields[1] == value && fields[2] == status && fields[3] == range);
    lemma_status_and_range(mode, fields, i);
    law_spm6103_has_the_spm_ranges(mode);
}

/// A number with its unit can stand as a field.
proof fn lemma_value_field(n: Numeral, gap: Seq<char>, unit: Seq<char>)
    requires
        n.wf(),
        gap == Seq::<char>::empty() || gap == seq![' '],
        only_letters(unit),
        unit.len() > 0,
    ensures
        field(n.text() + gap + unit),
{
    let value = n.text() + gap + unit;
    lemma_numeral_chars(n);
    assert(value[0] == n.text()[0] && value.last() == unit.last());
    assert('a' <= unit[unit.len() - 1] <= 'z' || 'A' <= unit[unit.len() - 1] <= 'Z');
    assert forall|k: int| 0 <= k < value.len() implies #[trigger] value[k] != ',' by {
        if k < n.text().len() {
            assert(value[k] == n.text()[k]);
        } else if k < n.text().len() + gap.len() {
            assert(value[k] == gap[k - n.text().len()]);
        } else {
            assert(value[k] == unit[k - n.text().len() - gap.len()]);
        }
    }
}

/// The range that the status and the range field name.
proof fn lemma_status_and_range(mode: MeterMode, fields: Seq<Seq<char>>, i: int)
    requires
        spm_table(mode) matches Some(table) && 0 <= i < table.ranges.len() && fields.len() == 4
            && fields[3] == table.ranges[i].0,
        field(fields[2]),
        field(fields[3]),
    ensures
        ({
            let ranges = (spm_table(mode)->0).ranges;
            let index = if eq_ignoring_case(fields[2], "AUTO"@) && ranges[0].0 == "auto"@ {
                0
            } else {
                i
            };
            &&& field_range(spm_table(mode), fields) == Matching::Settled(Some(index as usize))
            &&& field_range(spm6103_table(mode), fields) == field_range(spm_table(mode), fields)
        }),
{
    let range = fields[3];
    lemma_range_fields(mode, i);
    lemma_untrimmed(fields[2], CharClass::Space);
    lemma_untrimmed(range, CharClass::Space);
    lemma_without_absent(range, ' ');
    law_spm_reply_names_range(mode, i, range);
    law_spm6103_has_the_spm_ranges(mode);
}

/// The names of the SPM ranges can stand as fields.
proof fn lemma_range_fields(mode: MeterMode, i: int)
    requires
        spm_table(mode) matches Some(table) && 0 <= i < table.ranges.len(),
    ensures
        field((spm_table(mode)->0).ranges[i].0),
        forall|k: int|
            0 <= k < (spm_table(mode)->0).ranges[i].0.len() ==> (spm_table(
                mode,
            )->0).ranges[i].0[k] != ' ',
{
    reveal_strlit("auto");
    reveal_strlit("200mV");
    reveal_strlit("2V");
    reveal_strlit("20V");
    reveal_strlit("200V");
    reveal_strlit("1000V");
    reveal_strlit("750V");
    reveal_strlit("200mA");
    reveal_strlit("10A");
    reveal_strlit("200Ohm");
    reveal_strlit("2kOhm");
    reveal_strlit("20kOhm");
    reveal_strlit("200kOhm");
    reveal_strlit("2MOhm");
    reveal_strlit("20MOhm");
    reveal_strlit("100MOhm");
}

/// A value that begins with `OL`, or that is `Open`, reads as an overload, in every mode and
/// whatever else the reply holds, and has no precision.
pub proof fn law_spm_overload_is_told(
    mode: MeterMode,
    value: Seq<char>,
    status: Seq<char>,
    range: Seq<char>,
)
    requires
        field(value),
        field(status),
        field(range),
        (value.len() >= 2 && value[0] == 'O' && value[1] == 'L') || value == "Open"@,
    ensures
        ({
            let reply = spm_reply(mode_name(mode), value, status, range);
            let parsed = DeviceFamily::Spm.parse_measurement(reply);
            &&& parsed.mode == Some(mode)
            &&& parsed.measurement == Some(ReadingText::Overload)
            &&& parsed.precision is None
            &&& DeviceModel::Spm6103.parse(reply, false).measurement == Some(ReadingText::Overload)
        }),
{
    lemma_names_are_words(mode);
    law_names_stand_for_their_modes(mode);
    lemma_reply_fields(mode_name(mode), value, status, range);
    let fields = seq![mode_name(mode), value, status, range];
    assert(fields[0] == mode_name(mode) && fields[1] == value);
    reveal_strlit("OL");
    if value.len() >= 2 && value[0] == 'O' && value[1] == 'L' {
        assert(value.subrange(0, 2) =~= "OL"@);
    }
}

// ---------------------------------------------------------------------------------------------
// Answers of the power supply
// ---------------------------------------------------------------------------------------------

/// The output state is answered in the words that switch it, or as one or zero, whatever white
/// space is around it; what was switched on reads back as on, and what was switched off as off.
pub proof fn law_output_state_reads_back(
    on: bool,
    word: Seq<char>,
    before: Seq<char>,
    after: Seq<char>,
)
    requires
        blank(before),
        blank(after),
        DeviceFamily::Spm.ps_output_command(on) == Some("OUTP "@ + word + "\n"@) || word == (
        if on {
            seq!['1']
        } else {
            seq!['0']
        }),
    ensures
        output_state(before + word + after) == Some(on),
{
    reveal_strlit("OUTP ");
    reveal_strlit("\n");
    reveal_strlit("OUTP ON\n");
    reveal_strlit("OUTP OFF\n");
    reveal_strlit("ON");
    reveal_strlit("OFF");
    reveal_strlit("1");
    reveal_strlit("0");
    assert("1"@ =~= seq!['1']);
    assert("0"@ =~= seq!['0']);
    if DeviceFamily::Spm.ps_output_command(on) == Some("OUTP "@ + word + "\n"@) {
        let command = DeviceFamily::Spm.ps_output_command(on)->0;
        assert(word =~= command.subrange(5, command.len() - 1));
        assert(word =~= (if on {
            "ON"@
        } else {
            "OFF"@
        }));
    } else {
        assert(word.len() == 1);
    }
    law_trimming_takes_the_margins(before, word, after);
    assert(trimmed(before + word + after) == word);
    lemma_switch_words();
}

/// The words for the two output states are told apart.
proof fn lemma_switch_words()
    ensures
        eq_ignoring_case("ON"@, "ON"@),
        eq_ignoring_case("OFF"@, "OFF"@),
        !eq_ignoring_case("OFF"@, "ON"@),
        !eq_ignoring_case("0"@, "ON"@),
        "OFF"@ != "1"@,
        "0"@ != "1"@,
{
    reveal_strlit("ON");
    reveal_strlit("OFF");
    reveal_strlit("1");
    reveal_strlit("0");
    assert(ascii_lower("ON"@).len() == 2);
    assert(ascii_lower("OFF"@).len() == 3);
    assert(ascii_lower("0"@).len() == 1);
    assert("0"@[0] != "1"@[0]);
}

/// The answer about a setting is the number as it stands, whatever white space is around it.
pub proof fn law_setting_reads_back(n: Numeral, before: Seq<char>, after: Seq<char>)
    requires
        n.wf(),
        blank(before),
        blank(after),
    ensures
        ps_value(before + n.text() + after) == Some(n.text()),
        exact(n.text()) == n.value(),
{
    lemma_numeral_chars(n);
    law_numerals_are_numbers(n);
    law_trimming_takes_the_margins(before, n.text(), after);
}

/// The measured output is voltage, current and power, in this order, whether commas or spaces stand
/// between them. Without the power, it is left to be computed from the others.
pub proof fn law_measured_output_is_in_order(v: Numeral, a: Numeral, w: Numeral)
    requires
        v.wf(),
        a.wf(),
        w.wf(),
    ensures
        ps_meas_all(v.text() + seq![','] + a.text() + seq![','] + w.text()) == Some(
            PsOutput {
                voltage: v.text(),
                current: a.text(),
                power: PowerText::Reported(w.text()),
            },
        ),
        ps_meas_all(v.text() + seq![' '] + a.text() + seq![' '] + w.text()) == Some(
            PsOutput {
                voltage: v.text(),
                current: a.text(),
                power: PowerText::Reported(w.text()),
            },
        ),
        ps_meas_all(v.text() + seq![','] + a.text()) == Some(
            PsOutput { voltage: v.text(), current: a.text(), power: PowerText::Product },
        ),
        ps_meas_all(v.text() + seq![' '] + a.text()) == Some(
            PsOutput { voltage: v.text(), current: a.text(), power: PowerText::Product },
        ),
{
    lemma_numeral_field(v);
    lemma_numeral_field(a);
    lemma_numeral_field(w);
    lemma_measured_by_commas(v.text(), a.text(), w.text());
    lemma_measured_by_spaces(v.text(), a.text(), w.text());
}

/// A numeral as a word and as a field.
proof fn lemma_numeral_field(n: Numeral)
    requires
        n.wf(),
    ensures
        field(n.text()),
        plain(n.text()),
        is_number(n.text()),
        forall|k: int| 0 <= k < n.text().len() ==> #[trigger] n.text()[k] != ' ',
{
    lemma_numeral_chars(n);
    law_numerals_are_numbers(n);
    assert forall|k: int| 0 <= k < n.text().len() implies !white_space(#[trigger] n.text()[k])
        && n.text()[k] != '"' && n.text()[k] != ',' && n.text()[k] != ' ' by {
        assert(digit(n.text()[k]) || n.text()[k] == '+' || n.text()[k] == '-' || n.text()[k]
            == '.');
    }
}

/// Numbers between commas.
proof fn lemma_measured_by_commas(v: Seq<char>, a: Seq<char>, w: Seq<char>)
    requires
        field(v),
        field(a),
        field(w),
        is_number(v),
        is_number(a),
        is_number(w),
    ensures
        ps_meas_all(v + seq![','] + a + seq![','] + w) == Some(
            PsOutput { voltage: v, current: a, power: PowerText::Reported(w) },
        ),
        ps_meas_all(v + seq![','] + a) == Some(
            PsOutput { voltage: v, current: a, power: PowerText::Product },
        ),
{
    let two = v + seq![','] + a;
    let tail = a + seq![','] + w;
    let three = v + seq![','] + a + seq![','] + w;
    assert(three =~= v + seq![','] + tail);
    assert(two[0] == v[0] && two.last() == a.last());
    assert(three[0] == v[0] && three.last() == w.last());
    lemma_untrimmed(two, CharClass::Space);
    lemma_untrimmed(three, CharClass::Space);
    assert(two[v.len() as int] == ',');
    assert(three[v.len() as int] == ',');
    lemma_split_first(v, ',', a);
    lemma_split_first(v, ',', tail);
    lemma_split_first(a, ',', w);
    lemma_split_none(a, ',');
    lemma_split_none(w, ',');
    assert(split(two, ',') =~= seq![v, a]);
    assert(split(three, ',') =~= seq![v, a, w]);
}

/// Numbers between spaces.
proof fn lemma_measured_by_spaces(v: Seq<char>, a: Seq<char>, w: Seq<char>)
    requires
        field(v),
        field(a),
        field(w),
        plain(v),
        plain(a),
        plain(w),
        is_number(v),
        is_number(a),
        is_number(w),
    ensures
        ps_meas_all(v + seq![' '] + a + seq![' '] + w) == Some(
            PsOutput { voltage: v, current: a, power: PowerText::Reported(w) },
        ),
        ps_meas_all(v + seq![' '] + a) == Some(
            PsOutput { voltage: v, current: a, power: PowerText::Product },
        ),
{
    let two = v + seq![' '] + a;
    let tail = a + seq![' '] + w;
    let three = v + seq![' '] + a + seq![' '] + w;
    assert(three =~= v + seq![' '] + tail);
    assert(two[0] == v[0] && two.last() == a.last());
    assert(three[0] == v[0] && three.last() == w.last());
    lemma_untrimmed(two, CharClass::Space);
    lemma_untrimmed(three, CharClass::Space);
    assert forall|k: int| 0 <= k < three.len() implies three[k] != ',' by {
        if k < v.len() {
            assert(three[k] == v[k]);
        } else if k > v.len() && k < v.len() + 1 + a.len() {
            assert(three[k] == a[k - v.len() - 1]);
        } else if k > v.len() + 1 + a.len() {
            assert(three[k] == w[k - v.len() - 1 - a.len() - 1]);
        }
    }
    assert forall|k: int| 0 <= k < two.len() implies two[k] != ',' by {
        assert(two[k] == three[k]);
    }
    assert(tail[0] == a[0]);
    lemma_first_word(v, a);
    lemma_first_word(v, tail);
    lemma_first_word(a, w);
    lemma_one_word(a);
    lemma_one_word(w);
    assert(words(two) =~= seq![v, a]);
    assert(words(three) =~= seq![v, a, w]);
}

/// The first word of a text, and the words behind it.
proof fn lemma_first_word(a: Seq<char>, rest: Seq<char>)
    requires
        plain(a),
        rest.len() > 0,
        !white_space(rest[0]),
    ensures
        words(a + seq![' '] + rest) == seq![a] + words(rest),
{
    let s = a + seq![' '] + rest;
    assert(s[0] == a[0]);
    lemma_leading(s, CharClass::Space, 0);
    assert(trim_start(s, CharClass::Space) =~= s);
    assert forall|k: int| 0 <= k < a.len() implies CharClass::NotSpace.has(#[trigger] s[k]) by {
        assert(s[k] == a[k]);
    }
    assert(s[a.len() as int] == ' ');
    lemma_leading(s, CharClass::NotSpace, a.len());
    assert(s.take(a.len() as int) =~= a);
    let r = s.skip(a.len() as int);
    assert(r =~= seq![' '] + rest);
    assert(r[1] == rest[0]);
    lemma_leading(r, CharClass::Space, 1);
    assert(trim_start(r, CharClass::Space) =~= rest);
    lemma_leading(rest, CharClass::Space, 0);
    assert(trim_start(rest, CharClass::Space) =~= rest);
    lemma_leading_holds(rest, CharClass::NotSpace);
    assert(words(r) =~= words(rest));
    assert(words(s) =~= seq![a] + words(r));
}

// ---------------------------------------------------------------------------------------------
// Other replies
// ---------------------------------------------------------------------------------------------

/// A reply of an XDM multimeter that is neither a number nor a function tells nothing, and neither
/// does a reply of an SPM power supply without a comma.
pub proof fn law_other_replies_tell_nothing(swap: bool, reply: Seq<char>)
    ensures
        !is_number(trimmed(reply)) && !is_function(
            trim(trimmed(reply), CharClass::Only('"')),
        ) ==> {
            let parsed = (DeviceFamily::Default { swap_diod_cont: swap }).parse_measurement(reply);
            &&& parsed.measurement is None
            &&& parsed.mode is None
            &&& parsed.precision is None
            &&& parsed.range_index == Matching::Settled(None)
            &&& DeviceModel::Xdm1041.parse(reply, swap).measurement is None
            &&& DeviceModel::Xdm1041.parse(reply, swap).mode is None
        },
        !trimmed(reply).contains(',') ==> {
            let parsed = DeviceFamily::Spm.parse_measurement(reply);
            &&& parsed.measurement is None
            &&& parsed.mode is None
            &&& parsed.precision is None
            &&& parsed.range_index == Matching::Settled(None)
            &&& DeviceModel::Spm6103.parse(reply, swap).measurement is None
            &&& DeviceModel::Spm6103.parse(reply, swap).mode is None
        },
{
}

/// The range field of a reply is read as the answer to a range query would be, unless the status
/// says that ranging is automatic. A reply that names no mode names no range; its value is read all
/// the same.
pub proof fn law_spm_range_field_is_an_answer(
    name: Seq<char>,
    value: Seq<char>,
    status: Seq<char>,
    range: Seq<char>,
)
    requires
        field(name),
        field(value),
        field(status),
        field(range),
    ensures
        ({
            let parsed = DeviceFamily::Spm.parse_measurement(
                spm_reply(name, value, status, range),
            );
            &&& parsed.mode == mode_named(name, false)
            &&& parsed.measurement == value_reading(value)
            &&& parsed.mode is None ==> parsed.range_index == Matching::Settled(None)
            &&& parsed.mode matches Some(mode) ==> !eq_ignoring_case(status, "AUTO"@)
                ==> parsed.range_index == DeviceFamily::Spm.parse_range_response(range, mode)
        }),
{
    lemma_reply_fields(name, value, status, range);
    let fields = seq![name, value, status, range];
    assert(fields[0] == name && fields[1] == value && fields[2] == status && fields[3] == range);
}

/// A reply of a name and a value alone tells mode and measurement, and no range.
pub proof fn law_spm_short_reply_tells_no_range(mode: MeterMode, value: Seq<char>)
    requires
        field(value),
    ensures
        ({
            let parsed = DeviceFamily::Spm.parse_measurement(mode_name(mode) + seq![','] + value);
            &&& parsed.mode == Some(mode)
            &&& parsed.measurement == value_reading(value)
            &&& parsed.range_index == Matching::Settled(None)
        }),
{
    let name = mode_name(mode);
    let s = name + seq![','] + value;
    lemma_names_are_words(mode);
    law_names_stand_for_their_modes(mode);
    lemma_split_first(name, ',', value);
    lemma_split_none(value, ',');
    assert(split(s, ',') =~= seq![name, value]);
    assert(s[0] == name[0] && s.last() == value.last());
    assert(s[name.len() as int] == ',');
    lemma_untrimmed(s, CharClass::Space);
    lemma_untrimmed(name, CharClass::Space);
    lemma_untrimmed(value, CharClass::Space);
}

/// A value whose number, once the letters behind it are taken off, is none reads as nothing, unless
/// it reports an overload.
pub proof fn law_values_without_a_number_are_none(value: Seq<char>)
    requires
        !is_number(value_number(value)),
        !(value.len() >= 2 && value[0] == 'O' && value[1] == 'L'),
        value != "Open"@,
    ensures
        value_reading(value) is None,
{
    reveal_strlit("OL");
    if value.len() >= 2 {
        assert(value.subrange(0, 2)[0] == value[0]);
        assert(value.subrange(0, 2)[1] == value[1]);
    }
}

/// A function whose name is split by a space is the same function, whether or not a range follows:
/// `VOLT AC` is alternating voltage, `CURR AC` alternating current. Without the second word it is
/// direct.
pub proof fn law_split_names_are_understood(swap: bool, rest: Seq<char>)
    ensures
        function_mode("VOLT AC"@, swap) == Some(MeterMode::Vac),
        function_mode("CURR AC"@, swap) == Some(MeterMode::Aac),
        function_mode("VOLT AC "@ + rest, swap) == Some(MeterMode::Vac),
        function_mode("CURR AC "@ + rest, swap) == Some(MeterMode::Aac),
        function_mode("VOLT"@, swap) == Some(MeterMode::Vdc),
        function_mode("CURR"@, swap) == Some(MeterMode::Adc),
{
    reveal_strlit("VOLT AC");
    reveal_strlit("CURR AC");
    reveal_strlit("VOLT AC ");
    reveal_strlit("CURR AC ");
    reveal_strlit("VOLT");
    reveal_strlit("CURR");
    reveal_strlit("VOLT:DC");
    reveal_strlit("VOLT:AC");
    assert("VOLT AC"@[0] != "CURR AC"@[0]);
    let a = "VOLT AC "@ + rest;
    let b = "CURR AC "@ + rest;
    assert(a.subrange(0, 8) =~= "VOLT AC "@);
    assert(b.subrange(0, 8) =~= "CURR AC "@);
    assert(b[0] == 'C');
    assert(b.subrange(0, 8)[0] == b[0]);
    assert("VOLT AC "@[0] == 'V');
    lemma_one_word("VOLT"@);
    lemma_one_word("CURR"@);
    assert(seq!["VOLT"@][0] == "VOLT"@);
    assert(seq!["CURR"@][0] == "CURR"@);
    assert("CURR"@[0] != "VOLT"@[0]);
    assert("CURR"@.len() != "VOLT:DC"@.len());
    assert("CURR"@.len() != "VOLT:AC"@.len());
}

/// A function name may be followed by a range: the mode is that of the name.
pub proof fn law_range_behind_a_name_is_ignored(mode: MeterMode, swap: bool, value: Seq<char>)
    requires
        plain(value),
    ensures
        function_mode(mode_name(mode) + seq![' '] + value, swap) == mode_named(
            mode_name(mode),
            swap,
        ),
{
    let name = mode_name(mode);
    let s = name + seq![' '] + value;
    lemma_names_are_words(mode);
    lemma_first_word(name, value);
    assert(words(s)[0] == name);
    reveal_strlit("VOLT AC");
    reveal_strlit("CURR AC");
    reveal_strlit("VOLT AC ");
    reveal_strlit("CURR AC ");
    lemma_fifth_letter(mode);
    if s.len() >= 7 {
        assert(name.len() >= 5 ==> s[4] == name[4]);
        if name.len() == 4 {
            assert(s[0] == name[0] && s[1] == name[1]);
        } else if name.len() == 3 {
            assert(s[3] == ' ');
        }
    }
    if s.len() >= 8 {
        assert(s.subrange(0, 8)[0] == s[0]);
        assert(s.subrange(0, 8)[1] == s[1]);
        assert(s.subrange(0, 8)[3] == s[3]);
        assert(s.subrange(0, 8)[4] == s[4]);
    }
}

/// No name can be taken for the beginning of a split one.
proof fn lemma_fifth_letter(mode: MeterMode)
    ensures
        ({
            let name = mode_name(mode);
            &&& name.len() == 3 || name.len() == 4 || name.len() == 7
            &&& name.len() == 7 ==> name[4] == ':'
            &&& name.len() == 4 ==> (name[0] != 'V' && name[0] != 'C') || name[1] == 'O' && name[0]
                == 'C'
        }),
{
    reveal_strlit("VOLT:DC");
    reveal_strlit("VOLT:AC");
    reveal_strlit("CURR:DC");
    reveal_strlit("CURR:AC");
    reveal_strlit("RES");
    reveal_strlit("CAP");
    reveal_strlit("FREQ");
    reveal_strlit("PER");
    reveal_strlit("DIOD");
    reveal_strlit("CONT");
    reveal_strlit("TEMP");
}

/// Case is ignored for the letters A to Z and for nothing else: two texts are the same if they have
/// the same length and each character is the same, or the same letter in the other case.
pub proof fn law_case_is_ignored(a: Seq<char>, b: Seq<char>)
    ensures
        eq_ignoring_case(a, b) == (a.len() == b.len() && forall|k: int|
            0 <= k < a.len() ==> {
                ||| #[trigger] a[k] == b[k]
                ||| 'A' <= a[k] <= 'Z' && b[k] as int == a[k] as int + 32
                ||| 'A' <= b[k] <= 'Z' && a[k] as int == b[k] as int + 32
            }),
{
    let x = ascii_lower(a);
    let y = ascii_lower(b);
    assert(x.len() == a.len() && y.len() == b.len());
    let alike = a.len() == b.len() && forall|k: int|
        0 <= k < a.len() ==> {
            ||| #[trigger] a[k] == b[k]
            ||| 'A' <= a[k] <= 'Z' && b[k] as int == a[k] as int + 32
            ||| 'A' <= b[k] <= 'Z' && a[k] as int == b[k] as int + 32
        };
    if alike {
        assert forall|k: int| 0 <= k < x.len() implies x[k] == y[k] by {
            assert(x[k] == ascii_lower_char(a[k]));
            assert(y[k] == ascii_lower_char(b[k]));
            assert(a[k] == b[k] || ('A' <= a[k] <= 'Z' && b[k] as int == a[k] as int + 32) || ('A'
                <= b[k] <= 'Z' && a[k] as int == b[k] as int + 32));
        }
        assert(x =~= y);
    }
    if x == y {
        assert forall|k: int| 0 <= k < a.len() implies {
            ||| #[trigger] a[k] == b[k]
            ||| 'A' <= a[k] <= 'Z' && b[k] as int == a[k] as int + 32
            ||| 'A' <= b[k] <= 'Z' && a[k] as int == b[k] as int + 32
        } by {
            assert(x[k] == ascii_lower_char(a[k]));
            assert(y[k] == ascii_lower_char(b[k]));
        }
    }
}

/// The answer to a range query is read by a model's plugin as by that of its family.
pub proof fn law_models_read_ranges_like_their_family(
    swap: bool,
    reply: Seq<char>,
    mode: MeterMode,
)
    ensures
        DeviceModel::Xdm1041.parse_range(reply, mode) == (DeviceFamily::Default {
            swap_diod_cont: swap,
        }).parse_range_response(reply, mode),
        DeviceModel::Spm6103.parse_range(reply, mode) == DeviceFamily::Spm.parse_range_response(
            reply,
            mode,
        ),
        spm_table(mode) is None ==> DeviceFamily::Spm.parse_range_response(reply, mode)
            == Matching::Settled(None),
{
    law_spm6103_has_the_spm_ranges(mode);
}

/// The ranges of a mode are offered by their names, all of them, in the order of the table.
pub proof fn law_ranges_are_offered_by_name(family: DeviceFamily, mode: MeterMode, i: int)
    ensures
        family.range_names(mode) is Some == family.range_table(mode) is Some,
        family.range_table(mode) matches Some(table) ==> {
            let names = family.range_names(mode)->0;
            &&& names.len() == table.ranges.len()
            &&& 0 <= i < names.len() ==> names[i] == table.ranges[i].0
        },
        family is Spm ==> family.range_table(mode) == spm_table(mode),
        family is Default ==> family.range_table(mode) == xdm_table(mode),
{
}

} // verus!
