//! Measurement ranges: what is known of a mode's ranges, and how a reply is matched to one.

use crate::double::{Double, TEN};
use crate::number::{is_number, NumberText};
use crate::text::{
    contains, contains_char, eq_ignoring_case, lower, occurs, remove_char, same, same_ignoring_case,
    split_words, strip, texts, to_lower, trim, trim_end, trimmed, without_char, without_ends,
    without_trailing, words, CharClass,
};
use vstd::prelude::*;

verus! {

// ---------------------------------------------------------------------------------------------
// Range tables
// ---------------------------------------------------------------------------------------------

/// The ranges of one mode, as pure data.
#[verifier::ext_equal]
pub struct RangeTable {
    /// What a command that selects a fixed range begins with.
    pub prefix: Seq<char>,
    /// The command that turns automatic ranging on, where it differs from the prefix.
    pub auto_on: Option<Seq<char>>,
    /// The command that turns automatic ranging off before a fixed range is selected.
    pub auto_off: Option<Seq<char>>,
    /// Display name and SCPI value of each range.
    pub ranges: Seq<(Seq<char>, Seq<char>)>,
}

/// The ranges of one mode, with their SCPI details.
pub struct RangeDetails {
    pub scpi_prefix: &'static str,
    pub auto_on_cmd: Option<&'static str>,
    pub auto_off_cmd: Option<&'static str>,
    /// (display name, SCPI value)
    pub ranges: Vec<(&'static str, &'static str)>,
}

/// The contents of pairs of texts.
pub open spec fn pairs(v: Seq<(&'static str, &'static str)>) -> Seq<(Seq<char>, Seq<char>)> {
    Seq::new(v.len(), |i: int| (v[i].0@, v[i].1@))
}

/// The content of a borrowed text that may be absent.
pub open spec fn borrowed(s: Option<&'static str>) -> Option<Seq<char>> {
    match s {
        Some(s) => Some(s@),
        None => None,
    }
}

impl View for RangeDetails {
    type V = RangeTable;

    open spec fn view(&self) -> RangeTable {
        RangeTable {
            prefix: self.scpi_prefix@,
            auto_on: borrowed(self.auto_on_cmd),
            auto_off: borrowed(self.auto_off_cmd),
            ranges: pairs(self.ranges@),
        }
    }
}

/// The table of details that may be absent.
pub open spec fn details(d: Option<RangeDetails>) -> Option<RangeTable> {
    match d {
        Some(d) => Some(d@),
        None => None,
    }
}

/// Whether the first range is automatic ranging.
pub open spec fn offers_auto(ranges: Seq<(Seq<char>, Seq<char>)>) -> bool {
    ranges.len() > 0 && ranges[0].0 == "auto"@
}

/// Decides `offers_auto`.
pub fn has_auto(ranges: &Vec<(&'static str, &'static str)>) -> (b: bool)
    ensures
        b == offers_auto(pairs(ranges@)),
{
    ranges.len() > 0 && same(ranges[0].0, "auto")
}

/// The display names of a table's ranges.
pub open spec fn names(ranges: Seq<(Seq<char>, Seq<char>)>) -> Seq<Seq<char>> {
    Seq::new(ranges.len(), |i: int| ranges[i].0)
}

/// Lists the display names.
pub fn list_names(ranges: &Vec<(&'static str, &'static str)>) -> (r: Vec<&'static str>)
    ensures
        texts(r@) == names(pairs(ranges@)),
{
    let mut r: Vec<&'static str> = Vec::new();
    let mut i: usize = 0;
    while i < ranges.len()
        invariant
            i <= ranges@.len(),
            r@.len() == i,
            forall|j: int| 0 <= j < i ==> #[trigger] r@[j] == ranges@[j].0,
        decreases ranges@.len() - i,
    {
        r.push(ranges[i].0);
        i += 1;
    }
    assert(texts(r@) =~= names(pairs(ranges@)));
    r
}

// ---------------------------------------------------------------------------------------------
// First match
// ---------------------------------------------------------------------------------------------

/// The least index at which a flag is set.
pub open spec fn first_true(flags: Seq<bool>) -> Option<usize>
    decreases flags.len(),
{
    if flags.len() == 0 {
        None
    } else {
        match first_true(flags.drop_last()) {
            Some(i) => Some(i),
            None => if flags.last() {
                Some((flags.len() - 1) as usize)
            } else {
                None
            },
        }
    }
}

/// What `first_true` finds is set, and nothing before it is.
pub proof fn lemma_first_true(flags: Seq<bool>)
    requires
        flags.len() <= usize::MAX,
    ensures
        first_true(flags) matches Some(i) ==> i < flags.len() && flags[i as int] && forall|j: int|
            0 <= j < i ==> !flags[j],
        first_true(flags) is None ==> forall|j: int| 0 <= j < flags.len() ==> !flags[j],
    decreases flags.len(),
{
    if flags.len() > 0 {
        lemma_first_true(flags.drop_last());
        let prev = flags.drop_last();
        assert forall|j: int| 0 <= j < prev.len() implies prev[j] == flags[j] by {}
    }
}

/// The first set flag, known by its position.
pub proof fn lemma_first_true_at(flags: Seq<bool>, i: int)
    requires
        flags.len() <= usize::MAX,
        0 <= i < flags.len(),
        flags[i],
        forall|j: int| 0 <= j < i ==> !flags[j],
    ensures
        first_true(flags) == Some(i as usize),
{
    lemma_first_true(flags);
    match first_true(flags) {
        Some(k) => {
            if k < i {
                assert(!flags[k as int]);
            }
        },
        None => {
            assert(!flags[i]);
        },
    }
}

/// No flag is set.
pub proof fn lemma_first_true_none(flags: Seq<bool>)
    requires
        flags.len() <= usize::MAX,
        forall|j: int| 0 <= j < flags.len() ==> !flags[j],
    ensures
        first_true(flags) is None,
{
    lemma_first_true(flags);
}

/// Finds the first set flag.
pub fn find_true(flags: &Vec<bool>) -> (r: Option<usize>)
    ensures
        r == first_true(flags@),
{
    let mut i: usize = 0;
    while i < flags.len()
        invariant
            i <= flags@.len(),
            forall|j: int| 0 <= j < i ==> !flags@[j],
        decreases flags@.len() - i,
    {
        if flags[i] {
            proof {
                lemma_first_true_at(flags@, i as int);
            }
            return Some(i);
        }
        i += 1;
    }
    proof {
        lemma_first_true_none(flags@);
    }
    None
}

/// The first range whose SCPI value is the text, up to case.
pub open spec fn by_value(ranges: Seq<(Seq<char>, Seq<char>)>, x: Seq<char>) -> Option<usize> {
    first_true(Seq::new(ranges.len(), |i: int| eq_ignoring_case(ranges[i].1, x)))
}

/// The first range whose display name, without spaces, is the text, up to case.
pub open spec fn by_name(ranges: Seq<(Seq<char>, Seq<char>)>, x: Seq<char>) -> Option<usize> {
    first_true(
        Seq::new(ranges.len(), |i: int| eq_ignoring_case(without_char(ranges[i].0, ' '), x)),
    )
}

/// The first range whose display name has the text as its lower-case form.
pub open spec fn by_lower_name(ranges: Seq<(Seq<char>, Seq<char>)>, x: Seq<char>) -> Option<
    usize,
> {
    first_true(Seq::new(ranges.len(), |i: int| x == lower(ranges[i].0)))
}

/// Finds a range by its SCPI value.
pub fn find_value(ranges: &Vec<(&'static str, &'static str)>, x: &str) -> (r: Option<usize>)
    ensures
        r == by_value(pairs(ranges@), x@),
{
    let ghost flags = Seq::new(
        pairs(ranges@).len(),
        |i: int| eq_ignoring_case(pairs(ranges@)[i].1, x@),
    );
    let mut i: usize = 0;
    while i < ranges.len()
        invariant
            i <= ranges@.len(),
            flags == Seq::new(
                pairs(ranges@).len(),
                |i: int| eq_ignoring_case(pairs(ranges@)[i].1, x@),
            ),
            forall|j: int| 0 <= j < i ==> !flags[j],
        decreases ranges@.len() - i,
    {
        if same_ignoring_case(ranges[i].1, x) {
            proof {
                lemma_first_true_at(flags, i as int);
            }
            return Some(i);
        }
        i += 1;
    }
    proof {
        lemma_first_true_none(flags);
    }
    None
}

/// Finds a range by its display name, spaces aside.
pub fn find_name(ranges: &Vec<(&'static str, &'static str)>, x: &str) -> (r: Option<usize>)
    ensures
        r == by_name(pairs(ranges@), x@),
{
    let ghost flags = Seq::new(
        pairs(ranges@).len(),
        |i: int| eq_ignoring_case(without_char(pairs(ranges@)[i].0, ' '), x@),
    );
    let mut i: usize = 0;
    while i < ranges.len()
        invariant
            i <= ranges@.len(),
            flags == Seq::new(
                pairs(ranges@).len(),
                |i: int| eq_ignoring_case(without_char(pairs(ranges@)[i].0, ' '), x@),
            ),
            forall|j: int| 0 <= j < i ==> !flags[j],
        decreases ranges@.len() - i,
    {
        let name: String = remove_char(ranges[i].0, ' ');
        if same_ignoring_case(name.as_str(), x) {
            proof {
                lemma_first_true_at(flags, i as int);
            }
            return Some(i);
        }
        i += 1;
    }
    proof {
        lemma_first_true_none(flags);
    }
    None
}

/// Finds a range by the lower-case form of its display name.
pub fn find_lower_name(ranges: &Vec<(&'static str, &'static str)>, x: &str) -> (r: Option<usize>)
    ensures
        r == by_lower_name(pairs(ranges@), x@),
{
    let ghost flags = Seq::new(pairs(ranges@).len(), |i: int| x@ == lower(pairs(ranges@)[i].0));
    let mut i: usize = 0;
    while i < ranges.len()
        invariant
            i <= ranges@.len(),
            flags == Seq::new(pairs(ranges@).len(), |i: int| x@ == lower(pairs(ranges@)[i].0)),
            forall|j: int| 0 <= j < i ==> !flags[j],
        decreases ranges@.len() - i,
    {
        let name: String = to_lower(ranges[i].0);
        if same(x, name.as_str()) {
            proof {
                lemma_first_true_at(flags, i as int);
            }
            return Some(i);
        }
        i += 1;
    }
    proof {
        lemma_first_true_none(flags);
    }
    None
}

// ---------------------------------------------------------------------------------------------
// Replies that name a range
// ---------------------------------------------------------------------------------------------

/// The range that a quoted reply such as `"VOLT:DC 5"` or `"AUTO"` names.
///
/// The whole reply, spaces removed, is looked up as an SCPI value, then as a display name. If both
/// fail and the reply has several words, the last word is looked up as an SCPI value.
pub open spec fn named_range(ranges: Seq<(Seq<char>, Seq<char>)>, reply: Seq<char>) -> Option<
    usize,
> {
    let t = trim(trimmed(reply), CharClass::Only('"'));
    let whole = without_char(t, ' ');
    if by_value(ranges, whole) is Some {
        by_value(ranges, whole)
    } else if by_name(ranges, whole) is Some {
        by_name(ranges, whole)
    } else if words(t).len() > 1 {
        by_value(ranges, words(t).last())
    } else {
        None
    }
}

/// Matches a quoted range reply.
pub fn match_named_range(ranges: &Vec<(&'static str, &'static str)>, reply: &str) -> (r: Option<
    usize,
>)
    ensures
        r == named_range(pairs(ranges@), reply@),
{
    let t: &str = without_ends(strip(reply), CharClass::Only('"'));
    let whole: String = remove_char(t, ' ');
    let found: Option<usize> = find_value(ranges, whole.as_str());
    if found.is_some() {
        return found;
    }
    let found: Option<usize> = find_name(ranges, whole.as_str());
    if found.is_some() {
        return found;
    }
    let parts: Vec<&str> = split_words(t);
    assert(texts(parts@).len() == parts@.len());
    if parts.len() > 1 {
        assert(texts(parts@).last() == parts@[parts@.len() - 1]@);
        return find_value(ranges, parts[parts.len() - 1]);
    }
    None
}

// ---------------------------------------------------------------------------------------------
// Replies that may need a numeric comparison
// ---------------------------------------------------------------------------------------------

/// The power of ten that a range reply's prefix letter stands for.
#[derive(Clone, Copy, PartialEq, Eq, Debug, Structural)]
pub enum RangeScale {
    One,
    Kilo,
    /// Replies write both milli and mega as `m` once lower-cased: below ten it is mega.
    MegaOrMilli,
    Milli,
    Micro,
    Nano,
}

impl RangeScale {
    /// The exponent of ten by which the number in the reply is to be multiplied.
    pub open spec fn power(self, number: Double) -> int {
        match self {
            RangeScale::One => 0,
            RangeScale::Kilo => 3,
            RangeScale::MegaOrMilli => if number.below(Double { bits: TEN }) {
                6
            } else {
                -3
            },
            RangeScale::Milli => -3,
            RangeScale::Micro => -6,
            RangeScale::Nano => -9,
        }
    }

    /// Computes `power` from the value of the number in the reply.
    pub fn exponent(self, number: Double) -> (e: i32)
        ensures
            e == self.power(number),
    {
        match self {
            RangeScale::One => 0,
            RangeScale::Kilo => 3,
            RangeScale::MegaOrMilli => if number.lt(Double { bits: TEN }) {
                6
            } else {
                -3
            },
            RangeScale::Milli => -3,
            RangeScale::Micro => -6,
            RangeScale::Nano => -9,
        }
    }
}

/// How near a number must come to a range's value.
#[derive(Clone, Copy, PartialEq, Eq, Debug, Structural)]
pub enum Tolerance {
    /// Nearer than one hundredth of the range's value.
    OnePercent,
    /// Nearer than one tenth.
    OneTenth,
}

/// What `RangeComparison` holds, as pure data.
#[verifier::ext_equal]
pub struct Comparison {
    pub number: Seq<char>,
    pub scale: RangeScale,
    pub tolerance: Tolerance,
    pub candidates: Seq<(usize, Seq<char>)>,
    pub otherwise: Option<usize>,
}

/// A question that only floating-point arithmetic can answer: which candidate does the number,
/// scaled, come near to?
#[derive(Debug)]
pub struct RangeComparison {
    /// The number in the reply.
    pub number: NumberText,
    /// What the number is to be multiplied by.
    pub scale: RangeScale,
    /// What counts as near.
    pub tolerance: Tolerance,
    /// Index and value of every range that has a numeric value.
    pub candidates: Vec<(usize, NumberText)>,
    /// The outcome if the number is near to none.
    pub otherwise: Option<usize>,
}

/// The contents of indexed numbers.
pub open spec fn indexed(v: Seq<(usize, NumberText)>) -> Seq<(usize, Seq<char>)> {
    Seq::new(v.len(), |i: int| (v[i].0, v[i].1@))
}

impl View for RangeComparison {
    type V = Comparison;

    open spec fn view(&self) -> Comparison {
        Comparison {
            number: self.number@,
            scale: self.scale,
            tolerance: self.tolerance,
            candidates: indexed(self.candidates@),
            otherwise: self.otherwise,
        }
    }
}

impl Comparison {
    /// The outcome, given which candidates the number is near to.
    pub open spec fn outcome(self, near: Seq<bool>) -> Option<usize> {
        match first_true(near) {
            Some(k) => Some(self.candidates[k as int].0),
            None => self.otherwise,
        }
    }
}

impl RangeComparison {
    /// Settles the question, given for each candidate whether the number is near to it: the first
    /// near candidate wins.
    pub fn conclude(&self, near: &Vec<bool>) -> (r: Option<usize>)
        requires
            near@.len() == self.candidates@.len(),
        ensures
            r == self@.outcome(near@),
    {
        proof {
            assert(near.len() == near@.len());
            lemma_first_true(near@);
        }
        match find_true(near) {
            Some(k) => Some(self.candidates[k].0),
            None => self.otherwise,
        }
    }
}

/// What `RangeMatch` holds, as pure data.
#[verifier::ext_equal]
pub enum Matching {
    Settled(Option<usize>),
    Numeric(Comparison),
}

/// The result of matching a reply against a mode's ranges.
#[derive(Debug)]
pub enum RangeMatch {
    /// The index of the range, or none.
    Settled(Option<usize>),
    /// The index hangs on a numeric comparison.
    Numeric(RangeComparison),
}

impl View for RangeMatch {
    type V = Matching;

    open spec fn view(&self) -> Matching {
        match self {
            RangeMatch::Settled(r) => Matching::Settled(*r),
            RangeMatch::Numeric(c) => Matching::Numeric(c@),
        }
    }
}

/// The ranges whose SCPI value is a number, with their indices.
pub open spec fn numeric_ranges(ranges: Seq<(Seq<char>, Seq<char>)>) -> Seq<(usize, Seq<char>)>
    decreases ranges.len(),
{
    if ranges.len() == 0 {
        seq![]
    } else {
        let rest = numeric_ranges(ranges.drop_last());
        if is_number(ranges.last().1) {
            rest.push(((ranges.len() - 1) as usize, ranges.last().1))
        } else {
            rest
        }
    }
}

/// Collects the ranges whose SCPI value is a number.
pub fn list_numeric_ranges(ranges: &Vec<(&'static str, &'static str)>) -> (r: Vec<
    (usize, NumberText),
>)
    ensures
        indexed(r@) == numeric_ranges(pairs(ranges@)),
{
    let mut r: Vec<(usize, NumberText)> = Vec::new();
    let mut i: usize = 0;
    assert(indexed(r@) =~= numeric_ranges(pairs(ranges@).take(0)));
    while i < ranges.len()
        invariant
            i <= ranges@.len(),
            indexed(r@) == numeric_ranges(pairs(ranges@).take(i as int)),
        decreases ranges@.len() - i,
    {
        let ghost before = r@;
        proof {
            let upto = pairs(ranges@).take(i + 1);
            assert(upto.drop_last() =~= pairs(ranges@).take(i as int));
            assert(upto.last().1 == ranges@[i as int].1@);
        }
        match NumberText::parse(ranges[i].1) {
            Some(value) => {
                r.push((i, value));
                assert(indexed(r@) =~= indexed(before).push((i, value@)));
            },
            None => {},
        }
        i += 1;
    }
    assert(pairs(ranges@).take(i as int) =~= pairs(ranges@));
    r
}

/// The last prefix letter in a lower-case reply.
pub open spec fn last_prefix(s: Seq<char>) -> Option<char>
    decreases s.len(),
{
    if s.len() == 0 {
        None
    } else if s.last() == 'k' || s.last() == 'm' || s.last() == 'n' || s.last() == 'u' {
        Some(s.last())
    } else {
        last_prefix(s.drop_last())
    }
}

/// Finds the last prefix letter.
fn find_last_prefix(s: &str) -> (r: Option<char>)
    ensures
        r == last_prefix(s@),
{
    let mut n: usize = s.unicode_len();
    assert(s@.take(n as int) =~= s@);
    while n > 0
        invariant
            n <= s@.len(),
            last_prefix(s@) == last_prefix(s@.take(n as int)),
        decreases n,
    {
        let c: char = s.get_char(n - 1);
        assert(s@.take(n as int).last() == c);
        assert(s@.take(n as int).drop_last() =~= s@.take(n - 1));
        if c == 'k' || c == 'm' || c == 'n' || c == 'u' {
            return Some(c);
        }
        n -= 1;
    }
    None
}

/// Whether a lower-case reply names a unit (ohm, volt, ampere) in which ranges go both below and
/// above one by prefix.
pub open spec fn names_unit(s: Seq<char>) -> bool {
    occurs(s, "ohm"@) || s.contains('v') || s.contains('a')
}

/// What a prefix letter stands for in a lower-case reply.
pub open spec fn scale_of(prefix: char, reply: Seq<char>) -> RangeScale {
    if prefix == 'k' {
        RangeScale::Kilo
    } else if prefix == 'm' && names_unit(reply) {
        RangeScale::MegaOrMilli
    } else if prefix == 'm' {
        RangeScale::Milli
    } else if prefix == 'u' {
        RangeScale::Micro
    } else {
        RangeScale::Nano
    }
}

/// The number in a lower-case reply, with its scale and the tolerance to apply, if there is one.
pub open spec fn reply_number(reply: Seq<char>) -> Option<(Seq<char>, RangeScale, Tolerance)> {
    let head = trim_end(reply, CharClass::Letter);
    match last_prefix(reply) {
        Some(c) => {
            let base = trim_end(head, CharClass::NotNumberEnd);
            if is_number(base) {
                Some((base, scale_of(c, reply), Tolerance::OnePercent))
            } else {
                None
            }
        },
        None => if is_number(head) {
            Some((head, RangeScale::One, Tolerance::OneTenth))
        } else {
            None
        },
    }
}

/// The range that an unquoted reply such as `20k Ohm`, `AUTO` or `+2.00000000E+00` names.
///
/// `AUTO` is automatic ranging where the mode offers it. Otherwise the reply, in lower case and
/// without spaces, is looked up among the display names; then its number is compared with the
/// ranges' values; and in the end the reply is looked up as an SCPI value.
pub open spec fn valued_range(ranges: Seq<(Seq<char>, Seq<char>)>, reply: Seq<char>) -> Matching {
    let t = trimmed(reply);
    let n = lower(without_char(t, ' '));
    if eq_ignoring_case(t, "AUTO"@) && offers_auto(ranges) {
        Matching::Settled(Some(0))
    } else if by_lower_name(ranges, n) is Some {
        Matching::Settled(by_lower_name(ranges, n))
    } else {
        match reply_number(n) {
            Some((number, scale, tolerance)) => Matching::Numeric(
                Comparison {
                    number,
                    scale,
                    tolerance,
                    candidates: numeric_ranges(ranges),
                    otherwise: by_value(ranges, t),
                },
            ),
            None => Matching::Settled(by_value(ranges, t)),
        }
    }
}

/// Matches an unquoted range reply.
pub fn match_valued_range(
    ranges: &Vec<(&'static str, &'static str)>,
    reply: &str,
) -> (r: RangeMatch)
    ensures
        r@ == valued_range(pairs(ranges@), reply@),
{
    let t: &str = strip(reply);
    if same_ignoring_case(t, "AUTO") && has_auto(ranges) {
        return RangeMatch::Settled(Some(0));
    }
    let spaceless: String = remove_char(t, ' ');
    let n: String = to_lower(spaceless.as_str());
    let found: Option<usize> = find_lower_name(ranges, n.as_str());
    if found.is_some() {
        return RangeMatch::Settled(found);
    }
    let otherwise: Option<usize> = find_value(ranges, t);
    let head: &str = without_trailing(n.as_str(), CharClass::Letter);
    match find_last_prefix(n.as_str()) {
        Some(c) => {
            let base: &str = without_trailing(head, CharClass::NotNumberEnd);
            match NumberText::parse(base) {
                Some(number) => {
                    let scale: RangeScale = if c == 'k' {
                        RangeScale::Kilo
                    } else if c == 'm' && (contains(n.as_str(), "ohm") || contains_char(
                        n.as_str(),
                        'v',
                    ) || contains_char(n.as_str(), 'a')) {
                        RangeScale::MegaOrMilli
                    } else if c == 'm' {
                        RangeScale::Milli
                    } else if c == 'u' {
                        RangeScale::Micro
                    } else {
                        RangeScale::Nano
                    };
                    RangeMatch::Numeric(
                        RangeComparison {
                            number,
                            scale,
                            tolerance: Tolerance::OnePercent,
                            candidates: list_numeric_ranges(ranges),
                            otherwise,
                        },
                    )
                },
                None => RangeMatch::Settled(otherwise),
            }
        },
        None => {
            match NumberText::parse(head) {
                Some(number) => RangeMatch::Numeric(
                    RangeComparison {
                        number,
                        scale: RangeScale::One,
                        tolerance: Tolerance::OneTenth,
                        candidates: list_numeric_ranges(ranges),
                        otherwise,
                    },
                ),
                None => RangeMatch::Settled(otherwise),
            }
        },
    }
}

} // verus!
