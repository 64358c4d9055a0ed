//! How a range reply that is no name is matched: by its number, in the unit that stands behind it.

use crate::double::{law_whole_limits, whole, Double, TEN};
use crate::exact::{exact, exponent_mark, integer};
use crate::number::{digits, exponent_at, is_number, mantissa, unsigned};
use crate::range_laws::{lemma_untrimmed, lemma_without_absent};
use crate::ranges::{
    by_lower_name, by_value, last_prefix, lemma_first_true_at, lemma_first_true_none,
    numeric_ranges, reply_number, valued_range, Comparison, Matching, RangeScale, Tolerance,
};
use crate::reply_laws::{law_numerals_are_numbers, lemma_numeral_chars, Numeral};
use crate::text::{
    all_ascii, ascii_lower, ascii_lower_char, digit, eq_ignoring_case, leading, lemma_leading,
    lemma_trailing, lower, occurs, trim_end, trimmed, white_space, without_char, CharClass,
};
use vstd::prelude::*;

verus! {

/// Whether all characters are small ASCII letters.
pub open spec fn small_letters(s: Seq<char>) -> bool {
    forall|k: int| 0 <= k < s.len() ==> 'a' <= #[trigger] s[k] <= 'z'
}

/// Whether a letter stands for a power of ten in a range reply.
pub open spec fn scale_letter(c: char) -> bool {
    c == 'k' || c == 'm' || c == 'n' || c == 'u'
}

/// The last scale letter of a text is that of its end, if there is one.
proof fn lemma_last_prefix(head: Seq<char>, tail: Seq<char>)
    requires
        forall|k: int| 0 <= k < tail.len() ==> !scale_letter(#[trigger] tail[k]),
    ensures
        last_prefix(head + tail) == last_prefix(head),
    decreases tail.len(),
{
    if tail.len() > 0 {
        let s = head + tail;
        assert(s.last() == tail.last());
        assert(!scale_letter(tail[tail.len() - 1]));
        assert(s.drop_last() =~= head + tail.drop_last());
        assert forall|k: int| 0 <= k < tail.drop_last().len() implies !scale_letter(
            #[trigger] tail.drop_last()[k],
        ) by {
            assert(tail.drop_last()[k] == tail[k]);
        }
        lemma_last_prefix(head, tail.drop_last());
    } else {
        assert(head + tail =~= head);
    }
}

/// A number with letters behind it, taken apart.
proof fn lemma_letters_behind(n: Numeral, letters: Seq<char>)
    requires
        n.wf(),
        small_letters(letters),
    ensures
        trim_end(n.text() + letters, CharClass::Letter) == n.text(),
        trim_end(n.text(), CharClass::NotNumberEnd) == n.text(),
        is_number(n.text()),
        lower(n.text() + letters) == n.text() + letters,
        trimmed(n.text() + letters) == n.text() + letters,
        without_char(n.text() + letters, ' ') == n.text() + letters,
        forall|k: int| 0 <= k < n.text().len() ==> !scale_letter(#[trigger] n.text()[k]),
        last_prefix(n.text()) is None,
{
    let t = n.text();
    let s = t + letters;
    lemma_numeral_chars(n);
    law_numerals_are_numbers(n);
    assert forall|k: int| t.len() <= k < s.len() implies 'a' <= #[trigger] s[k] <= 'z' by {
        assert(s[k] == letters[k - t.len()]);
    }
    assert forall|k: int| 0 <= k < t.len() implies !scale_letter(#[trigger] t[k]) && s[k] == t[k]
        && (digit(s[k]) || s[k] == '+' || s[k] == '-' || s[k] == '.') by {
        assert(digit(t[k]) || t[k] == '+' || t[k] == '-' || t[k] == '.');
    }
    assert(s[t.len() - 1] == t.last());
    lemma_trailing(s, CharClass::Letter, letters.len());
    assert(trim_end(s, CharClass::Letter) =~= t);
    lemma_trailing(t, CharClass::NotNumberEnd, 0);
    assert(trim_end(t, CharClass::NotNumberEnd) =~= t);
    assert forall|k: int| 0 <= k < s.len() implies ascii_lower_char(#[trigger] s[k]) == s[k]
        && crate::text::ascii(s[k]) && !white_space(s[k]) && s[k] != ' ' by {
        if k < t.len() {
            assert(digit(s[k]) || s[k] == '+' || s[k] == '-' || s[k] == '.');
        } else {
            assert('a' <= s[k] <= 'z');
        }
    }
    assert(all_ascii(s));
    assert(ascii_lower(s) =~= s);
    assert(!white_space(s[s.len() - 1]));
    assert(!white_space(s[0]));
    lemma_untrimmed(s, CharClass::Space);
    lemma_without_absent(s, ' ');
    let none = Seq::<char>::empty();
    lemma_last_prefix(none, t);
    assert(none + t =~= t);
}

/// A reply of a number with letters behind it is a question about that number. Without a letter for
/// a power of ten the number counts as it is, to a tenth; otherwise the last such letter tells the
/// power, and the number counts to one percent. An `m` is thousandths of a farad, and thousandths or
/// millions of a volt, an ampere or an ohm.
pub proof fn law_letters_tell_the_scale(
    n: Numeral,
    front: Seq<char>,
    letter: char,
    rear: Seq<char>,
)
    requires
        n.wf(),
        small_letters(front),
        small_letters(rear),
        scale_letter(letter),
        forall|k: int| 0 <= k < rear.len() ==> !scale_letter(#[trigger] rear[k]),
    ensures
        reply_number(n.text() + rear) == Some((n.text(), RangeScale::One, Tolerance::OneTenth)),
        ({
            let reply = n.text() + (front + seq![letter] + rear);
            let unit = reply.contains('v') || reply.contains('a') || occurs(reply, "ohm"@);
            reply_number(reply) == Some(
                (
                    n.text(),
                    if letter == 'k' {
                        RangeScale::Kilo
                    } else if letter == 'u' {
                        RangeScale::Micro
                    } else if letter == 'n' {
                        RangeScale::Nano
                    } else if unit {
                        RangeScale::MegaOrMilli
                    } else {
                        RangeScale::Milli
                    },
                    Tolerance::OnePercent,
                ),
            )
        }),
{
    let letters = front + seq![letter] + rear;
    assert forall|k: int| 0 <= k < letters.len() implies 'a' <= #[trigger] letters[k] <= 'z' by {
        if k < front.len() {
            assert(letters[k] == front[k]);
        } else if k > front.len() {
            assert(letters[k] == rear[k - front.len() - 1]);
        }
    }
    lemma_letters_behind(n, rear);
    lemma_letters_behind(n, letters);
    lemma_last_prefix(n.text(), rear);
    let head = n.text() + front + seq![letter];
    assert(n.text() + letters =~= head + rear);
    lemma_last_prefix(head, rear);
    assert(head.last() == letter);
}

/// A scale multiplies the number by its power of ten. What could be millions or thousandths is
/// millions below ten, and thousandths from ten on.
pub proof fn law_scales_are_powers(number: Double)
    requires
        !number.nan(),
    ensures
        RangeScale::One.power(number) == 0,
        RangeScale::Kilo.power(number) == 3,
        RangeScale::Milli.power(number) == -3,
        RangeScale::Micro.power(number) == -6,
        RangeScale::Nano.power(number) == -9,
        number.value() < whole(10) ==> RangeScale::MegaOrMilli.power(number) == 6,
        number.value() >= whole(10) ==> RangeScale::MegaOrMilli.power(number) == -3,
{
    law_whole_limits();
    assert(!(Double { bits: TEN }).nan());
}

/// A reply of a number with letters behind it that is no range's name is compared with the values
/// of all ranges that have a numeric one, and failing that looked up as a value.
pub proof fn law_other_replies_are_compared(
    ranges: Seq<(Seq<char>, Seq<char>)>,
    n: Numeral,
    letters: Seq<char>,
)
    requires
        n.wf(),
        small_letters(letters),
        by_lower_name(ranges, n.text() + letters) is None,
        reply_number(n.text() + letters) is Some,
    ensures
        ({
            let reply = n.text() + letters;
            &&& valued_range(ranges, reply) is Numeric
            &&& valued_range(ranges, reply) matches Matching::Numeric(question) ==> {
                &&& Some((question.number, question.scale, question.tolerance)) == reply_number(
                    reply,
                )
                &&& question.candidates == numeric_ranges(ranges)
                &&& question.otherwise == by_value(ranges, reply)
            }
        }),
{
    let reply = n.text() + letters;
    lemma_letters_behind(n, letters);
    lemma_numeral_chars(n);
    reveal_strlit("AUTO");
    assert(ascii_lower(reply)[0] == ascii_lower_char(reply[0]));
    assert(reply[0] == n.text()[0]);
    assert(ascii_lower("AUTO"@)[0] == 'a');
    assert(!eq_ignoring_case(reply, "AUTO"@));
}

/// The candidates of a comparison are the ranges whose value is a number, all of them and no others,
/// each with its own index and value, in order.
pub proof fn law_candidates_are_the_numeric_ranges(ranges: Seq<(Seq<char>, Seq<char>)>)
    requires
        ranges.len() <= usize::MAX,
    ensures
        forall|k: int|
            0 <= k < numeric_ranges(ranges).len() ==> {
                let (j, value) = #[trigger] numeric_ranges(ranges)[k];
                j < ranges.len() && value == ranges[j as int].1 && is_number(value)
            },
        forall|k: int, l: int|
            0 <= k < l < numeric_ranges(ranges).len() ==> (#[trigger] numeric_ranges(ranges)[k]).0
                < (#[trigger] numeric_ranges(ranges)[l]).0,
        forall|j: int|
            0 <= j < ranges.len() && is_number((#[trigger] ranges[j]).1) ==> numeric_ranges(
                ranges,
            ).contains((j as usize, ranges[j].1)),
    decreases ranges.len(),
{
    if ranges.len() > 0 {
        let before = ranges.drop_last();
        let rest = numeric_ranges(before);
        let all = numeric_ranges(ranges);
        let last = ranges.len() - 1;
        law_candidates_are_the_numeric_ranges(before);
        assert forall|k: int| 0 <= k < all.len() implies {
            let (j, value) = #[trigger] all[k];
            j < ranges.len() && value == ranges[j as int].1 && is_number(value)
        } by {
            if k < rest.len() {
                assert(all[k] == rest[k]);
                assert(rest[k].0 < before.len());
                assert(before[rest[k].0 as int] == ranges[rest[k].0 as int]);
            }
        }
        assert forall|k: int, l: int| 0 <= k < l < all.len() implies (#[trigger] all[k]).0 < (
        #[trigger] all[l]).0 by {
            assert(all[k] == rest[k]);
            assert(rest[k].0 < before.len());
            if l < rest.len() {
                assert(all[l] == rest[l]);
            }
        }
        assert forall|j: int| 0 <= j < ranges.len() && is_number(
            (#[trigger] ranges[j]).1,
        ) implies all.contains((j as usize, ranges[j].1)) by {
            if j < last {
                assert(before[j] == ranges[j]);
                assert(rest.contains((j as usize, before[j].1)));
                let k = choose|k: int|
                    0 <= k < rest.len() && rest[k] == (j as usize, before[j].1);
                assert(all[k] == rest[k]);
            } else {
                assert(all[all.len() - 1] == (j as usize, ranges[j].1));
            }
        }
    }
}

/// The first candidate that the number is near to wins; if it is near to none, what the reply was
/// looked up as stands.
pub proof fn law_first_near_candidate_wins(question: Comparison, near: Seq<bool>, k: int)
    requires
        near.len() == question.candidates.len(),
        near.len() <= usize::MAX,
    ensures
        0 <= k < near.len() && near[k] && (forall|j: int| 0 <= j < k ==> !near[j])
            ==> question.outcome(near) == Some(question.candidates[k].0),
        (forall|j: int| 0 <= j < near.len() ==> !near[j]) ==> question.outcome(near)
            == question.otherwise,
{
    if 0 <= k < near.len() && near[k] && (forall|j: int| 0 <= j < k ==> !near[j]) {
        lemma_first_true_at(near, k);
    }
    if forall|j: int| 0 <= j < near.len() ==> !near[j] {
        lemma_first_true_none(near);
    }
}

/// A numeral with an exponent is a number: the numeral times ten to that power.
pub proof fn law_exponents_are_powers(n: Numeral, mark: char, power: Seq<char>)
    requires
        n.wf(),
        mark == 'e' || mark == 'E',
        digits(unsigned(power)),
    ensures
        is_number(n.text() + seq![mark] + power),
        exact(n.text() + seq![mark] + power).mantissa == n.value().mantissa,
        exact(n.text() + seq![mark] + power).power == n.value().power + integer(power),
{
    let t = n.text();
    let s = t + seq![mark] + power;
    lemma_numeral_chars(n);
    law_numerals_are_numbers(n);
    let u = unsigned(t);
    assert(s[0] == t[0]);
    assert(unsigned(s) =~= u + seq![mark] + power);
    let w = unsigned(s);
    let m = u.len() as int;
    assert forall|k: int| 0 <= k < m implies CharClass::Except('e').has(#[trigger] u[k])
        && CharClass::Except('E').has(u[k]) by {
        if u == t {
            assert(digit(t[k]) || t[k] == '+' || t[k] == '-' || t[k] == '.');
        } else {
            assert(u[k] == t[k + 1]);
        }
    }
    assert(w[m] == mark);
    assert(w.take(m) =~= u);
    assert(w.skip(m + 1) =~= power);
    assert(mantissa(u)) by {
        lemma_numeral_mantissa(n);
    }
    assert(exponent_at(w, m));
    lemma_mark(w, m);
    lemma_mark_absent(u);
    assert(u.take(u.len() as int) =~= u);
}

/// A numeral without its sign is a mantissa.
proof fn lemma_numeral_mantissa(n: Numeral)
    requires
        n.wf(),
    ensures
        mantissa(unsigned(n.text())),
{
    lemma_numeral_chars(n);
    let t = n.text();
    let u = unsigned(t);
    let w = n.whole.len() as int;
    assert('0' <= n.whole[0] <= '9');
    if n.places.len() > 0 {
        assert(u =~= n.whole + seq!['.'] + n.places) by {
            if n.sign.len() == 0 {
                assert(t[0] == n.whole[0]);
            } else {
                assert(t[0] == n.sign[0]);
            }
        }
        assert(u.take(w) =~= n.whole);
        assert(u.skip(w + 1) =~= n.places);
        assert(crate::number::pointed_at(u, w));
    } else {
        assert(u =~= n.whole) by {
            if n.sign.len() == 0 {
                assert(t[0] == n.whole[0]);
            } else {
                assert(t[0] == n.sign[0]);
            }
        }
        assert(digits(u));
    }
}

/// The exponent mark is the first of its kind.
proof fn lemma_mark(s: Seq<char>, m: int)
    requires
        0 <= m < s.len(),
        s[m] == 'e' || s[m] == 'E',
        forall|k: int| 0 <= k < m ==> CharClass::Except('e').has(#[trigger] s.take(m)[k])
            && CharClass::Except('E').has(s.take(m)[k]),
    ensures
        exponent_mark(s) == m,
{
    assert forall|k: int| 0 <= k < m implies CharClass::Except('e').has(#[trigger] s[k])
        && CharClass::Except('E').has(s[k]) by {
        assert(s.take(m)[k] == s[k]);
    }
    let small = leading(s, CharClass::Except('e')) as int;
    let large = leading(s, CharClass::Except('E')) as int;
    crate::text::lemma_leading_holds(s, CharClass::Except('e'));
    crate::text::lemma_leading_holds(s, CharClass::Except('E'));
    if s[m] == 'e' {
        lemma_leading(s, CharClass::Except('e'), m as nat);
        if large < m {
            assert(CharClass::Except('E').has(s[large]));
        }
    } else {
        lemma_leading(s, CharClass::Except('E'), m as nat);
        if small < m {
            assert(CharClass::Except('e').has(s[small]));
        }
    }
}

/// A text without an exponent mark.
proof fn lemma_mark_absent(s: Seq<char>)
    requires
        forall|k: int|
            0 <= k < s.len() ==> CharClass::Except('e').has(#[trigger] s[k]) && CharClass::Except(
                'E',
            ).has(s[k]),
    ensures
        exponent_mark(s) == s.len(),
{
    lemma_leading(s, CharClass::Except('e'), s.len());
    lemma_leading(s, CharClass::Except('E'), s.len());
}

} // verus!
