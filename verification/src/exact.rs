//! The exact values of number texts, and how they compare.

use crate::number::{
    decimal_value, digits, exponent_at, is_number, mantissa, pointed_at, special, unsigned,
};
use crate::ranges::{last_prefix, Comparison, RangeScale, Tolerance};
use crate::text::{
    all_ascii, ascii, ascii_letter, ascii_lower, ascii_lower_char, digit, leading, lemma_leading,
    lemma_trailing, lower, trim_end, CharClass,
};
use vstd::arithmetic::power::pow;
use vstd::prelude::*;

verus! {

// ---------------------------------------------------------------------------------------------
// Values
// ---------------------------------------------------------------------------------------------

/// A whole number times a power of ten.
pub struct Exact {
    pub mantissa: int,
    pub power: int,
}

/// Position of the exponent mark, or the length of a text without one.
pub open spec fn exponent_mark(s: Seq<char>) -> int {
    let small = leading(s, CharClass::Except('e')) as int;
    let large = leading(s, CharClass::Except('E')) as int;
    if small <= large {
        small
    } else {
        large
    }
}

/// The value of an optional sign and a run of digits.
pub open spec fn integer(s: Seq<char>) -> int {
    if s.len() > 0 && s[0] == '-' {
        -(decimal_value(unsigned(s)) as int)
    } else {
        decimal_value(unsigned(s)) as int
    }
}

/// The exact value of a number text. Meaningless for the special names.
pub open spec fn exact(s: Seq<char>) -> Exact {
    let u = unsigned(s);
    let mark = exponent_mark(u);
    let m = u.take(mark);
    let point = leading(m, CharClass::Except('.')) as int;
    let places = if point < m.len() {
        m.len() - point - 1
    } else {
        0
    };
    let magnitude = if point < m.len() {
        decimal_value(m.take(point) + m.skip(point + 1)) as int
    } else {
        decimal_value(m) as int
    };
    Exact {
        mantissa: if s.len() > 0 && s[0] == '-' {
            -magnitude
        } else {
            magnitude
        },
        power: (if mark < u.len() {
            integer(u.skip(mark + 1))
        } else {
            0
        }) - places,
    }
}

impl Exact {
    /// The number of units that the value is, for a unit of ten to a power that is not above its
    /// own.
    pub open spec fn units(self, power: int) -> int {
        self.mantissa * pow(10, (self.power - power) as nat)
    }

    /// Ten to which power both this and another value are multiples of.
    pub open spec fn common(self, other: Exact) -> int {
        if self.power <= other.power {
            self.power
        } else {
            other.power
        }
    }

    /// Less-than.
    pub open spec fn below(self, other: Exact) -> bool {
        self.units(self.common(other)) < other.units(self.common(other))
    }

    /// The distance to another value, in units of ten to a power.
    pub open spec fn distance(self, other: Exact, power: int) -> int {
        let d = self.units(power) - other.units(power);
        if d < 0 {
            -d
        } else {
            d
        }
    }

    /// Whether the distance to another value is less than one tenth.
    pub open spec fn within_a_tenth(self, other: Exact) -> bool {
        let power = if self.common(other) < -1 {
            self.common(other)
        } else {
            -1
        };
        self.distance(other, power) < pow(10, (-1 - power) as nat)
    }

    /// Whether the distance to another value is less than one hundredth of that.
    pub open spec fn within_a_percent(self, other: Exact) -> bool {
        let power = self.common(other);
        let whole = other.units(power);
        100 * self.distance(other, power) < (if whole < 0 {
            -whole
        } else {
            whole
        })
    }
}

impl Comparison {
    /// The number of the question with its scale applied.
    pub open spec fn scaled(self) -> Exact {
        let number = exact(self.number);
        let shift: int = match self.scale {
            RangeScale::One => 0,
            RangeScale::Kilo => 3,
            RangeScale::MegaOrMilli => if number.below(Exact { mantissa: 10, power: 0 }) {
                6
            } else {
                -3
            },
            RangeScale::Milli => -3,
            RangeScale::Micro => -6,
            RangeScale::Nano => -9,
        };
        Exact { mantissa: number.mantissa, power: number.power + shift }
    }

    /// Whether exact arithmetic finds the number near to a candidate.
    pub open spec fn exactly_near(self, k: int) -> bool {
        let candidate = exact(self.candidates[k].1);
        match self.tolerance {
            Tolerance::OnePercent => self.scaled().within_a_percent(candidate),
            Tolerance::OneTenth => self.scaled().within_a_tenth(candidate),
        }
    }

    /// The answers of exact arithmetic for all candidates.
    pub open spec fn exact_answers(self) -> Seq<bool> {
        Seq::new(self.candidates.len(), |k: int| self.exactly_near(k))
    }
}

// ---------------------------------------------------------------------------------------------
// Spellings
// ---------------------------------------------------------------------------------------------

/// The small powers of ten.
pub proof fn lemma_small_powers()
    ensures
        pow(10, 0) == 1,
        pow(10, 1) == 10,
        pow(10, 2) == 100,
        pow(10, 3) == 1_000,
        pow(10, 4) == 10_000,
        pow(10, 5) == 100_000,
        pow(10, 6) == 1_000_000,
        pow(10, 7) == 10_000_000,
        pow(10, 8) == 100_000_000,
        pow(10, 9) == 1_000_000_000,
{
    reveal(pow);
    reveal_with_fuel(pow, 10);
}

/// A whole number times ten to a small power.
pub open spec fn shifted(m: int, n: int) -> int {
    if n == 0 {
        m
    } else if n == 1 {
        m * 10
    } else if n == 2 {
        m * 100
    } else if n == 3 {
        m * 1_000
    } else if n == 4 {
        m * 10_000
    } else if n == 6 {
        m * 1_000_000
    } else {
        m * 10_000_000
    }
}

/// The number of units of a value, multiplied out.
proof fn lemma_units(a: Exact, power: int)
    requires
        ({
            let n = a.power - power;
            n == 0 || n == 1 || n == 2 || n == 3 || n == 4 || n == 6 || n == 7
        }),
    ensures
        a.units(power) == shifted(a.mantissa, a.power - power),
{
    lemma_small_powers();
    let n = (a.power - power) as nat;
    let t = pow(10, n);
    let m = a.mantissa;
    assert(t == 1 || t == 10 || t == 100 || t == 1_000 || t == 10_000 || t == 1_000_000 || t
        == 10_000_000);
    assert(m * t == (if t == 1 {
        m
    } else if t == 10 {
        m * 10
    } else if t == 100 {
        m * 100
    } else if t == 1_000 {
        m * 1_000
    } else if t == 10_000 {
        m * 10_000
    } else if t == 1_000_000 {
        m * 1_000_000
    } else {
        m * 10_000_000
    })) by (nonlinear_arith)
        requires
            t == 1 || t == 10 || t == 100 || t == 1_000 || t == 10_000 || t == 1_000_000 || t
                == 10_000_000,
    ;
}

/// Compares values whose powers of ten are a multiple of three apart, and not far.
pub proof fn lemma_below(a: Exact, b: Exact)
    requires
        ({
            let d = a.power - b.power;
            d == 0 || d == 3 || d == 6 || d == -3 || d == -6
        }),
    ensures
        a.below(b) == (if a.power <= b.power {
            a.mantissa < shifted(b.mantissa, b.power - a.power)
        } else {
            shifted(a.mantissa, a.power - b.power) < b.mantissa
        }),
{
    lemma_units(a, a.common(b));
    lemma_units(b, a.common(b));
}

/// Tells values apart that are whole numbers of thousandths, of ones, or of more.
pub proof fn lemma_apart(a: Exact, b: Exact)
    requires
        a.power == -3 || a.power == 0 || a.power == 3 || a.power == 6,
        b.power == -3 || b.power == 0 || b.power == 3 || b.power == 6,
        a.power <= 0 || b.power >= 0,
        b.power <= 0 || a.power >= 0,
    ensures
        ({
            let power = if a.power < 0 || b.power < 0 {
                -3
            } else {
                -1int
            };
            let x = shifted(a.mantissa, a.power - power);
            let y = shifted(b.mantissa, b.power - power);
            let tenth: int = if power == -3 {
                100
            } else {
                1
            };
            a.within_a_tenth(b) == (-tenth < x - y < tenth)
        }),
{
    let power = if a.power < 0 || b.power < 0 {
        -3
    } else {
        -1int
    };
    lemma_small_powers();
    lemma_units(a, power);
    lemma_units(b, power);
}

/// A value is within a tenth of itself.
pub proof fn lemma_near_itself(a: Exact)
    ensures
        a.within_a_tenth(a),
{
    let power = if a.power < -1 {
        a.power
    } else {
        -1
    };
    vstd::arithmetic::power::lemma_pow_positive(10, (-1 - power) as nat);
}

/// The value of a run of up to four digits.
pub proof fn lemma_short_run(s: Seq<char>)
    requires
        digits(s),
        s.len() <= 4,
    ensures
        ({
            let d = |i: int| s[i] as int - '0' as int;
            &&& s.len() == 1 ==> decimal_value(s) == d(0)
            &&& s.len() == 2 ==> decimal_value(s) == d(0) * 10 + d(1)
            &&& s.len() == 3 ==> decimal_value(s) == d(0) * 100 + d(1) * 10 + d(2)
            &&& s.len() == 4 ==> decimal_value(s) == d(0) * 1000 + d(1) * 100 + d(2) * 10 + d(3)
        }),
    decreases s.len(),
{
    assert(forall|i: int| 0 <= i < s.len() ==> digit(#[trigger] s[i]));
    let rest = s.drop_last();
    if rest.len() > 0 {
        assert forall|i: int| 0 <= i < rest.len() implies digit(#[trigger] rest[i]) by {
            assert(rest[i] == s[i]);
        }
        lemma_short_run(rest);
    }
}

/// Whether a text and its lower-case form are spellings, without letters other than an exponent
/// mark, of one number that consists of digits and an optional power of ten.
pub open spec fn spells(s: Seq<char>, value: Exact) -> bool {
    &&& all_ascii(s)
    &&& is_number(s)
    &&& exact(s) == value
    &&& is_number(lower(s))
    &&& exact(lower(s)) == value
    &&& trim_end(lower(s), CharClass::Letter) == lower(s)
    &&& last_prefix(lower(s)) is None
}

/// A text without prefix letters has none.
proof fn lemma_no_prefix(s: Seq<char>)
    requires
        forall|i: int|
            0 <= i < s.len() ==> #[trigger] s[i] != 'k' && s[i] != 'm' && s[i] != 'n' && s[i]
                != 'u',
    ensures
        last_prefix(s) is None,
    decreases s.len(),
{
    if s.len() > 0 {
        assert(s.last() == s[s.len() - 1]);
        lemma_no_prefix(s.drop_last());
    }
}

/// A run of digits is a number with that value.
proof fn lemma_digits_exact(s: Seq<char>)
    requires
        digits(s),
    ensures
        is_number(s),
        exact(s) == (Exact { mantissa: decimal_value(s) as int, power: 0 }),
{
    assert(digit(s[0]));
    assert(unsigned(s) == s);
    assert forall|i: int| 0 <= i < s.len() implies CharClass::Except('e').has(#[trigger] s[i])
        && CharClass::Except('E').has(s[i]) && CharClass::Except('.').has(s[i]) by {
        assert(digit(s[i]));
    }
    lemma_leading(s, CharClass::Except('e'), s.len());
    lemma_leading(s, CharClass::Except('E'), s.len());
    lemma_leading(s, CharClass::Except('.'), s.len());
    assert(s.take(s.len() as int) =~= s);
    assert(mantissa(s));
}

/// A run of digits, an exponent mark and an exponent are a number with that value.
proof fn lemma_power_exact(m: Seq<char>, mark: char, x: Seq<char>)
    requires
        digits(m),
        mark == 'e' || mark == 'E',
        digits(unsigned(x)),
    ensures
        is_number(m + seq![mark] + x),
        exact(m + seq![mark] + x) == (Exact {
            mantissa: decimal_value(m) as int,
            power: integer(x),
        }),
{
    let s = m + seq![mark] + x;
    let n = m.len();
    assert(digit(m[0]));
    assert(s[0] == m[0]);
    assert(unsigned(s) == s);
    assert(s.take(n as int) =~= m);
    assert(s.skip(n as int + 1) =~= x);
    assert(s[n as int] == mark);
    assert forall|i: int| 0 <= i < n implies CharClass::Except('e').has(#[trigger] s[i])
        && CharClass::Except('E').has(s[i]) by {
        assert(digit(m[i]));
    }
    assert forall|i: int| 0 <= i < s.len() && i != n implies #[trigger] s[i] != 'e' && s[i]
        != 'E' by {
        if i < n {
            assert(digit(m[i]));
        } else {
            let j = i - n - 1;
            assert(s[i] == x[j]);
            if unsigned(x) == x {
                assert(digit(x[j]));
            } else if j > 0 {
                assert(unsigned(x)[j - 1] == x[j]);
                assert(digit(unsigned(x)[j - 1]));
            }
        }
    }
    if mark == 'e' {
        lemma_leading(s, CharClass::Except('e'), n);
        lemma_leading(s, CharClass::Except('E'), s.len());
    } else {
        lemma_leading(s, CharClass::Except('E'), n);
        lemma_leading(s, CharClass::Except('e'), s.len());
    }
    assert forall|i: int| 0 <= i < n implies CharClass::Except('.').has(#[trigger] m[i]) by {
        assert(digit(m[i]));
    }
    lemma_leading(m, CharClass::Except('.'), n);
    assert(mantissa(m));
    assert(exponent_at(s, n as int));
}

/// A run of digits spells its value.
pub proof fn lemma_spells_digits(s: Seq<char>)
    requires
        digits(s),
    ensures
        spells(s, Exact { mantissa: decimal_value(s) as int, power: 0 }),
{
    lemma_digits_exact(s);
    assert forall|i: int| 0 <= i < s.len() implies digit(#[trigger] s[i]) && ascii(s[i])
        && ascii_lower_char(s[i]) == s[i] by {
        assert(digit(s[i]));
    }
    assert(lower(s) =~= s);
    assert(digit(s[s.len() - 1]));
    lemma_trailing(s, CharClass::Letter, 0);
    assert(trim_end(s, CharClass::Letter) =~= s);
    lemma_no_prefix(s);
}

/// A run of digits with a power of ten spells its value.
pub proof fn lemma_spells_power(m: Seq<char>, x: Seq<char>)
    requires
        digits(m),
        digits(unsigned(x)),
    ensures
        spells(
            m + seq!['E'] + x,
            Exact { mantissa: decimal_value(m) as int, power: integer(x) },
        ),
{
    let s = m + seq!['E'] + x;
    let l = m + seq!['e'] + x;
    lemma_power_exact(m, 'E', x);
    lemma_power_exact(m, 'e', x);
    assert forall|i: int| 0 <= i < s.len() implies ascii(#[trigger] s[i]) && ascii_lower_char(s[i])
        == l[i] && (digit(l[i]) || l[i] == 'e' || l[i] == '+' || l[i] == '-') by {
        if i < m.len() {
            assert(digit(m[i]));
        } else if i > m.len() {
            let j = i - m.len() - 1;
            assert(s[i] == x[j] && l[i] == x[j]);
            if unsigned(x) == x {
                assert(digit(x[j]));
            } else if j > 0 {
                assert(unsigned(x)[j - 1] == x[j]);
                assert(digit(unsigned(x)[j - 1]));
            }
        }
    }
    assert(all_ascii(s));
    assert(lower(s) =~= l);
    let last = l.len() - 1;
    assert(l[last] == x.last());
    assert(digit(unsigned(x)[unsigned(x).len() - 1]));
    lemma_trailing(l, CharClass::Letter, 0);
    assert(trim_end(l, CharClass::Letter) =~= l);
    assert forall|i: int| 0 <= i < l.len() implies #[trigger] l[i] != 'k' && l[i] != 'm' && l[i]
        != 'n' && l[i] != 'u' by {
        assert(ascii(s[i]));
    }
    lemma_no_prefix(l);
}

/// One to four digits spell a whole number.
pub proof fn lemma_whole_spelling(s: Seq<char>)
    requires
        0 < s.len() <= 4,
        forall|i: int| 0 <= i < s.len() ==> digit(#[trigger] s[i]),
    ensures
        spells(s, Exact { mantissa: leading_digits(s, s.len() as int), power: 0 }),
{
    lemma_short_run(s);
    lemma_spells_digits(s);
}

/// The value of the first one to four digits of a text.
pub open spec fn leading_digits(s: Seq<char>, n: int) -> int {
    let a = s[0] as int - '0' as int;
    let b = s[1] as int - '0' as int;
    let c = s[2] as int - '0' as int;
    let d = s[3] as int - '0' as int;
    if n == 1 {
        a
    } else if n == 2 {
        a * 10 + b
    } else if n == 3 {
        a * 100 + b * 10 + c
    } else {
        a * 1000 + b * 100 + c * 10 + d
    }
}

/// One to four digits and an exponent of one digit spell a number.
pub proof fn lemma_power_spelling(s: Seq<char>, n: int)
    requires
        1 <= n <= 4,
        n + 2 <= s.len() <= n + 3,
        forall|i: int| 0 <= i < n ==> digit(#[trigger] s[i]),
        s[n] == 'E',
        digit(s.last()),
        s.len() == n + 3 ==> s[n + 1] == '-',
    ensures
        spells(
            s,
            Exact {
                mantissa: leading_digits(s, n),
                power: if s.len() == n + 3 {
                    '0' as int - s.last() as int
                } else {
                    s.last() as int - '0' as int
                },
            },
        ),
{
    let m = s.take(n);
    let x = s.skip(n + 1);
    assert(s =~= m + seq!['E'] + x);
    assert forall|i: int| 0 <= i < m.len() implies digit(#[trigger] m[i]) by {
        assert(m[i] == s[i]);
    }
    lemma_short_run(m);
    if s.len() == n + 3 {
        assert(x[0] == '-');
        assert(unsigned(x) =~= seq![s.last()]);
    } else {
        assert(x[0] == s.last());
        assert(unsigned(x) =~= seq![s.last()]);
    }
    assert(digits(unsigned(x)));
    lemma_short_run(unsigned(x));
    lemma_spells_power(m, x);
}

/// A text that begins with a letter, and not with that of a special name, is no number.
pub proof fn lemma_no_number(s: Seq<char>)
    requires
        s.len() > 0,
        ascii_letter(s[0]),
        ascii_lower_char(s[0]) != 'i',
        ascii_lower_char(s[0]) != 'n',
    ensures
        !is_number(s),
{
    reveal_strlit("inf");
    reveal_strlit("infinity");
    reveal_strlit("nan");
    assert(unsigned(s) == s);
    assert(ascii_lower(s)[0] == ascii_lower_char(s[0]));
    assert(ascii_lower("inf"@)[0] == 'i');
    assert(ascii_lower("infinity"@)[0] == 'i');
    assert(ascii_lower("nan"@)[0] == 'n');
    assert(!special(s));
    assert forall|e: int| 0 < e <= s.len() implies !mantissa(s.take(e)) by {
        lemma_mantissa_initial(s.take(e));
    }
    assert(s.take(s.len() as int) =~= s);
    assert forall|e: int| !exponent_at(s, e) by {
        if exponent_at(s, e) && e == 0 {
            assert(s.take(0).len() == 0);
        }
    }
}

/// A mantissa begins with a digit or a point.
proof fn lemma_mantissa_initial(s: Seq<char>)
    requires
        s.len() > 0,
    ensures
        mantissa(s) ==> digit(s[0]) || s[0] == '.',
{
    if mantissa(s) && !digits(s) {
        let d = choose|d: int| pointed_at(s, d);
        if d > 0 {
            assert(digit(s.take(d)[0]));
        }
    }
}

} // verus!
