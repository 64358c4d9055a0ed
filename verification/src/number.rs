//! Numbers as text: the grammar of decimal floating-point literals, unsigned integers, and the
//! number of decimal places of a reading.
//!
//! The library never converts a reading to a binary floating-point number. It decides which text
//! is a number and hands that text out as a [`NumberText`], which is certain to convert.

use crate::text::{count_leading, same_ignoring_case, without_leading, CharClass};
use vstd::prelude::*;

verus! {

use crate::text::{digit, eq_ignoring_case, leading, lemma_leading_holds, trim_start};

// ---------------------------------------------------------------------------------------------
// Floating-point literals
// ---------------------------------------------------------------------------------------------

/// Whether every character is a decimal digit.
pub open spec fn all_digits(s: Seq<char>) -> bool {
    forall|i: int| 0 <= i < s.len() ==> digit(#[trigger] s[i])
}

/// Whether the text is one or more decimal digits.
pub open spec fn digits(s: Seq<char>) -> bool {
    s.len() > 0 && all_digits(s)
}

/// The text after one optional sign.
pub open spec fn unsigned(s: Seq<char>) -> Seq<char> {
    if s.len() > 0 && CharClass::Sign.has(s[0]) {
        s.skip(1)
    } else {
        s
    }
}

/// Whether the text is a run of digits with a decimal point at `d`, and at least one digit.
pub open spec fn pointed_at(s: Seq<char>, d: int) -> bool {
    &&& 0 <= d < s.len()
    &&& s[d] == '.'
    &&& s.len() > 1
    &&& all_digits(s.take(d))
    &&& all_digits(s.skip(d + 1))
}

/// `Digit+ | Digit+ '.' Digit* | Digit* '.' Digit+`
pub open spec fn mantissa(s: Seq<char>) -> bool {
    digits(s) || exists|d: int| pointed_at(s, d)
}

/// Whether the text is a mantissa, an exponent mark at `e`, and a signed run of digits.
pub open spec fn exponent_at(s: Seq<char>, e: int) -> bool {
    &&& 0 <= e < s.len()
    &&& s[e] == 'e' || s[e] == 'E'
    &&& mantissa(s.take(e))
    &&& digits(unsigned(s.skip(e + 1)))
}

/// The names of the values that no digits denote, in any case.
pub open spec fn special(s: Seq<char>) -> bool {
    ||| eq_ignoring_case(s, "inf"@)
    ||| eq_ignoring_case(s, "infinity"@)
    ||| eq_ignoring_case(s, "nan"@)
}

/// The floating-point literals: an optional sign, then a special name or a mantissa with an
/// optional exponent.
pub open spec fn is_number(s: Seq<char>) -> bool {
    let u = unsigned(s);
    special(u) || mantissa(u) || exists|e: int| exponent_at(u, e)
}

/// Drops one optional sign.
fn drop_sign<'a>(s: &'a str) -> (r: &'a str)
    ensures
        r@ == unsigned(s@),
{
    let len: usize = s.unicode_len();
    if len > 0 && CharClass::Sign.test(s.get_char(0)) {
        s.substring_char(1, len)
    } else {
        s
    }
}

/// Decides `digits`.
fn is_digits(s: &str) -> (b: bool)
    ensures
        b == digits(s@),
{
    let n: usize = count_leading(s, CharClass::Digit);
    proof {
        lemma_leading_holds(s@, CharClass::Digit);
        if n < s@.len() {
            assert(!digit(s@[n as int]));
        }
    }
    n > 0 && n == s.unicode_len()
}

/// Decides `mantissa`.
fn is_mantissa(s: &str) -> (b: bool)
    ensures
        b == mantissa(s@),
{
    let len: usize = s.unicode_len();
    let n: usize = count_leading(s, CharClass::Digit);
    proof {
        lemma_leading_holds(s@, CharClass::Digit);
    }
    if n == len {
        proof {
            if exists|d: int| pointed_at(s@, d) {
                let d = choose|d: int| pointed_at(s@, d);
                assert(digit(s@[d]));
            }
        }
        return n > 0;
    }
    assert(!digit(s@[n as int]));
    let point: bool = s.get_char(n) == '.';
    let tail: &str = s.substring_char(n + 1, len);
    let m: usize = count_leading(tail, CharClass::Digit);
    proof {
        lemma_leading_holds(tail@, CharClass::Digit);
        assert(tail@ =~= s@.skip(n + 1));
        assert forall|d: int| pointed_at(s@, d) implies d == n by {
            if d < n {
                assert(digit(s@[d]));
            } else if d > n {
                assert(s@.take(d)[n as int] == s@[n as int]);
            }
        }
        if point && len > 1 && m == tail@.len() {
            assert(pointed_at(s@, n as int));
        }
        if pointed_at(s@, n as int) && m < tail@.len() {
            assert(digit(s@.skip(n + 1)[m as int]));
        }
    }
    point && len > 1 && m == tail.unicode_len()
}

/// A mantissa holds no exponent mark.
proof fn lemma_mantissa_chars(s: Seq<char>, i: int)
    requires
        mantissa(s),
        0 <= i < s.len(),
    ensures
        digit(s[i]) || s[i] == '.',
{
    if !digits(s) {
        let d = choose|d: int| pointed_at(s, d);
        if i < d {
            assert(s.take(d)[i] == s[i]);
        } else if i > d {
            assert(s.skip(d + 1)[i - d - 1] == s[i]);
        }
    }
}

/// Counts the characters before the first exponent mark.
fn exponent_mark(s: &str) -> (n: usize)
    ensures
        n <= s@.len(),
        forall|i: int| 0 <= i < n ==> s@[i] != 'e' && s@[i] != 'E',
        n < s@.len() ==> s@[n as int] == 'e' || s@[n as int] == 'E',
{
    let len: usize = s.unicode_len();
    let mut n: usize = 0;
    while n < len && s.get_char(n) != 'e' && s.get_char(n) != 'E'
        invariant
            n <= len,
            len == s@.len(),
            forall|i: int| 0 <= i < n ==> s@[i] != 'e' && s@[i] != 'E',
        decreases len - n,
    {
        n += 1;
    }
    n
}

/// Decides `is_number`.
pub fn is_number_text(s: &str) -> (b: bool)
    ensures
        b == is_number(s@),
{
    let u: &str = drop_sign(s);
    if same_ignoring_case(u, "inf") || same_ignoring_case(u, "infinity") || same_ignoring_case(
        u,
        "nan",
    ) {
        return true;
    }
    let len: usize = u.unicode_len();
    let n: usize = exponent_mark(u);
    proof {
        assert forall|e: int| exponent_at(u@, e) implies e == n by {
            if e > n {
                lemma_mantissa_chars(u@.take(e), n as int);
                assert(u@.take(e)[n as int] == u@[n as int]);
            }
        }
    }
    if n == len {
        return is_mantissa(u);
    }
    proof {
        if mantissa(u@) {
            lemma_mantissa_chars(u@, n as int);
        }
    }
    let head: &str = u.substring_char(0, n);
    let tail: &str = u.substring_char(n + 1, len);
    assert(head@ =~= u@.take(n as int));
    assert(tail@ =~= u@.skip(n + 1));
    let b: bool = is_mantissa(head) && is_digits(drop_sign(tail));
    assert(b == exponent_at(u@, n as int));
    b
}

/// A text that is a floating-point literal.
#[derive(Debug)]
pub struct NumberText {
    text: String,
}

impl View for NumberText {
    type V = Seq<char>;

    closed spec fn view(&self) -> Seq<char> {
        self.text@
    }
}

impl NumberText {
    #[verifier::type_invariant]
    spec fn holds_number(self) -> bool {
        is_number(self.text@)
    }

    /// Takes a text that is a number, and refuses any other.
    pub fn parse(s: &str) -> (r: Option<NumberText>)
        ensures
            r is Some == is_number(s@),
            r is Some ==> r->0@ == s@,
    {
        if is_number_text(s) {
            Some(NumberText { text: s.to_owned() })
        } else {
            None
        }
    }

    /// The number `0`.
    pub fn zero() -> (r: NumberText)
        ensures
            r@ == "0"@,
    {
        proof {
            reveal_strlit("0");
            assert(digit("0"@[0]));
            assert(digits("0"@));
            assert(unsigned("0"@) == "0"@);
        }
        NumberText { text: "0".to_owned() }
    }

    /// The text of the number.
    pub fn as_str(&self) -> (r: &str)
        ensures
            r@ == self@,
            is_number(r@),
    {
        proof {
            use_type_invariant(self);
        }
        self.text.as_str()
    }

    /// A second copy.
    pub fn duplicate(&self) -> (r: NumberText)
        ensures
            r@ == self@,
    {
        proof {
            use_type_invariant(self);
        }
        NumberText { text: self.text.clone() }
    }
}

/// The content of a number that may be absent.
pub open spec fn number(n: Option<NumberText>) -> Option<Seq<char>> {
    match n {
        Some(n) => Some(n@),
        None => None,
    }
}

// ---------------------------------------------------------------------------------------------
// Decimal places
// ---------------------------------------------------------------------------------------------

/// Number of digits that follow the first decimal point, after any leading signs.
pub open spec fn decimal_places(s: Seq<char>) -> nat {
    let t = trim_start(s, CharClass::Sign);
    let n = leading(t, CharClass::Except('.')) as int;
    if n < t.len() {
        leading(t.skip(n + 1), CharClass::Digit)
    } else {
        0
    }
}

/// Counts the decimal places of a numeric text.
pub fn count_decimals(s: &str) -> (n: usize)
    ensures
        n == decimal_places(s@),
        n <= s@.len(),
{
    let t: &str = without_leading(s, CharClass::Sign);
    let dot: usize = count_leading(t, CharClass::Except('.'));
    let len: usize = t.unicode_len();
    proof {
        lemma_leading_holds(s@, CharClass::Sign);
    }
    if dot < len {
        let tail: &str = t.substring_char(dot + 1, len);
        assert(tail@ =~= t@.skip(dot + 1));
        count_leading(tail, CharClass::Digit)
    } else {
        0
    }
}

// ---------------------------------------------------------------------------------------------
// Unsigned integers
// ---------------------------------------------------------------------------------------------

/// The value of a run of decimal digits.
pub open spec fn decimal_value(s: Seq<char>) -> nat
    decreases s.len(),
{
    if s.len() == 0 {
        0
    } else {
        decimal_value(s.drop_last()) * 10 + (s.last() as u32 - '0' as u32) as nat
    }
}

/// The 32-bit value that an optional `+` and a run of digits denote.
pub open spec fn u32_value(s: Seq<char>) -> Option<u32> {
    let t = if s.len() > 0 && s[0] == '+' {
        s.skip(1)
    } else {
        s
    };
    if digits(t) && decimal_value(t) <= u32::MAX {
        Some(decimal_value(t) as u32)
    } else {
        None
    }
}

/// A longer run of digits denotes no smaller value.
proof fn lemma_decimal_value_grows(s: Seq<char>, i: int)
    requires
        all_digits(s),
        0 <= i <= s.len(),
    ensures
        decimal_value(s.take(i)) <= decimal_value(s),
    decreases s.len(),
{
    if i < s.len() {
        assert(s.take(i) =~= s.drop_last().take(i));
        assert forall|j: int| 0 <= j < s.drop_last().len() implies digit(
            #[trigger] s.drop_last()[j],
        ) by {
            assert(digit(s[j]));
        }
        lemma_decimal_value_grows(s.drop_last(), i);
    } else {
        assert(s.take(i) =~= s);
    }
}

/// Parses a 32-bit unsigned integer.
pub fn parse_u32(s: &str) -> (r: Option<u32>)
    ensures
        r == u32_value(s@),
{
    let full: usize = s.unicode_len();
    let t: &str = if full > 0 && s.get_char(0) == '+' {
        s.substring_char(1, full)
    } else {
        s
    };
    assert(full > 0 && s@[0] == '+' ==> t@ =~= s@.skip(1));
    if !is_digits(t) {
        return None;
    }
    let len: usize = t.unicode_len();
    let mut value: u32 = 0;
    let mut i: usize = 0;
    assert(t@.take(0) =~= Seq::<char>::empty());
    while i < len
        invariant
            i <= len,
            len == t@.len(),
            digits(t@),
            t@ == (if s@.len() > 0 && s@[0] == '+' {
                s@.skip(1)
            } else {
                s@
            }),
            value == decimal_value(t@.take(i as int)),
        decreases len - i,
    {
        let d: u32 = (t.get_char(i) as u32) - ('0' as u32);
        proof {
            assert(digit(t@[i as int]));
            assert(t@.take(i + 1).drop_last() =~= t@.take(i as int));
            lemma_decimal_value_grows(t@, i + 1);
            assert(decimal_value(t@.take(i + 1)) == value * 10 + d);
        }
        if value > (u32::MAX - d) / 10 {
            assert(value * 10 + d > u32::MAX);
            return None;
        }
        value = value * 10 + d;
        i += 1;
    }
    assert(t@.take(len as int) =~= t@);
    Some(value)
}

/// The character of a digit.
pub open spec fn digit_char(d: nat) -> char {
    "0123456789"@[d as int]
}

/// Decimal notation without leading zeros.
pub open spec fn decimal(n: nat) -> Seq<char>
    decreases n,
{
    if n < 10 {
        seq![digit_char(n)]
    } else {
        decimal(n / 10).push(digit_char(n % 10))
    }
}

/// Writes a number in decimal notation.
pub fn render_u32(n: u32) -> (r: String)
    ensures
        r@ == decimal(n as nat),
    decreases n,
{
    proof {
        reveal_strlit("0123456789");
    }
    let d: usize = (n % 10) as usize;
    let last: &str = "0123456789".substring_char(d, d + 1);
    assert(last@ =~= seq![digit_char((n % 10) as nat)]);
    let mut r: String = if n < 10 {
        String::new()
    } else {
        render_u32(n / 10)
    };
    r.append(last);
    assert(r@ =~= decimal(n as nat));
    r
}

/// What is written in decimal notation reads back as the same number.
pub proof fn law_u32_round_trip(n: u32)
    ensures
        u32_value(decimal(n as nat)) == Some(n),
{
    lemma_decimal(n as nat);
}

/// Decimal notation counts in tens: a digit at the end of a number adds its worth to ten times what
/// stands before it, and writing a number puts its last digit last.
pub proof fn law_decimal_notation_counts_in_tens(s: Seq<char>, c: char, n: nat, d: nat)
    requires
        '0' <= c <= '9',
        d <= 9,
    ensures
        decimal_value(Seq::<char>::empty()) == 0,
        decimal_value(s.push(c)) == 10 * decimal_value(s) + (c as int - '0' as int),
        decimal(d) == seq![(('0' as int + d) as u8) as char],
        n > 0 ==> decimal(10 * n + d) == decimal(n).push((('0' as int + d) as u8) as char),
{
    reveal_strlit("0123456789");
    assert(s.push(c).drop_last() =~= s);
    assert(digit_char(d) == (('0' as int + d) as u8) as char);
    if n > 0 {
        assert((10 * n + d) / 10 == n && (10 * n + d) % 10 == d);
    }
}

/// Decimal notation is made of digits and denotes its number.
pub proof fn lemma_decimal(n: nat)
    ensures
        digits(decimal(n)),
        decimal_value(decimal(n)) == n,
        decimal(n)[0] != '+',
    decreases n,
{
    reveal_strlit("0123456789");
    if n < 10 {
        assert(decimal(n).drop_last() =~= Seq::<char>::empty());
        assert(decimal_value(decimal(n).drop_last()) == 0);
    } else {
        lemma_decimal(n / 10);
        let head = decimal(n / 10);
        assert(decimal(n).drop_last() =~= head);
        assert forall|i: int| 0 <= i < decimal(n).len() implies digit(#[trigger] decimal(n)[i]) by {
            if i < head.len() {
                assert(digit(head[i]));
            }
        }
    }
}

} // verus!
