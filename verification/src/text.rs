//! Text primitives: character classes, trimming, splitting and searching.
//!
//! Instrument replies and commands are short lines of text. Everything here is stated over the
//! sequence of characters of a string; results that are part of an argument borrow from it.

use vstd::prelude::*;

verus! {

// ---------------------------------------------------------------------------------------------
// Characters
// ---------------------------------------------------------------------------------------------

/// The characters with Unicode's `White_Space` property.
pub open spec fn white_space(c: char) -> bool {
    ||| '\u{9}' <= c <= '\u{d}'
    ||| c == ' '
    ||| c == '\u{85}'
    ||| c == '\u{a0}'
    ||| c == '\u{1680}'
    ||| '\u{2000}' <= c <= '\u{200a}'
    ||| c == '\u{2028}'
    ||| c == '\u{2029}'
    ||| c == '\u{202f}'
    ||| c == '\u{205f}'
    ||| c == '\u{3000}'
}

/// The decimal digits `0` to `9`.
pub open spec fn digit(c: char) -> bool {
    '0' <= c <= '9'
}

/// The ASCII characters.
pub open spec fn ascii(c: char) -> bool {
    '\0' <= c <= '\u{7f}'
}

/// The ASCII letters.
pub open spec fn ascii_letter(c: char) -> bool {
    'a' <= c <= 'z' || 'A' <= c <= 'Z'
}

/// Maps the upper-case ASCII letters to lower case and leaves every other character alone.
pub open spec fn ascii_lower_char(c: char) -> char {
    if 'A' <= c <= 'Z' {
        (c as u32 + 32) as char
    } else {
        c
    }
}

/// `ascii_lower_char` on each character.
pub open spec fn ascii_lower(s: Seq<char>) -> Seq<char> {
    s.map_values(|c: char| ascii_lower_char(c))
}

/// Whether every character is ASCII.
pub open spec fn all_ascii(s: Seq<char>) -> bool {
    forall|i: int| 0 <= i < s.len() ==> ascii(#[trigger] s[i])
}

/// Unicode's `Alphabetic` property, as `char::is_alphabetic` decides it.
pub uninterp spec fn alphabetic(c: char) -> bool;

/// `char::is_alphabetic`: the result is a fixed function of the character. What it is rests on the
/// Unicode tables and is left unsaid.
pub assume_specification[ char::is_alphabetic ](c: char) -> (b: bool)
    ensures
        b == alphabetic(c),
;

/// Unicode's general categories for numbers, as `char::is_numeric` decides them.
pub uninterp spec fn numeric(c: char) -> bool;

/// `char::is_numeric`: the result is a fixed function of the character. What it is rests on the
/// Unicode tables and is left unsaid.
pub assume_specification[ char::is_numeric ](c: char) -> (b: bool)
    ensures
        b == numeric(c),
;

/// Unicode's lower-case mapping of a text, as `str::to_lowercase` computes it.
pub uninterp spec fn lowercase(s: Seq<char>) -> Seq<char>;

/// `str::to_lowercase`: the result is a fixed function of the text. What it is rests on the Unicode
/// tables and is left unsaid.
pub assume_specification[ str::to_lowercase ](s: &str) -> (r: String)
    ensures
        r@ == lowercase(s@),
;

/// Alphabetic characters: the ASCII letters, and beyond ASCII what Unicode calls alphabetic.
pub open spec fn letter(c: char) -> bool {
    if ascii(c) {
        ascii_letter(c)
    } else {
        alphabetic(c)
    }
}

/// Numeric characters: the ASCII digits, and beyond ASCII what Unicode calls numeric.
pub open spec fn number_char(c: char) -> bool {
    if ascii(c) {
        digit(c)
    } else {
        numeric(c)
    }
}

/// The lower-case form of a text: letter by letter in ASCII, by Unicode's mapping otherwise.
pub open spec fn lower(s: Seq<char>) -> Seq<char> {
    if all_ascii(s) {
        ascii_lower(s)
    } else {
        lowercase(s)
    }
}

/// The text that received bytes stand for, as `String::from_utf8_lossy` reads them.
pub uninterp spec fn lossy_text(bytes: Seq<u8>) -> Seq<char>;

/// `String::from_utf8_lossy`: the text is a fixed function of the bytes, and ASCII bytes stand for
/// the ASCII characters one by one. How other bytes are read, valid UTF-8 or not, is left unsaid.
#[verifier::external_body]
pub(crate) fn from_utf8_lossy(bytes: &[u8]) -> (r: String)
    ensures
        r@ == lossy_text(bytes@),
        ascii_bytes(bytes@) ==> r@ == ascii_text(bytes@),
{
    String::from_utf8_lossy(bytes).into_owned()
}

/// Whether every byte is the code of an ASCII character.
pub open spec fn ascii_bytes(bytes: Seq<u8>) -> bool {
    forall|i: int| 0 <= i < bytes.len() ==> #[trigger] bytes[i] < 128
}

/// The characters whose codes are the bytes.
pub open spec fn ascii_text(bytes: Seq<u8>) -> Seq<char> {
    Seq::new(bytes.len(), |i: int| bytes[i] as char)
}

/// `String::push`: adds one character at the end.
pub assume_specification[ String::push ](s: &mut String, c: char)
    ensures
        final(s)@ == old(s)@.push(c),
;

/// A set of characters to trim or to scan for.
#[derive(Clone, Copy, PartialEq, Eq, Debug, Structural)]
pub enum CharClass {
    /// White space.
    Space,
    /// One character.
    Only(char),
    /// Every character but one.
    Except(char),
    /// Everything that is not white space.
    NotSpace,
    /// `+` and `-`.
    Sign,
    /// The decimal digits `0` to `9`.
    Digit,
    /// Alphabetic characters.
    Letter,
    /// Everything that cannot end a plain number: neither numeric nor `.`, `-`, `+`.
    NotNumberEnd,
}

impl CharClass {
    /// Membership.
    pub open spec fn has(self, c: char) -> bool {
        match self {
            CharClass::Space => white_space(c),
            CharClass::Only(d) => c == d,
            CharClass::Except(d) => c != d,
            CharClass::NotSpace => !white_space(c),
            CharClass::Sign => c == '+' || c == '-',
            CharClass::Digit => digit(c),
            CharClass::Letter => letter(c),
            CharClass::NotNumberEnd => !number_char(c) && c != '.' && c != '-' && c != '+',
        }
    }

    /// Decides membership.
    pub fn test(self, c: char) -> (b: bool)
        ensures
            b == self.has(c),
    {
        match self {
            CharClass::Space => is_white_space(c),
            CharClass::Only(d) => c == d,
            CharClass::Except(d) => c != d,
            CharClass::NotSpace => !is_white_space(c),
            CharClass::Sign => c == '+' || c == '-',
            CharClass::Digit => '0' <= c && c <= '9',
            CharClass::Letter => is_letter(c),
            CharClass::NotNumberEnd => !is_number_char(c) && c != '.' && c != '-' && c != '+',
        }
    }
}

/// Decides `white_space`.
pub fn is_white_space(c: char) -> (b: bool)
    ensures
        b == white_space(c),
{
    ('\u{9}' <= c && c <= '\u{d}') || c == ' ' || c == '\u{85}' || c == '\u{a0}' || c == '\u{1680}'
        || ('\u{2000}' <= c && c <= '\u{200a}') || c == '\u{2028}' || c == '\u{2029}'
        || c == '\u{202f}' || c == '\u{205f}' || c == '\u{3000}'
}

/// Decides `letter`.
pub fn is_letter(c: char) -> (b: bool)
    ensures
        b == letter(c),
{
    if c <= '\u{7f}' {
        ('a' <= c && c <= 'z') || ('A' <= c && c <= 'Z')
    } else {
        c.is_alphabetic()
    }
}

/// Decides `number_char`.
pub fn is_number_char(c: char) -> (b: bool)
    ensures
        b == number_char(c),
{
    if c <= '\u{7f}' {
        '0' <= c && c <= '9'
    } else {
        c.is_numeric()
    }
}

/// Lower-cases an ASCII letter.
pub fn lower_char(c: char) -> (r: char)
    ensures
        r == ascii_lower_char(c),
{
    if 'A' <= c && c <= 'Z' {
        ((c as u8) + 32) as char
    } else {
        c
    }
}

// ---------------------------------------------------------------------------------------------
// Runs and trimming
// ---------------------------------------------------------------------------------------------

/// Length of the longest prefix whose characters are all in the class.
pub open spec fn leading(s: Seq<char>, class: CharClass) -> nat
    decreases s.len(),
{
    if s.len() > 0 && class.has(s[0]) {
        1 + leading(s.skip(1), class)
    } else {
        0
    }
}

/// Length of the longest suffix whose characters are all in the class.
pub open spec fn trailing(s: Seq<char>, class: CharClass) -> nat
    decreases s.len(),
{
    if s.len() > 0 && class.has(s.last()) {
        1 + trailing(s.drop_last(), class)
    } else {
        0
    }
}

/// The text without its leading characters of the class.
pub open spec fn trim_start(s: Seq<char>, class: CharClass) -> Seq<char> {
    s.skip(leading(s, class) as int)
}

/// The text without its trailing characters of the class.
pub open spec fn trim_end(s: Seq<char>, class: CharClass) -> Seq<char> {
    s.take(s.len() - trailing(s, class))
}

/// The text without leading and trailing characters of the class.
pub open spec fn trim(s: Seq<char>, class: CharClass) -> Seq<char> {
    trim_end(trim_start(s, class), class)
}

/// The text without surrounding white space.
pub open spec fn trimmed(s: Seq<char>) -> Seq<char> {
    trim(s, CharClass::Space)
}

/// `leading` is the one length at which a run of the class ends.
pub proof fn lemma_leading(s: Seq<char>, class: CharClass, n: nat)
    requires
        n <= s.len(),
        forall|i: int| 0 <= i < n ==> class.has(#[trigger] s[i]),
        n < s.len() ==> !class.has(s[n as int]),
    ensures
        leading(s, class) == n,
    decreases s.len(),
{
    if n > 0 {
        assert(class.has(s[0]));
        assert forall|i: int| 0 <= i < n - 1 implies class.has(#[trigger] s.skip(1)[i]) by {
            assert(class.has(s[i + 1]));
        }
        lemma_leading(s.skip(1), class, (n - 1) as nat);
    }
}

/// What `leading` promises of the characters that it counts.
pub proof fn lemma_leading_holds(s: Seq<char>, class: CharClass)
    ensures
        leading(s, class) <= s.len(),
        forall|i: int| 0 <= i < leading(s, class) ==> class.has(#[trigger] s[i]),
        leading(s, class) < s.len() ==> !class.has(s[leading(s, class) as int]),
    decreases s.len(),
{
    if s.len() > 0 && class.has(s[0]) {
        lemma_leading_holds(s.skip(1), class);
        let n = leading(s.skip(1), class);
        assert forall|i: int| 0 <= i < 1 + n implies class.has(#[trigger] s[i]) by {
            if i > 0 {
                assert(class.has(s.skip(1)[i - 1]));
            }
        }
        if 1 + n < s.len() {
            assert(s.skip(1)[n as int] == s[1 + n as int]);
        }
    }
}

/// `trailing` is the one length at which a run of the class, read backwards, ends.
pub proof fn lemma_trailing(s: Seq<char>, class: CharClass, n: nat)
    requires
        n <= s.len(),
        forall|i: int| s.len() - n <= i < s.len() ==> class.has(#[trigger] s[i]),
        n < s.len() ==> !class.has(s[s.len() - n - 1]),
    ensures
        trailing(s, class) == n,
    decreases s.len(),
{
    if n > 0 {
        assert(class.has(s[s.len() - 1]));
        assert forall|i: int| s.len() - n <= i < s.len() - 1 implies class.has(
            #[trigger] s.drop_last()[i],
        ) by {
            assert(class.has(s[i]));
        }
        lemma_trailing(s.drop_last(), class, (n - 1) as nat);
    }
}

/// What `trailing` promises of the characters that it counts.
pub proof fn lemma_trailing_holds(s: Seq<char>, class: CharClass)
    ensures
        trailing(s, class) <= s.len(),
        forall|i: int|
            s.len() - trailing(s, class) <= i < s.len() ==> class.has(#[trigger] s[i]),
        trailing(s, class) < s.len() ==> !class.has(s[s.len() - trailing(s, class) - 1]),
    decreases s.len(),
{
    if s.len() > 0 && class.has(s.last()) {
        lemma_trailing_holds(s.drop_last(), class);
        let n = trailing(s.drop_last(), class);
        assert forall|i: int| s.len() - (1 + n) <= i < s.len() implies class.has(
            #[trigger] s[i],
        ) by {
            if i < s.len() - 1 {
                assert(class.has(s.drop_last()[i]));
            }
        }
        if 1 + n < s.len() {
            assert(s.drop_last()[s.len() - 1 - n - 1] == s[s.len() - 1 - n - 1]);
        }
    }
}

/// Counts the leading characters of a class.
pub fn count_leading(s: &str, class: CharClass) -> (n: usize)
    ensures
        n == leading(s@, class),
        n <= s@.len(),
{
    let len: usize = s.unicode_len();
    let mut n: usize = 0;
    while n < len && class.test(s.get_char(n))
        invariant
            n <= len,
            len == s@.len(),
            forall|i: int| 0 <= i < n ==> class.has(#[trigger] s@[i]),
        decreases len - n,
    {
        n += 1;
    }
    proof {
        lemma_leading(s@, class, n as nat);
    }
    n
}

/// Counts the trailing characters of a class.
pub fn count_trailing(s: &str, class: CharClass) -> (n: usize)
    ensures
        n == trailing(s@, class),
        n <= s@.len(),
{
    let len: usize = s.unicode_len();
    let mut n: usize = 0;
    while n < len && class.test(s.get_char(len - n - 1))
        invariant
            n <= len,
            len == s@.len(),
            forall|i: int| len - n <= i < len ==> class.has(#[trigger] s@[i]),
        decreases len - n,
    {
        n += 1;
    }
    proof {
        lemma_trailing(s@, class, n as nat);
    }
    n
}

/// Drops the leading characters of a class.
pub fn without_leading<'a>(s: &'a str, class: CharClass) -> (r: &'a str)
    ensures
        r@ == trim_start(s@, class),
{
    let n: usize = count_leading(s, class);
    let len: usize = s.unicode_len();
    s.substring_char(n, len)
}

/// Drops the trailing characters of a class.
pub fn without_trailing<'a>(s: &'a str, class: CharClass) -> (r: &'a str)
    ensures
        r@ == trim_end(s@, class),
{
    let n: usize = count_trailing(s, class);
    let len: usize = s.unicode_len();
    s.substring_char(0, len - n)
}

/// Drops the characters of a class at both ends.
pub fn without_ends<'a>(s: &'a str, class: CharClass) -> (r: &'a str)
    ensures
        r@ == trim(s@, class),
{
    without_trailing(without_leading(s, class), class)
}

/// Drops the white space at both ends.
pub fn strip<'a>(s: &'a str) -> (r: &'a str)
    ensures
        r@ == trimmed(s@),
{
    without_ends(s, CharClass::Space)
}

// ---------------------------------------------------------------------------------------------
// Comparing and searching
// ---------------------------------------------------------------------------------------------

/// Equality up to the case of ASCII letters.
pub open spec fn eq_ignoring_case(a: Seq<char>, b: Seq<char>) -> bool {
    ascii_lower(a) == ascii_lower(b)
}

/// Whether `pat` stands in `s` with its first character at position `i`.
pub open spec fn occurs_at(s: Seq<char>, pat: Seq<char>, i: int) -> bool {
    0 <= i && i + pat.len() <= s.len() && s.subrange(i, i + pat.len()) == pat
}

/// Whether `pat` stands anywhere in `s`.
pub open spec fn occurs(s: Seq<char>, pat: Seq<char>) -> bool {
    exists|i: int| occurs_at(s, pat, i)
}

/// Whether `s` begins with `pat`.
pub open spec fn begins(s: Seq<char>, pat: Seq<char>) -> bool {
    occurs_at(s, pat, 0)
}

/// Whether `s` ends with `pat`.
pub open spec fn ends(s: Seq<char>, pat: Seq<char>) -> bool {
    occurs_at(s, pat, s.len() - pat.len())
}

/// Decides whether two texts are equal.
pub fn same(a: &str, b: &str) -> (r: bool)
    ensures
        r == (a@ == b@),
{
    let len: usize = a.unicode_len();
    if len != b.unicode_len() {
        return false;
    }
    let mut i: usize = 0;
    while i < len
        invariant
            i <= len,
            len == a@.len(),
            len == b@.len(),
            forall|j: int| 0 <= j < i ==> a@[j] == b@[j],
        decreases len - i,
    {
        if a.get_char(i) != b.get_char(i) {
            return false;
        }
        i += 1;
    }
    assert(a@ =~= b@);
    true
}

/// Decides `eq_ignoring_case`.
pub fn same_ignoring_case(a: &str, b: &str) -> (r: bool)
    ensures
        r == eq_ignoring_case(a@, b@),
{
    let len: usize = a.unicode_len();
    assert(ascii_lower(a@).len() == a@.len() && ascii_lower(b@).len() == b@.len());
    if len != b.unicode_len() {
        return false;
    }
    let mut i: usize = 0;
    while i < len
        invariant
            i <= len,
            len == a@.len(),
            len == b@.len(),
            forall|j: int| 0 <= j < i ==> ascii_lower_char(a@[j]) == ascii_lower_char(b@[j]),
        decreases len - i,
    {
        if lower_char(a.get_char(i)) != lower_char(b.get_char(i)) {
            assert(ascii_lower(a@)[i as int] != ascii_lower(b@)[i as int]);
            return false;
        }
        i += 1;
    }
    assert(ascii_lower(a@) =~= ascii_lower(b@));
    true
}

/// Decides `occurs_at`.
pub fn found_at(s: &str, pat: &str, at: usize) -> (r: bool)
    ensures
        r == occurs_at(s@, pat@, at as int),
{
    let len: usize = s.unicode_len();
    let plen: usize = pat.unicode_len();
    if at > len || len - at < plen {
        return false;
    }
    same(s.substring_char(at, at + plen), pat)
}

/// Decides `occurs`.
pub fn contains(s: &str, pat: &str) -> (r: bool)
    ensures
        r == occurs(s@, pat@),
{
    let len: usize = s.unicode_len();
    let mut i: usize = 0;
    loop
        invariant
            i <= len,
            len == s@.len(),
            forall|j: int| 0 <= j < i ==> !occurs_at(s@, pat@, j),
        decreases len - i,
    {
        if found_at(s, pat, i) {
            return true;
        }
        if i == len {
            return false;
        }
        i += 1;
    }
}

/// Decides `begins`.
pub fn starts_with(s: &str, pat: &str) -> (r: bool)
    ensures
        r == begins(s@, pat@),
{
    found_at(s, pat, 0)
}

/// Decides `ends`.
pub fn ends_with(s: &str, pat: &str) -> (r: bool)
    ensures
        r == ends(s@, pat@),
{
    let len: usize = s.unicode_len();
    let plen: usize = pat.unicode_len();
    if plen > len {
        return false;
    }
    found_at(s, pat, len - plen)
}

/// Decides whether a character stands in a text.
pub fn contains_char(s: &str, c: char) -> (r: bool)
    ensures
        r == s@.contains(c),
{
    let n: usize = count_leading(s, CharClass::Except(c));
    proof {
        lemma_leading_holds(s@, CharClass::Except(c));
        if n < s@.len() {
            assert(s@[n as int] == c);
        } else if s@.contains(c) {
            let i = choose|i: int| 0 <= i < s@.len() && s@[i] == c;
            assert(CharClass::Except(c).has(s@[i]));
        }
    }
    n < s.unicode_len()
}

// ---------------------------------------------------------------------------------------------
// Splitting and joining
// ---------------------------------------------------------------------------------------------

/// The contents of borrowed texts.
pub open spec fn texts(v: Seq<&str>) -> Seq<Seq<char>> {
    Seq::new(v.len(), |i: int| v[i]@)
}

/// The contents of owned texts.
pub open spec fn strings(v: Seq<String>) -> Seq<Seq<char>> {
    Seq::new(v.len(), |i: int| v[i]@)
}

/// The content of a text that may be absent.
pub open spec fn string(s: Option<String>) -> Option<Seq<char>> {
    match s {
        Some(s) => Some(s@),
        None => None,
    }
}

/// The pieces between the occurrences of a separator: always one more than it has occurrences.
pub open spec fn split(s: Seq<char>, sep: char) -> Seq<Seq<char>>
    decreases s.len(),
{
    let n = leading(s, CharClass::Except(sep)) as int;
    if 0 <= n < s.len() {
        seq![s.take(n)] + split(s.skip(n + 1), sep)
    } else {
        seq![s]
    }
}

/// The maximal runs of characters that are not white space.
pub open spec fn words(s: Seq<char>) -> Seq<Seq<char>>
    decreases s.len(),
{
    let t = trim_start(s, CharClass::Space);
    let n = leading(t, CharClass::NotSpace) as int;
    if 0 < n <= t.len() <= s.len() {
        seq![t.take(n)] + words(t.skip(n))
    } else {
        seq![]
    }
}

/// Splits a text at a separator.
pub fn split_at_char<'a>(s: &'a str, sep: char) -> (parts: Vec<&'a str>)
    ensures
        texts(parts@) == split(s@, sep),
        parts@.len() > 0,
{
    let mut parts: Vec<&'a str> = Vec::new();
    let mut rest: &'a str = s;
    loop
        invariant
            texts(parts@) + split(rest@, sep) == split(s@, sep),
        decreases rest@.len(),
    {
        let n: usize = count_leading(rest, CharClass::Except(sep));
        let len: usize = rest.unicode_len();
        let ghost before = parts@;
        if n == len {
            parts.push(rest);
            assert(texts(parts@) =~= texts(before) + seq![rest@]);
            return parts;
        }
        let piece: &'a str = rest.substring_char(0, n);
        let tail: &'a str = rest.substring_char(n + 1, len);
        parts.push(piece);
        proof {
            assert(piece@ =~= rest@.take(n as int));
            assert(tail@ =~= rest@.skip(n + 1));
            assert(texts(parts@) =~= texts(before) + seq![piece@]);
            assert(texts(parts@) + split(tail@, sep) =~= texts(before) + (seq![piece@] + split(
                tail@,
                sep,
            )));
        }
        rest = tail;
    }
}

/// Splits a text at white space.
pub fn split_words<'a>(s: &'a str) -> (parts: Vec<&'a str>)
    ensures
        texts(parts@) == words(s@),
{
    let mut parts: Vec<&'a str> = Vec::new();
    let mut rest: &'a str = s;
    loop
        invariant
            texts(parts@) + words(rest@) == words(s@),
        decreases rest@.len(),
    {
        let t: &'a str = without_leading(rest, CharClass::Space);
        let n: usize = count_leading(t, CharClass::NotSpace);
        let len: usize = t.unicode_len();
        proof {
            lemma_leading_holds(rest@, CharClass::Space);
        }
        if n == 0 {
            assert(texts(parts@) + words(rest@) =~= texts(parts@));
            return parts;
        }
        let ghost before = parts@;
        let piece: &'a str = t.substring_char(0, n);
        let tail: &'a str = t.substring_char(n, len);
        parts.push(piece);
        proof {
            assert(piece@ =~= t@.take(n as int));
            assert(tail@ =~= t@.skip(n as int));
            assert(texts(parts@) =~= texts(before) + seq![piece@]);
            assert(texts(parts@) + words(tail@) =~= texts(before) + (seq![piece@] + words(tail@)));
        }
        rest = tail;
    }
}

/// Trimming does not lengthen a text.
pub proof fn lemma_trimmed_len(s: Seq<char>)
    ensures
        trimmed(s).len() <= s.len(),
{
    lemma_leading_holds(s, CharClass::Space);
    lemma_trailing_holds(trim_start(s, CharClass::Space), CharClass::Space);
}

/// No piece is longer than the whole.
pub proof fn lemma_split_len(s: Seq<char>, sep: char, i: int)
    requires
        0 <= i < split(s, sep).len(),
    ensures
        split(s, sep)[i].len() <= s.len(),
    decreases s.len(),
{
    lemma_leading_holds(s, CharClass::Except(sep));
    let n = leading(s, CharClass::Except(sep)) as int;
    if n < s.len() && i > 0 {
        lemma_split_len(s.skip(n + 1), sep, i - 1);
    }
}

/// The text without the occurrences of a character.
pub open spec fn without_char(s: Seq<char>, c: char) -> Seq<char>
    decreases s.len(),
{
    if s.len() == 0 {
        s
    } else if s.last() == c {
        without_char(s.drop_last(), c)
    } else {
        without_char(s.drop_last(), c).push(s.last())
    }
}

/// Removes the occurrences of a character.
pub fn remove_char(s: &str, c: char) -> (r: String)
    ensures
        r@ == without_char(s@, c),
{
    let len: usize = s.unicode_len();
    let mut r: String = String::new();
    let mut i: usize = 0;
    assert(s@.take(0) =~= r@);
    while i < len
        invariant
            i <= len,
            len == s@.len(),
            r@ == without_char(s@.take(i as int), c),
        decreases len - i,
    {
        proof {
            assert(s@.take(i + 1).drop_last() =~= s@.take(i as int));
            assert(s@.take(i + 1).last() == s@[i as int]);
        }
        if s.get_char(i) != c {
            r.push(s.get_char(i));
        }
        i += 1;
    }
    assert(s@.take(len as int) =~= s@);
    r
}

/// The lines of a text that hold something besides white space, each without the white space
/// around it.
pub open spec fn inhabited_lines(s: Seq<char>) -> Seq<Seq<char>> {
    stripped(split(s, '\n'))
}

/// The pieces that hold something besides white space, each without the white space around it.
pub open spec fn stripped(pieces: Seq<Seq<char>>) -> Seq<Seq<char>>
    decreases pieces.len(),
{
    if pieces.len() == 0 {
        seq![]
    } else {
        let rest = stripped(pieces.drop_last());
        let line = trimmed(pieces.last());
        if line.len() == 0 {
            rest
        } else {
            rest.push(line)
        }
    }
}

/// Splits a text into its inhabited lines.
pub fn split_lines<'a>(s: &'a str) -> (lines: Vec<&'a str>)
    ensures
        texts(lines@) == inhabited_lines(s@),
{
    let pieces: Vec<&'a str> = split_at_char(s, '\n');
    let mut lines: Vec<&'a str> = Vec::new();
    let mut i: usize = 0;
    assert(texts(lines@) =~= stripped(texts(pieces@).take(0)));
    while i < pieces.len()
        invariant
            i <= pieces@.len(),
            texts(lines@) == stripped(texts(pieces@).take(i as int)),
        decreases pieces@.len() - i,
    {
        let line: &'a str = strip(pieces[i]);
        let ghost before = lines@;
        proof {
            let all = texts(pieces@).take(i + 1);
            assert(all.drop_last() =~= texts(pieces@).take(i as int));
            assert(all.last() == pieces@[i as int]@);
        }
        if line.unicode_len() > 0 {
            lines.push(line);
            assert(texts(lines@) =~= texts(before).push(line@));
        }
        i += 1;
    }
    assert(texts(pieces@).take(i as int) =~= texts(pieces@));
    lines
}

/// Lower-cases a text.
pub fn to_lower(s: &str) -> (r: String)
    ensures
        r@ == lower(s@),
{
    if !s.is_ascii() {
        return s.to_lowercase();
    }
    let len: usize = s.unicode_len();
    let mut r: String = String::new();
    let mut i: usize = 0;
    assert(r@ =~= ascii_lower(s@.take(0)));
    while i < len
        invariant
            i <= len,
            len == s@.len(),
            r@ == ascii_lower(s@.take(i as int)),
        decreases len - i,
    {
        r.push(lower_char(s.get_char(i)));
        assert(r@ =~= ascii_lower(s@.take(i + 1)));
        i += 1;
    }
    assert(s@.take(len as int) =~= s@);
    r
}

/// Joins two texts.
pub fn join(a: &str, b: &str) -> (r: String)
    ensures
        r@ == a@ + b@,
{
    let mut r: String = a.to_owned();
    r.append(b);
    r
}

} // verus!
