//! Character classes of the tokenizer, and maximal runs of a class.

use vstd::prelude::*;

verus! {

/// The classes of code points that the tokenizer scans runs of.
#[derive(Clone, Copy, Debug, PartialEq, Eq, Structural)]
pub enum CharClass {
    /// `0` to `9`.
    Digit,
    /// `0` to `7`.
    OctalDigit,
    /// `0` to `9`, `a` to `f`, `A` to `F`.
    HexDigit,
    /// An ASCII letter, an ASCII digit or `_`.
    IdentContinue,
    /// A code point with the Unicode property White_Space.
    Whitespace,
    /// White space other than line feed and carriage return.
    Blank,
    /// `u`, `l` or `f`, in either case.
    SuffixChar,
    /// Anything but line feed and carriage return.
    InLine,
    /// Anything but `"`, line feed and carriage return.
    InQuotedName,
    /// Anything but `'` and line feed.
    InCharTail,
}

/// Whether `c` is one of the letters `a` to `z` and `A` to `Z`.
pub open spec fn is_ascii_letter(c: char) -> bool {
    ('a' <= c && c <= 'z') || ('A' <= c && c <= 'Z')
}

/// Whether `c` is a decimal digit, `0` to `9`.
pub open spec fn is_digit(c: char) -> bool {
    '0' <= c && c <= '9'
}

/// Whether `c` is an octal digit, `0` to `7`.
pub open spec fn is_octal_digit(c: char) -> bool {
    '0' <= c && c <= '7'
}

/// Whether `c` is a hexadecimal digit, in either case.
pub open spec fn is_hex_digit(c: char) -> bool {
    is_digit(c) || ('a' <= c && c <= 'f') || ('A' <= c && c <= 'F')
}

/// Whether an identifier can start with `c`: a letter or `_`.
pub open spec fn is_ident_start(c: char) -> bool {
    is_ascii_letter(c) || c == '_'
}

/// Whether an identifier can go on with `c`: a letter, a digit or `_`.
pub open spec fn is_ident_continue(c: char) -> bool {
    is_ascii_letter(c) || is_digit(c) || c == '_'
}

/// The code points with the Unicode property White_Space.
pub open spec fn is_whitespace(c: char) -> bool {
    ||| ('\u{9}' <= c && c <= '\u{D}')
    ||| c == ' '
    ||| c == '\u{85}'
    ||| c == '\u{A0}'
    ||| c == '\u{1680}'
    ||| ('\u{2000}' <= c && c <= '\u{200A}')
    ||| c == '\u{2028}'
    ||| c == '\u{2029}'
    ||| c == '\u{202F}'
    ||| c == '\u{205F}'
    ||| c == '\u{3000}'
}

/// Whether `c` is a line feed or a carriage return.
pub open spec fn is_line_end(c: char) -> bool {
    c == '\n' || c == '\r'
}

/// The lower-case form of an ASCII letter; any other code point is unchanged.
pub open spec fn to_lower(c: char) -> char {
    if 'A' <= c && c <= 'Z' {
        ((c as u32) + 32) as char
    } else {
        c
    }
}

/// Whether `c` starts an exponent: `e` or `E`.
pub open spec fn is_exponent_marker(c: char) -> bool {
    c == 'e' || c == 'E'
}

/// Whether `c` is one of the lower-case suffix letters `u`, `l`, `f`.
pub open spec fn is_suffix_letter(c: char) -> bool {
    c == 'u' || c == 'l' || c == 'f'
}

/// Whether `c` is of the class `class`.
pub open spec fn in_class(c: char, class: CharClass) -> bool {
    match class {
        CharClass::Digit => is_digit(c),
        CharClass::OctalDigit => is_octal_digit(c),
        CharClass::HexDigit => is_hex_digit(c),
        CharClass::IdentContinue => is_ident_continue(c),
        CharClass::Whitespace => is_whitespace(c),
        CharClass::Blank => is_whitespace(c) && !is_line_end(c),
        CharClass::SuffixChar => is_suffix_letter(to_lower(c)),
        CharClass::InLine => !is_line_end(c),
        CharClass::InQuotedName => c != '"' && !is_line_end(c),
        CharClass::InCharTail => c != '\'' && c != '\n',
    }
}

/// The end of the longest run of code points of `class` that starts at `i`:
/// the first index from `i` on whose code point is not of the class, or the
/// length of `s` if there is none.
pub open spec fn run_end(s: Seq<char>, i: int, class: CharClass) -> int
    decreases s.len() - i,
{
    if 0 <= i < s.len() && in_class(s[i], class) {
        run_end(s, i + 1, class)
    } else {
        i
    }
}

/// As `run_end`, for a run of at most `limit` code points.
pub open spec fn bounded_run_end(s: Seq<char>, i: int, class: CharClass, limit: int) -> int {
    if run_end(s, i, class) <= i + limit {
        run_end(s, i, class)
    } else {
        i + limit
    }
}

/// A run ends at or after its start, within the text, on a code point that is
/// not of the class, and everything before that is of the class.
pub proof fn lemma_run_end(s: Seq<char>, i: int, class: CharClass)
    requires
        0 <= i <= s.len(),
    ensures
        i <= run_end(s, i, class) <= s.len(),
        run_end(s, i, class) < s.len() ==> !in_class(s[run_end(s, i, class)], class),
        forall|k: int| i <= k < run_end(s, i, class) ==> in_class(#[trigger] s[k], class),
    decreases s.len() - i,
{
    if i < s.len() && in_class(s[i], class) {
        lemma_run_end(s, i + 1, class);
    }
}

/// A stretch of code points of the class, followed by the end of the text or
/// by a code point that is not of the class, is the run.
pub proof fn lemma_run_end_is(s: Seq<char>, i: int, j: int, class: CharClass)
    requires
        0 <= i <= j <= s.len(),
        forall|k: int| i <= k < j ==> in_class(#[trigger] s[k], class),
        j < s.len() ==> !in_class(s[j], class),
    ensures
        run_end(s, i, class) == j,
    decreases j - i,
{
    if i < j {
        lemma_run_end_is(s, i + 1, j, class);
    }
}

/// Tests on a single code point.
pub trait CharExt {
    /// Whether this is `.`.
    fn is_dot(self) -> bool;

    /// Whether this is an exponent marker, `e` or `E`.
    fn is_sci_notation(self) -> bool;

    /// Whether this is one of the lower-case suffix letters `u`, `l`, `f`.
    fn is_suffix_char(self) -> bool;

    /// Whether this is the quote of a character literal.
    fn is_char_literal(self) -> bool;

    /// Whether this is the quote of a string literal.
    fn is_string_literal(self) -> bool;
}

impl CharExt for char {
    fn is_dot(self) -> (b: bool)
        ensures
            b == (self == '.'),
    {
        self == '.'
    }

    fn is_sci_notation(self) -> (b: bool)
        ensures
            b == is_exponent_marker(self),
    {
        self == 'e' || self == 'E'
    }

    fn is_suffix_char(self) -> (b: bool)
        ensures
            b == is_suffix_letter(self),
    {
        self == 'u' || self == 'l' || self == 'f'
    }

    fn is_char_literal(self) -> (b: bool)
        ensures
            b == (self == '\''),
    {
        self == '\''
    }

    fn is_string_literal(self) -> (b: bool)
        ensures
            b == (self == '"'),
    {
        self == '"'
    }
}

/// Whether `c` is an ASCII letter.
pub fn is_ascii_letter_char(c: char) -> (b: bool)
    ensures
        b == is_ascii_letter(c),
{
    (c >= 'a' && c <= 'z') || (c >= 'A' && c <= 'Z')
}

/// Whether `c` is a decimal digit.
pub fn is_digit_char(c: char) -> (b: bool)
    ensures
        b == is_digit(c),
{
    c >= '0' && c <= '9'
}

/// Whether `c` is an octal digit.
pub fn is_octal_digit_char(c: char) -> (b: bool)
    ensures
        b == is_octal_digit(c),
{
    c >= '0' && c <= '7'
}

/// Whether `c` is a hexadecimal digit.
pub fn is_hex_digit_char(c: char) -> (b: bool)
    ensures
        b == is_hex_digit(c),
{
    (c >= '0' && c <= '9') || (c >= 'a' && c <= 'f') || (c >= 'A' && c <= 'F')
}

/// Whether an identifier can start with `c`.
pub fn is_ident_start_char(c: char) -> (b: bool)
    ensures
        b == is_ident_start(c),
{
    is_ascii_letter_char(c) || c == '_'
}

/// Whether `c` is white space.
pub fn is_whitespace_char(c: char) -> (b: bool)
    ensures
        b == is_whitespace(c),
{
    (c >= '\u{9}' && c <= '\u{D}') || c == ' ' || c == '\u{85}' || c == '\u{A0}' || c
        == '\u{1680}' || (c >= '\u{2000}' && c <= '\u{200A}') || c == '\u{2028}' || c
        == '\u{2029}' || c == '\u{202F}' || c == '\u{205F}' || c == '\u{3000}'
}

/// Whether `c` is a line feed or a carriage return.
pub fn is_line_end_char(c: char) -> (b: bool)
    ensures
        b == is_line_end(c),
{
    c == '\n' || c == '\r'
}

/// The lower-case form of an ASCII letter; any other code point unchanged.
pub fn lower_case(c: char) -> (l: char)
    ensures
        l == to_lower(c),
{
    if c >= 'A' && c <= 'Z' {
        ((c as u8) + 32) as char
    } else {
        c
    }
}

/// Whether `c` is of the class `class`.
pub fn char_in_class(c: char, class: CharClass) -> (b: bool)
    ensures
        b == in_class(c, class),
{
    match class {
        CharClass::Digit => is_digit_char(c),
        CharClass::OctalDigit => is_octal_digit_char(c),
        CharClass::HexDigit => is_hex_digit_char(c),
        CharClass::IdentContinue => is_ascii_letter_char(c) || is_digit_char(c) || c == '_',
        CharClass::Whitespace => is_whitespace_char(c),
        CharClass::Blank => is_whitespace_char(c) && !is_line_end_char(c),
        CharClass::SuffixChar => lower_case(c).is_suffix_char(),
        CharClass::InLine => !is_line_end_char(c),
        CharClass::InQuotedName => c != '"' && !is_line_end_char(c),
        CharClass::InCharTail => c != '\'' && c != '\n',
    }
}

/// Scans the longest run of `class` that starts at `from`.
pub fn scan_run(source: &Vec<char>, from: usize, class: CharClass) -> (end: usize)
    requires
        from <= source.len(),
    ensures
        end == run_end(source@, from as int, class),
        from <= end <= source.len(),
{
    let mut end: usize = from;
    while end < source.len() && char_in_class(source[end], class)
        invariant
            from <= end <= source.len(),
            run_end(source@, from as int, class) == run_end(source@, end as int, class),
        decreases source.len() - end,
    {
        end = end + 1;
    }
    end
}

/// Scans the longest run of `class` that starts at `from` and has at most
/// `limit` code points.
pub fn scan_bounded_run(source: &Vec<char>, from: usize, class: CharClass, limit: usize) -> (end:
    usize)
    requires
        from <= source.len(),
    ensures
        end == bounded_run_end(source@, from as int, class, limit as int),
        from <= end <= source.len(),
        end <= from + limit,
{
    let mut end: usize = from;
    let mut taken: usize = 0;
    proof {
        lemma_run_end(source@, from as int, class);
    }
    while taken < limit && end < source.len() && char_in_class(source[end], class)
        invariant
            from <= end <= source.len(),
            end == from + taken,
            taken <= limit,
            run_end(source@, from as int, class) == run_end(source@, end as int, class),
        decreases source.len() - end,
    {
        end = end + 1;
        taken = taken + 1;
    }
    proof {
        lemma_run_end(source@, end as int, class);
    }
    end
}

} // verus!
