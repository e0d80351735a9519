//! Numeric literals: octal, hexadecimal, and decimal with fraction,
//! exponent and suffix.

use vstd::prelude::*;
use crate::chars::{
    bounded_run_end, is_ascii_letter, is_ascii_letter_char, is_digit, is_digit_char,
    is_exponent_marker, is_octal_digit, is_octal_digit_char, is_whitespace, is_whitespace_char,
    lemma_run_end, lower_case, run_end, scan_bounded_run, scan_run, to_lower, CharClass, CharExt,
};
use crate::error::LexErrorKind;
use crate::numbers::{decimal_string, decimal_text, parse_radix, radix_value};
use crate::symbols::{is_symbol, symbol_of};
use crate::text::{chars_of, string_of_range};

verus! {

/// Whether a numeric literal starts at `at`: with a digit, or with `.` and a
/// digit after it.
pub open spec fn starts_number(s: Seq<char>, at: int) -> bool {
    is_digit(s[at]) || (s[at] == '.' && at + 1 < s.len() && is_digit(s[at + 1]))
}

/// Whether `t`, letter case aside, is one of the suffixes `u`, `l`, `f`,
/// `ul`, `lu`, `ll`, `lf`, `ull`, `llu`.
pub open spec fn is_num_suffix(t: Seq<char>) -> bool {
    let a = to_lower(t[0]);
    let b = to_lower(t[1]);
    let c = to_lower(t[2]);
    ||| t.len() == 1 && (a == 'u' || a == 'l' || a == 'f')
    ||| t.len() == 2 && ((a == 'u' && b == 'l') || (a == 'l' && b == 'u') || (a == 'l' && b == 'l')
        || (a == 'l' && b == 'f'))
    ||| t.len() == 3 && ((a == 'u' && b == 'l' && c == 'l') || (a == 'l' && b == 'l' && c == 'u'))
}

/// Where the digits of an exponent start, its marker being at `at`: after
/// the marker and one sign, if there is a sign.
pub open spec fn exponent_digits_start(s: Seq<char>, at: int) -> int {
    if at + 1 < s.len() && (s[at + 1] == '+' || s[at + 1] == '-') {
        at + 2
    } else {
        at + 1
    }
}

/// The end of the suffix that starts at `at`: up to three suffix letters.
pub open spec fn suffix_end(s: Seq<char>, at: int) -> int {
    bounded_run_end(s, at, CharClass::SuffixChar, 3)
}

/// The end of a decimal literal of which everything before `at` has been
/// read; `has_decimal` says whether a `.` was among it.
///
/// Digits go on. A `.` goes on unless there was one before. An exponent
/// marker takes one optional sign and at least one digit, and goes on. Any
/// other letter starts the suffix, which ends the literal: it must be a
/// known suffix, and white space, a symbol or the end of the text must
/// follow it. Anything else ends the literal.
pub open spec fn decimal_tail(s: Seq<char>, at: int, has_decimal: bool) -> Result<
    int,
    LexErrorKind,
>
    decreases s.len() - at,
    via decimal_tail_terminates
{
    if at < 0 || at >= s.len() {
        Ok(at)
    } else if is_digit(s[at]) {
        decimal_tail(s, at + 1, has_decimal)
    } else if s[at] == '.' {
        if has_decimal {
            Err(LexErrorKind::MultipleDecimalPoints)
        } else {
            decimal_tail(s, at + 1, true)
        }
    } else if is_exponent_marker(s[at]) {
        let digits = exponent_digits_start(s, at);
        let end = run_end(s, digits, CharClass::Digit);
        if end <= digits {
            Err(LexErrorKind::InvalidExponent)
        } else {
            decimal_tail(s, end, has_decimal)
        }
    } else if is_ascii_letter(s[at]) {
        let end = suffix_end(s, at);
        if end < s.len() && !is_whitespace(s[end]) && symbol_of(s[end]) is None {
            Err(LexErrorKind::InvalidNumberSuffix)
        } else if !is_num_suffix(s.subrange(at, end)) {
            Err(LexErrorKind::InvalidNumberSuffix)
        } else {
            Ok(end)
        }
    } else {
        Ok(at)
    }
}

/// The digits of an exponent end within the text, so reading the literal
/// comes to an end.
#[via_fn]
proof fn decimal_tail_terminates(s: Seq<char>, at: int, has_decimal: bool) {
    if 0 <= at < s.len() {
        lemma_run_end(s, exponent_digits_start(s, at), CharClass::Digit);
    }
}

/// Whether an octal literal starts at `at`: `0` and an octal digit.
pub open spec fn starts_octal(s: Seq<char>, at: int) -> bool {
    s[at] == '0' && at + 1 < s.len() && is_octal_digit(s[at + 1])
}

/// Whether a hexadecimal literal starts at `at`: `0` and `x` or `X`.
pub open spec fn starts_hex(s: Seq<char>, at: int) -> bool {
    s[at] == '0' && at + 1 < s.len() && (s[at + 1] == 'x' || s[at + 1] == 'X')
}

/// The numeric literal that starts at `at`: its text and the index after it.
///
/// An octal literal is `0` and the run of octal digits after it; a
/// hexadecimal literal is `0x` or `0X` and the run of hexadecimal digits
/// after it, of which there must be one. The text of either is the decimal
/// numeral of its value, which must fit in 32 bits. Any other literal is
/// decimal, and its text is what was read.
pub open spec fn number_literal(s: Seq<char>, at: int) -> Result<(Seq<char>, int), LexErrorKind> {
    if starts_octal(s, at) {
        let end = run_end(s, at + 1, CharClass::OctalDigit);
        let value = radix_value(s.subrange(at + 1, end), 8);
        if value > u32::MAX {
            Err(LexErrorKind::OctalNumberOutOfRange)
        } else {
            Ok((decimal_text(value as nat), end))
        }
    } else if starts_hex(s, at) {
        let end = run_end(s, at + 2, CharClass::HexDigit);
        let value = radix_value(s.subrange(at + 2, end), 16);
        if end <= at + 2 {
            Err(LexErrorKind::EmptyHexNumber)
        } else if value > u32::MAX {
            Err(LexErrorKind::HexNumberOutOfRange)
        } else {
            Ok((decimal_text(value as nat), end))
        }
    } else {
        match decimal_tail(s, at + 1, s[at] == '.') {
            Ok(end) => Ok((s.subrange(at, end), end)),
            Err(kind) => Err(kind),
        }
    }
}

/// A decimal literal ends at or after the place from which it is read on,
/// and within the text.
pub proof fn lemma_decimal_tail_bounds(s: Seq<char>, at: int, has_decimal: bool)
    requires
        0 <= at <= s.len(),
    ensures
        decimal_tail(s, at, has_decimal) matches Ok(end) ==> at <= end <= s.len(),
    decreases s.len() - at,
{
    if at < s.len() {
        if is_digit(s[at]) {
            lemma_decimal_tail_bounds(s, at + 1, has_decimal);
        } else if s[at] == '.' {
            if !has_decimal {
                lemma_decimal_tail_bounds(s, at + 1, true);
            }
        } else if is_exponent_marker(s[at]) {
            let digits = exponent_digits_start(s, at);
            let end = run_end(s, digits, CharClass::Digit);
            lemma_run_end(s, digits, CharClass::Digit);
            if end > digits {
                lemma_decimal_tail_bounds(s, end, has_decimal);
            }
        } else if is_ascii_letter(s[at]) {
            lemma_run_end(s, at, CharClass::SuffixChar);
        }
    }
}

/// A numeric literal ends after its start and within the text.
pub proof fn lemma_number_literal_bounds(s: Seq<char>, at: int)
    requires
        0 <= at < s.len(),
    ensures
        number_literal(s, at) matches Ok((_, end)) ==> at < end <= s.len(),
{
    lemma_run_end(s, at + 1, CharClass::OctalDigit);
    if at + 2 <= s.len() {
        lemma_run_end(s, at + 2, CharClass::HexDigit);
    }
    lemma_decimal_tail_bounds(s, at + 1, s[at] == '.');
}

/// Whether the code points of `source` from `from` up to `to` make a known
/// suffix.
pub fn is_num_suffix_at(source: &Vec<char>, from: usize, to: usize) -> (b: bool)
    requires
        from <= to <= source.len(),
    ensures
        b == is_num_suffix(source@.subrange(from as int, to as int)),
{
    let n = to - from;
    if n == 1 {
        let a = lower_case(source[from]);
        a == 'u' || a == 'l' || a == 'f'
    } else if n == 2 {
        let a = lower_case(source[from]);
        let b = lower_case(source[from + 1]);
        (a == 'u' && b == 'l') || (a == 'l' && b == 'u') || (a == 'l' && b == 'l') || (a == 'l'
            && b == 'f')
    } else if n == 3 {
        let a = lower_case(source[from]);
        let b = lower_case(source[from + 1]);
        let c = lower_case(source[from + 2]);
        (a == 'u' && b == 'l' && c == 'l') || (a == 'l' && b == 'l' && c == 'u')
    } else {
        false
    }
}

/// Reads a decimal literal on from `from`, and gives the index after it.
fn scan_decimal_tail(source: &Vec<char>, from: usize, has_decimal: bool) -> (r: Result<
    usize,
    LexErrorKind,
>)
    requires
        from <= source.len(),
    ensures
        match decimal_tail(source@, from as int, has_decimal) {
            Ok(end) => r == Ok::<usize, LexErrorKind>(end as usize) && from <= end <= source.len(),
            Err(kind) => r == Err::<usize, LexErrorKind>(kind),
        },
{
    let mut at: usize = from;
    let mut seen_point = has_decimal;
    loop
        invariant
            from <= at <= source.len(),
            decimal_tail(source@, from as int, has_decimal) == decimal_tail(
                source@,
                at as int,
                seen_point,
            ),
        decreases source.len() - at,
    {
        if at >= source.len() {
            return Ok(at);
        }
        let c = source[at];
        if is_digit_char(c) {
            at = at + 1;
        } else if c.is_dot() {
            if seen_point {
                return Err(LexErrorKind::MultipleDecimalPoints);
            }
            seen_point = true;
            at = at + 1;
        } else if c.is_sci_notation() {
            let digits = if at + 1 < source.len() && (source[at + 1] == '+' || source[at + 1]
                == '-') {
                at + 2
            } else {
                at + 1
            };
            let end = scan_run(source, digits, CharClass::Digit);
            if end <= digits {
                return Err(LexErrorKind::InvalidExponent);
            }
            at = end;
        } else if is_ascii_letter_char(c) {
            let end = scan_bounded_run(source, at, CharClass::SuffixChar, 3);
            if end < source.len() && !is_whitespace_char(source[end]) && !is_symbol(source[end]) {
                return Err(LexErrorKind::InvalidNumberSuffix);
            }
            if !is_num_suffix_at(source, at, end) {
                return Err(LexErrorKind::InvalidNumberSuffix);
            }
            return Ok(end);
        } else {
            return Ok(at);
        }
    }
}

/// Reads the numeric literal that starts at `at`. Gives its text and the
/// index after it.
pub fn scan_number(source: &Vec<char>, at: usize) -> (r: Result<(String, usize), LexErrorKind>)
    requires
        at < source.len(),
    ensures
        match number_literal(source@, at as int) {
            Ok((text, end)) => {
                &&& r matches Ok((t, e))
                &&& t@ == text
                &&& e == end
                &&& at < end <= source.len()
            },
            Err(kind) => r == Err::<(String, usize), LexErrorKind>(kind),
        },
{
    let c = source[at];
    if c == '0' && at + 1 < source.len() && is_octal_digit_char(source[at + 1]) {
        let end = scan_run(source, at + 1, CharClass::OctalDigit);
        proof {
            lemma_run_end(source@, at + 1, CharClass::OctalDigit);
        }
        match parse_radix(source, at + 1, end, 8, 0xffff_ffff) {
            Some(value) => Ok((decimal_string(value), end)),
            None => Err(LexErrorKind::OctalNumberOutOfRange),
        }
    } else if c == '0' && at + 1 < source.len() && (source[at + 1] == 'x' || source[at + 1]
        == 'X') {
        let end = scan_run(source, at + 2, CharClass::HexDigit);
        proof {
            lemma_run_end(source@, at + 2, CharClass::HexDigit);
        }
        if end <= at + 2 {
            return Err(LexErrorKind::EmptyHexNumber);
        }
        match parse_radix(source, at + 2, end, 16, 0xffff_ffff) {
            Some(value) => Ok((decimal_string(value), end)),
            None => Err(LexErrorKind::HexNumberOutOfRange),
        }
    } else {
        match scan_decimal_tail(source, at + 1, c == '.') {
            Ok(end) => Ok((string_of_range(source, at, end), end)),
            Err(kind) => Err(kind),
        }
    }
}

/// Tests on a string's text.
pub trait StrExt {
    /// Whether the string, letter case aside, is a known numeric suffix.
    fn is_num_suffix(&self) -> bool;
}

impl StrExt for str {
    fn is_num_suffix(&self) -> (b: bool)
        ensures
            b == is_num_suffix(self@),
    {
        let v = chars_of(self);
        is_num_suffix_at(&v, 0, v.len())
    }
}

} // verus!
