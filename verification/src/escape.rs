//! Decoding of escape sequences in character and string literals.

use vstd::prelude::*;
use crate::chars::{
    bounded_run_end, is_octal_digit, lemma_run_end, run_end, scan_bounded_run, scan_run,
    CharClass,
};
use crate::error::LexErrorKind;
use crate::numbers::{digit_value, digit_value_of, parse_radix, radix_value};

verus! {

/// `char::from_u32` gives the character with the given number, if the number
/// is a Unicode scalar value, and nothing otherwise.
pub assume_specification[ char::from_u32 ](v: u32) -> (r: Option<char>)
    ensures
        r == if is_scalar_value(v as int) {
            Some(v as char)
        } else {
            None::<char>
        },
;

/// The numbers of the Unicode scalar values: all code points but the surrogates.
pub open spec fn is_scalar_value(v: int) -> bool {
    (0 <= v && v <= 0xD7FF) || (0xE000 <= v && v <= 0x10FFFF)
}

/// What a one-letter escape stands for.
pub open spec fn simple_escape(c: char) -> Option<char> {
    if c == 'a' {
        Some('\u{7}')
    } else if c == 'b' {
        Some('\u{8}')
    } else if c == 'f' {
        Some('\u{C}')
    } else if c == 'n' {
        Some('\n')
    } else if c == 'r' {
        Some('\r')
    } else if c == 't' {
        Some('\t')
    } else if c == 'v' {
        Some('\u{B}')
    } else if c == '\\' || c == '\'' || c == '"' {
        Some(c)
    } else {
        None
    }
}

/// The end of a `\x` escape whose `x` is at `at`: up to two hexadecimal digits.
pub open spec fn hex_escape_end(s: Seq<char>, at: int) -> int {
    bounded_run_end(s, at + 1, CharClass::HexDigit, 2)
}

/// The end of an octal escape whose first digit is at `at`: that digit and
/// up to two more.
pub open spec fn octal_escape_end(s: Seq<char>, at: int) -> int {
    bounded_run_end(s, at + 1, CharClass::OctalDigit, 2)
}

/// Decodes the `\u` escape whose `u` is at `at`.
pub open spec fn decode_unicode_escape(s: Seq<char>, at: int) -> Result<(char, int), LexErrorKind> {
    let digits_end = run_end(s, at + 2, CharClass::HexDigit);
    let value = radix_value(s.subrange(at + 2, digits_end), 16);
    if !(at + 1 < s.len() && s[at + 1] == '{') {
        Err(LexErrorKind::MissingUnicodeBrace)
    } else if digits_end < s.len() && s[digits_end] != '}' {
        Err(LexErrorKind::InvalidUnicodeDigit(s[digits_end]))
    } else if digits_end == at + 2 {
        Err(LexErrorKind::EmptyUnicodeEscape)
    } else if value > u32::MAX {
        Err(LexErrorKind::UnicodeEscapeOutOfRange)
    } else if !is_scalar_value(value) {
        Err(LexErrorKind::InvalidCodepoint)
    } else {
        Ok(
            (
                value as char,
                if digits_end < s.len() {
                    digits_end + 1
                } else {
                    digits_end
                },
            ),
        )
    }
}

/// Decodes the escape sequence whose introducer, the code point after the
/// `\`, is at `at`. Gives the one decoded code point and the index after the
/// sequence, or what is wrong with the sequence.
pub open spec fn decode_escape(s: Seq<char>, at: int) -> Result<(char, int), LexErrorKind> {
    let c = s[at];
    if simple_escape(c) is Some {
        Ok((simple_escape(c)->0, at + 1))
    } else if c == 'x' {
        let end = hex_escape_end(s, at);
        if end == at + 1 {
            Err(LexErrorKind::EmptyHexEscape)
        } else {
            Ok((radix_value(s.subrange(at + 1, end), 16) as char, end))
        }
    } else if c == 'u' {
        decode_unicode_escape(s, at)
    } else if is_octal_digit(c) {
        let end = octal_escape_end(s, at);
        let value = radix_value(s.subrange(at, end), 8);
        if value > 255 {
            Err(LexErrorKind::OctalEscapeOutOfRange)
        } else {
            Ok((value as char, end))
        }
    } else {
        Err(LexErrorKind::InvalidEscape(c))
    }
}

/// A decoded escape ends after its introducer and within the text.
pub proof fn lemma_decode_escape_advances(s: Seq<char>, at: int)
    requires
        0 <= at < s.len(),
    ensures
        decode_escape(s, at) matches Ok((_, end)) ==> at < end <= s.len(),
{
    lemma_run_end(s, at + 1, CharClass::HexDigit);
    lemma_run_end(s, at + 1, CharClass::OctalDigit);
    if at + 2 <= s.len() {
        lemma_run_end(s, at + 2, CharClass::HexDigit);
    }
}

/// What one or two hexadecimal digits stand for.
proof fn lemma_hex_pair_value(digits: Seq<char>)
    requires
        1 <= digits.len() <= 2,
    ensures
        digits.len() == 1 ==> radix_value(digits, 16) == digit_value(digits[0]),
        digits.len() == 2 ==> radix_value(digits, 16) == digit_value(digits[0]) * 16 + digit_value(
            digits[1],
        ),
{
    let head = digits.drop_last();
    if digits.len() == 1 {
        assert(radix_value(head, 16) == 0);
    } else {
        assert(radix_value(head.drop_last(), 16) == 0);
        assert(radix_value(head, 16) == digit_value(digits[0]));
    }
}

/// Scans the digits of an octal escape whose first digit is at `at`, and
/// gives the index after the last of them.
pub fn process_octal(source: &Vec<char>, at: usize) -> (end: usize)
    requires
        at < source.len(),
        is_octal_digit(source@[at as int]),
    ensures
        end == octal_escape_end(source@, at as int),
        at < end <= source.len(),
        end <= at + 3,
        forall|k: int| at <= k < end ==> is_octal_digit(#[trigger] source@[k]),
{
    let end = scan_bounded_run(source, at + 1, CharClass::OctalDigit, 2);
    proof {
        lemma_run_end(source@, at + 1, CharClass::OctalDigit);
    }
    end
}

/// Decodes the `\u` escape whose `u` is at `at`.
fn process_unicode_escape(source: &Vec<char>, at: usize) -> (r: Result<(char, usize), LexErrorKind>)
    requires
        at < source.len(),
    ensures
        match decode_unicode_escape(source@, at as int) {
            Ok((ch, end)) => r == Ok::<(char, usize), LexErrorKind>((ch, end as usize)) && at < end
                <= source.len(),
            Err(kind) => r == Err::<(char, usize), LexErrorKind>(kind),
        },
{
    if !(at + 1 < source.len() && source[at + 1] == '{') {
        return Err(LexErrorKind::MissingUnicodeBrace);
    }
    let digits_end = scan_run(source, at + 2, CharClass::HexDigit);
    proof {
        lemma_run_end(source@, at + 2, CharClass::HexDigit);
    }
    if digits_end < source.len() && source[digits_end] != '}' {
        return Err(LexErrorKind::InvalidUnicodeDigit(source[digits_end]));
    }
    if digits_end == at + 2 {
        return Err(LexErrorKind::EmptyUnicodeEscape);
    }
    let end = if digits_end < source.len() {
        digits_end + 1
    } else {
        digits_end
    };
    match parse_radix(source, at + 2, digits_end, 16, 0xffff_ffff) {
        None => Err(LexErrorKind::UnicodeEscapeOutOfRange),
        Some(value) => {
            match char::from_u32(value as u32) {
                None => Err(LexErrorKind::InvalidCodepoint),
                Some(ch) => Ok((ch, end)),
            }
        },
    }
}

/// Decodes the escape sequence of `source` whose introducer, the code point
/// after the `\`, is at `at`, and appends the decoded code point to
/// `string_lit`. Gives the index after the sequence.
pub fn process_escape_sequence(string_lit: &mut String, source: &Vec<char>, at: usize) -> (r:
    Result<usize, LexErrorKind>)
    requires
        at < source.len(),
    ensures
        match decode_escape(source@, at as int) {
            Ok((ch, end)) => {
                &&& r == Ok::<usize, LexErrorKind>(end as usize)
                &&& at < end <= source.len()
                &&& final(string_lit)@ == old(string_lit)@.push(ch)
            },
            Err(kind) => {
                &&& r == Err::<usize, LexErrorKind>(kind)
                &&& final(string_lit)@ == old(string_lit)@
            },
        },
{
    let c = source[at];
    if c == 'a' {
        string_lit.push('\u{7}');
        Ok(at + 1)
    } else if c == 'b' {
        string_lit.push('\u{8}');
        Ok(at + 1)
    } else if c == 'f' {
        string_lit.push('\u{C}');
        Ok(at + 1)
    } else if c == 'n' {
        string_lit.push('\n');
        Ok(at + 1)
    } else if c == 'r' {
        string_lit.push('\r');
        Ok(at + 1)
    } else if c == 't' {
        string_lit.push('\t');
        Ok(at + 1)
    } else if c == 'v' {
        string_lit.push('\u{B}');
        Ok(at + 1)
    } else if c == '\\' || c == '\'' || c == '"' {
        string_lit.push(c);
        Ok(at + 1)
    } else if c == 'x' {
        let end = scan_bounded_run(source, at + 1, CharClass::HexDigit, 2);
        if end == at + 1 {
            return Err(LexErrorKind::EmptyHexEscape);
        }
        proof {
            lemma_run_end(source@, at + 1, CharClass::HexDigit);
        }
        let mut value: u8 = digit_value_of(source[at + 1]);
        if end - at == 3 {
            value = value * 16 + digit_value_of(source[at + 2]);
        }
        proof {
            lemma_hex_pair_value(source@.subrange(at + 1, end as int));
        }
        string_lit.push(value as char);
        Ok(end)
    } else if c == 'u' {
        let (ch, end) = process_unicode_escape(source, at)?;
        string_lit.push(ch);
        Ok(end)
    } else if c >= '0' && c <= '7' {
        let end = process_octal(source, at);
        match parse_radix(source, at, end, 8, 255) {
            Some(value) => {
                string_lit.push((value as u8) as char);
                Ok(end)
            },
            None => Err(LexErrorKind::OctalEscapeOutOfRange),
        }
    } else {
        Err(LexErrorKind::InvalidEscape(c))
    }
}

} // verus!
