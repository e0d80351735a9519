//! Character and string literals.

use vstd::prelude::*;
use crate::chars::{lemma_run_end, run_end, scan_run, CharClass};
use crate::error::LexErrorKind;
use crate::escape::{decode_escape, lemma_decode_escape_advances, process_escape_sequence};

verus! {

/// What a character literal comes to once its one character `ch` has been
/// read and the closing quote is due at `at`. Without the quote there, the
/// literal is too long if a quote comes later on the line, and
/// unterminated if the line or the text ends first; the search for either
/// starts after `at`.
pub open spec fn char_literal_close(s: Seq<char>, ch: char, at: int) -> Result<
    (Seq<char>, int),
    LexErrorKind,
> {
    let stop = run_end(s, at + 1, CharClass::InCharTail);
    if at < s.len() && s[at] == '\'' {
        Ok((seq![ch], at + 1))
    } else if stop < s.len() && s[stop] == '\'' {
        Err(LexErrorKind::CharLiteralTooLong)
    } else {
        Err(LexErrorKind::UnterminatedCharLiteral)
    }
}

/// The character literal whose opening quote is at `at`: its text, which is
/// the one character it holds, and the index after its closing quote.
pub open spec fn char_literal(s: Seq<char>, at: int) -> Result<(Seq<char>, int), LexErrorKind> {
    if at + 1 >= s.len() {
        Err(LexErrorKind::UnterminatedCharLiteral)
    } else if s[at + 1] == '\'' {
        Err(LexErrorKind::EmptyCharLiteral)
    } else if s[at + 1] == '\\' {
        if at + 2 >= s.len() {
            Err(LexErrorKind::UnterminatedCharLiteral)
        } else {
            match decode_escape(s, at + 2) {
                Ok((ch, end)) => char_literal_close(s, ch, end),
                Err(kind) => Err(kind),
            }
        }
    } else {
        char_literal_close(s, s[at + 1], at + 2)
    }
}

/// Where a string literal goes on after a `"` at `at`, if it does: behind
/// the next `"`, when nothing but white space stands between the two.
pub open spec fn adjacent_string_start(s: Seq<char>, at: int) -> Option<int> {
    let quote = run_end(s, at + 1, CharClass::Whitespace);
    if quote < s.len() && s[quote] == '"' {
        Some(quote + 1)
    } else {
        None
    }
}

/// The index after a `\` at `at` and the line break, at `at + 1`, that it
/// escapes: a line feed, or a carriage return with the line feed that may
/// follow it.
pub open spec fn line_continuation_end(s: Seq<char>, at: int) -> int {
    if s[at + 1] == '\r' && at + 2 < s.len() && s[at + 2] == '\n' {
        at + 3
    } else {
        at + 2
    }
}

/// The rest of a string literal read up to `at`, with `text` decoded so
/// far. Gives the whole text and the index after the closing quote.
///
/// A `"` closes the literal, unless another literal follows after nothing
/// but white space: then the text goes on inside that one. A `\` before a
/// line break is dropped with the line break; any other `\` starts an
/// escape sequence, which stands for one code point. A bare line feed, or
/// the end of the text, leaves the literal unterminated.
pub open spec fn string_tail(s: Seq<char>, at: int, text: Seq<char>) -> Result<
    (Seq<char>, int),
    LexErrorKind,
>
    decreases s.len() - at,
    via string_tail_terminates
{
    if at < 0 || at >= s.len() {
        Err(LexErrorKind::UnterminatedStringLiteral)
    } else if s[at] == '"' {
        match adjacent_string_start(s, at) {
            Some(next) => string_tail(s, next, text),
            None => Ok((text, at + 1)),
        }
    } else if s[at] == '\\' {
        if at + 1 >= s.len() {
            Err(LexErrorKind::UnmatchedEscape)
        } else if s[at + 1] == '\n' || s[at + 1] == '\r' {
            string_tail(s, line_continuation_end(s, at), text)
        } else {
            match decode_escape(s, at + 1) {
                Ok((ch, end)) => string_tail(s, end, text.push(ch)),
                Err(kind) => Err(kind),
            }
        }
    } else if s[at] == '\n' {
        Err(LexErrorKind::UnterminatedStringLiteral)
    } else {
        string_tail(s, at + 1, text.push(s[at]))
    }
}

/// Whatever is read of a string literal ends after the place where it
/// starts, so reading it comes to an end.
#[via_fn]
proof fn string_tail_terminates(s: Seq<char>, at: int, text: Seq<char>) {
    if 0 <= at < s.len() {
        lemma_run_end(s, at + 1, CharClass::Whitespace);
        if at + 1 < s.len() {
            lemma_decode_escape_advances(s, at + 1);
        }
    }
}

/// The string literal whose opening quote is at `at`: its decoded text and
/// the index after its last closing quote.
pub open spec fn string_literal(s: Seq<char>, at: int) -> Result<(Seq<char>, int), LexErrorKind> {
    string_tail(s, at + 1, Seq::empty())
}

/// A string literal ends after the place from which it is read on, and
/// within the text.
pub proof fn lemma_string_tail_bounds(s: Seq<char>, at: int, text: Seq<char>)
    requires
        0 <= at <= s.len(),
    ensures
        string_tail(s, at, text) matches Ok((_, end)) ==> at < end <= s.len(),
    decreases s.len() - at,
{
    if at < s.len() {
        if s[at] == '"' {
            lemma_run_end(s, at + 1, CharClass::Whitespace);
            match adjacent_string_start(s, at) {
                Some(next) => lemma_string_tail_bounds(s, next, text),
                None => {},
            }
        } else if s[at] == '\\' {
            if at + 1 < s.len() {
                if s[at + 1] == '\n' || s[at + 1] == '\r' {
                    lemma_string_tail_bounds(s, line_continuation_end(s, at), text);
                } else {
                    lemma_decode_escape_advances(s, at + 1);
                    match decode_escape(s, at + 1) {
                        Ok((ch, end)) => lemma_string_tail_bounds(s, end, text.push(ch)),
                        Err(_) => {},
                    }
                }
            }
        } else if s[at] != '\n' {
            lemma_string_tail_bounds(s, at + 1, text.push(s[at]));
        }
    }
}

/// A character literal ends after its opening quote and within the text.
pub proof fn lemma_char_literal_bounds(s: Seq<char>, at: int)
    requires
        0 <= at < s.len(),
    ensures
        char_literal(s, at) matches Ok((_, end)) ==> at < end <= s.len(),
{
    if at + 2 < s.len() {
        lemma_decode_escape_advances(s, at + 2);
    }
}

/// Reads the character literal whose opening quote is at `at`. Gives its
/// text and the index after its closing quote.
pub fn scan_char_literal(source: &Vec<char>, at: usize) -> (r: Result<
    (String, usize),
    LexErrorKind,
>)
    requires
        at < source.len(),
    ensures
        match char_literal(source@, at as int) {
            Ok((text, end)) => {
                &&& r matches Ok((t, e))
                &&& t@ == text
                &&& e == end
                &&& at < end <= source.len()
            },
            Err(kind) => r == Err::<(String, usize), LexErrorKind>(kind),
        },
{
    if at + 1 >= source.len() {
        return Err(LexErrorKind::UnterminatedCharLiteral);
    }
    let c = source[at + 1];
    let mut text = String::new();
    let close: usize;
    if c == '\'' {
        return Err(LexErrorKind::EmptyCharLiteral);
    } else if c == '\\' {
        if at + 2 >= source.len() {
            return Err(LexErrorKind::UnterminatedCharLiteral);
        }
        close = process_escape_sequence(&mut text, source, at + 2)?;
    } else {
        text.push(c);
        close = at + 2;
    }
    if close < source.len() && source[close] == '\'' {
        return Ok((text, close + 1));
    }
    let stop = if close < source.len() {
        scan_run(source, close + 1, CharClass::InCharTail)
    } else {
        close
    };
    if stop < source.len() && source[stop] == '\'' {
        Err(LexErrorKind::CharLiteralTooLong)
    } else {
        Err(LexErrorKind::UnterminatedCharLiteral)
    }
}

/// Reads the string literal whose opening quote is at `at`. Gives its
/// decoded text and the index after its last closing quote.
pub fn scan_string_literal(source: &Vec<char>, at: usize) -> (r: Result<
    (String, usize),
    LexErrorKind,
>)
    requires
        at < source.len(),
    ensures
        match string_literal(source@, at as int) {
            Ok((text, end)) => {
                &&& r matches Ok((t, e))
                &&& t@ == text
                &&& e == end
                &&& at < end <= source.len()
            },
            Err(kind) => r == Err::<(String, usize), LexErrorKind>(kind),
        },
{
    let mut text = String::new();
    let mut i: usize = at + 1;
    proof {
        lemma_string_tail_bounds(source@, at + 1, Seq::empty());
    }
    loop
        invariant
            at < i <= source.len(),
            string_literal(source@, at as int) == string_tail(source@, i as int, text@),
            string_literal(source@, at as int) matches Ok((_, end)) ==> at < end <= source.len(),
        decreases source.len() - i,
    {
        if i >= source.len() {
            return Err(LexErrorKind::UnterminatedStringLiteral);
        }
        let c = source[i];
        if c == '"' {
            let quote = scan_run(source, i + 1, CharClass::Whitespace);
            if quote < source.len() && source[quote] == '"' {
                i = quote + 1;
            } else {
                return Ok((text, i + 1));
            }
        } else if c == '\\' {
            if i + 1 >= source.len() {
                return Err(LexErrorKind::UnmatchedEscape);
            }
            let e = source[i + 1];
            if e == '\n' {
                i = i + 2;
            } else if e == '\r' {
                if i + 2 < source.len() && source[i + 2] == '\n' {
                    i = i + 3;
                } else {
                    i = i + 2;
                }
            } else {
                i = process_escape_sequence(&mut text, source, i + 1)?;
            }
        } else if c == '\n' {
            return Err(LexErrorKind::UnterminatedStringLiteral);
        } else {
            text.push(c);
            i = i + 1;
        }
    }
}

} // verus!
