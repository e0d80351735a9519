//! The errors that stop the tokenizer.

use vstd::prelude::*;
use crate::numbers::{decimal_string, decimal_text};

verus! {

/// What was wrong with the text.
#[derive(Clone, Copy, Debug, PartialEq, Eq, Structural)]
pub enum LexErrorKind {
    /// An octal number above the largest 32-bit value.
    OctalNumberOutOfRange,
    /// `0x` with no hexadecimal digit after it.
    EmptyHexNumber,
    /// A hexadecimal number above the largest 32-bit value.
    HexNumberOutOfRange,
    /// A second `.` in one number.
    MultipleDecimalPoints,
    /// An exponent marker with no digit after it.
    InvalidExponent,
    /// A suffix that is not one of the known ones, or that is followed by
    /// something other than white space or a symbol.
    InvalidNumberSuffix,
    /// A character literal that is not closed on its line.
    UnterminatedCharLiteral,
    /// `''`.
    EmptyCharLiteral,
    /// A character literal that holds more than one character.
    CharLiteralTooLong,
    /// A `\` at the very end of the text, inside a string literal.
    UnmatchedEscape,
    /// A string literal that is not closed on its line.
    UnterminatedStringLiteral,
    /// A code point that starts no token.
    UnknownCharacter(char),
    /// `\x` with no hexadecimal digit after it.
    EmptyHexEscape,
    /// `\u` without `{` after it.
    MissingUnicodeBrace,
    /// A code point inside `\u{..}` that is neither a hexadecimal digit nor `}`.
    InvalidUnicodeDigit(char),
    /// `\u{}`.
    EmptyUnicodeEscape,
    /// A `\u{..}` whose number is above the largest 32-bit value.
    UnicodeEscapeOutOfRange,
    /// A `\u{..}` whose number is no Unicode scalar value.
    InvalidCodepoint,
    /// An octal escape above 255.
    OctalEscapeOutOfRange,
    /// A `\` followed by a code point that introduces no escape.
    InvalidEscape(char),
    /// More lines than the line counter can count.
    LineCounterOverflow,
}

/// A fatal error, with the place where the tokenizer stopped.
#[derive(Clone, Debug, PartialEq, Eq)]
pub struct LexError {
    pub kind: LexErrorKind,
    pub line: usize,
    pub file: String,
}

/// The mathematical value of a `LexError`.
pub struct Failure {
    pub kind: LexErrorKind,
    pub line: int,
    pub file: Seq<char>,
}

impl View for LexError {
    type V = Failure;

    open spec fn view(&self) -> Failure {
        Failure { kind: self.kind, line: self.line as int, file: self.file@ }
    }
}

/// The words for an error kind.
pub open spec fn kind_text(kind: LexErrorKind) -> Seq<char> {
    match kind {
        LexErrorKind::OctalNumberOutOfRange => "Octal number out of range"@,
        LexErrorKind::EmptyHexNumber => "Invalid hex number"@,
        LexErrorKind::HexNumberOutOfRange => "Hex number out of range"@,
        LexErrorKind::MultipleDecimalPoints => "Multiple decimal points in number"@,
        LexErrorKind::InvalidExponent => "Invalid exponent in number"@,
        LexErrorKind::InvalidNumberSuffix => "Invalid number suffix"@,
        LexErrorKind::UnterminatedCharLiteral => "Unterminated character literal"@,
        LexErrorKind::EmptyCharLiteral => "Empty character literal"@,
        LexErrorKind::CharLiteralTooLong => "Character literal too long"@,
        LexErrorKind::UnmatchedEscape => "Unmatched escape sequence"@,
        LexErrorKind::UnterminatedStringLiteral => "Unterminated string literal"@,
        LexErrorKind::UnknownCharacter(c) => "Unknown character: "@.push(c),
        LexErrorKind::EmptyHexEscape => "Expected hex digits after \\x"@,
        LexErrorKind::MissingUnicodeBrace => "Expected '{' after \\u"@,
        LexErrorKind::InvalidUnicodeDigit(c) => "Invalid character '"@.push(c)
            + "' in unicode escape"@,
        LexErrorKind::EmptyUnicodeEscape => "Empty unicode escape"@,
        LexErrorKind::UnicodeEscapeOutOfRange => "Unicode escape out of range"@,
        LexErrorKind::InvalidCodepoint => "Invalid unicode codepoint"@,
        LexErrorKind::OctalEscapeOutOfRange => "Octal escape out of range"@,
        LexErrorKind::InvalidEscape(c) => "Invalid escape sequence: \\"@.push(c),
        LexErrorKind::LineCounterOverflow => "Too many lines"@,
    }
}

/// The message for a failure: file, line, and the words for its kind.
pub open spec fn message_text(f: Failure) -> Seq<char> {
    f.file + ", "@ + decimal_text(f.line as nat) + ": "@ + kind_text(f.kind)
}

impl LexErrorKind {
    /// The words for this kind.
    pub fn describe(&self) -> (s: String)
        ensures
            s@ == kind_text(*self),
    {
        match self {
            LexErrorKind::OctalNumberOutOfRange => "Octal number out of range".to_string(),
            LexErrorKind::EmptyHexNumber => "Invalid hex number".to_string(),
            LexErrorKind::HexNumberOutOfRange => "Hex number out of range".to_string(),
            LexErrorKind::MultipleDecimalPoints => "Multiple decimal points in number".to_string(),
            LexErrorKind::InvalidExponent => "Invalid exponent in number".to_string(),
            LexErrorKind::InvalidNumberSuffix => "Invalid number suffix".to_string(),
            LexErrorKind::UnterminatedCharLiteral => "Unterminated character literal".to_string(),
            LexErrorKind::EmptyCharLiteral => "Empty character literal".to_string(),
            LexErrorKind::CharLiteralTooLong => "Character literal too long".to_string(),
            LexErrorKind::UnmatchedEscape => "Unmatched escape sequence".to_string(),
            LexErrorKind::UnterminatedStringLiteral => "Unterminated string literal".to_string(),
            LexErrorKind::UnknownCharacter(c) => {
                let mut s = "Unknown character: ".to_string();
                s.push(*c);
                s
            },
            LexErrorKind::EmptyHexEscape => "Expected hex digits after \\x".to_string(),
            LexErrorKind::MissingUnicodeBrace => "Expected '{' after \\u".to_string(),
            LexErrorKind::InvalidUnicodeDigit(c) => {
                let mut s = "Invalid character '".to_string();
                s.push(*c);
                s.append("' in unicode escape");
                s
            },
            LexErrorKind::EmptyUnicodeEscape => "Empty unicode escape".to_string(),
            LexErrorKind::UnicodeEscapeOutOfRange => "Unicode escape out of range".to_string(),
            LexErrorKind::InvalidCodepoint => "Invalid unicode codepoint".to_string(),
            LexErrorKind::OctalEscapeOutOfRange => "Octal escape out of range".to_string(),
            LexErrorKind::InvalidEscape(c) => {
                let mut s = "Invalid escape sequence: \\".to_string();
                s.push(*c);
                s
            },
            LexErrorKind::LineCounterOverflow => "Too many lines".to_string(),
        }
    }
}

impl LexError {
    /// The message for this error: file, line, and the words for its kind.
    pub fn message(&self) -> (s: String)
        ensures
            s@ == message_text(self@),
    {
        let mut s = self.file.clone();
        s.append(", ");
        let line = decimal_string(self.line as u64);
        s.append(line.as_str());
        s.append(": ");
        let words = self.kind.describe();
        s.append(words.as_str());
        s
    }
}

} // verus!
