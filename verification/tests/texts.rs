use c_lexer::directive::scan_marker;
use c_lexer::error::{LexError, LexErrorKind};
use c_lexer::literals::{scan_char_literal, scan_string_literal};
use c_lexer::lexer::{dispatch, TokenClass};
use c_lexer::number_literal::scan_number;
use c_lexer::numbers::{decimal_string, digit_value_of, parse_radix};
use c_lexer::operator::scan_operator;
use c_lexer::text::{chars_equal, chars_match, chars_of, str_equal, string_of_range};

#[test]
fn strings_and_code_points() {
    assert_eq!(chars_of("a\u{e9}\u{1F600}"), vec!['a', '\u{e9}', '\u{1F600}']);
    assert_eq!(chars_of(""), Vec::<char>::new());
    let v = chars_of("hello");
    assert_eq!(string_of_range(&v, 0, 5), "hello");
    assert_eq!(string_of_range(&v, 1, 3), "el");
    assert_eq!(string_of_range(&v, 2, 2), "");
}

#[test]
fn comparing_texts() {
    assert!(chars_equal(&chars_of("abc"), &chars_of("abc")));
    assert!(!chars_equal(&chars_of("abc"), &chars_of("abd")));
    assert!(!chars_equal(&chars_of("abc"), &chars_of("ab")));
    assert!(chars_match(&chars_of("abc"), "abc"));
    assert!(!chars_match(&chars_of("abc"), "abcd"));
    assert!(!chars_match(&chars_of("abcd"), "abc"));
    assert!(!chars_match(&chars_of("abc"), "xbc"));
    assert!(chars_match(&chars_of(""), ""));
    assert!(str_equal("(", "("));
    assert!(!str_equal("(", ")"));
    assert!(!str_equal("(", ""));
}

#[test]
fn decimal_numerals() {
    assert_eq!(decimal_string(0), "0");
    assert_eq!(decimal_string(7), "7");
    assert_eq!(decimal_string(10), "10");
    assert_eq!(decimal_string(26), "26");
    assert_eq!(decimal_string(1002003), "1002003");
    assert_eq!(decimal_string(u64::MAX), "18446744073709551615");
}

#[test]
fn digit_strings_in_a_base() {
    let source = chars_of("x1Af:777:0099");
    assert_eq!(parse_radix(&source, 1, 4, 16, 0xffff), Some(0x1af));
    assert_eq!(parse_radix(&source, 1, 4, 16, 0x1af), Some(0x1af));
    assert_eq!(parse_radix(&source, 1, 4, 16, 0x1ae), None);
    assert_eq!(parse_radix(&source, 5, 8, 8, 1000), Some(511));
    assert_eq!(parse_radix(&source, 5, 8, 10, 1000), Some(777));
    assert_eq!(parse_radix(&source, 9, 13, 10, 99), Some(99));
    assert_eq!(parse_radix(&source, 9, 9, 10, 0), Some(0));
    let big = chars_of("ffffffffffffffffffffffff");
    assert_eq!(parse_radix(&big, 0, 24, 16, u64::MAX), None);
    assert_eq!(parse_radix(&big, 0, 16, 16, u64::MAX), Some(u64::MAX));
    assert_eq!(digit_value_of('0'), 0);
    assert_eq!(digit_value_of('9'), 9);
    assert_eq!(digit_value_of('a'), 10);
    assert_eq!(digit_value_of('F'), 15);
}

#[test]
fn what_starts_at_a_code_point() {
    let source = chars_of("a_1 .5 . ' \" + # @");
    assert_eq!(dispatch(&source, 0, false), TokenClass::Identifier);
    assert_eq!(dispatch(&source, 1, false), TokenClass::Identifier);
    assert_eq!(dispatch(&source, 2, false), TokenClass::Number);
    assert_eq!(dispatch(&source, 3, false), TokenClass::Whitespace);
    assert_eq!(dispatch(&source, 4, false), TokenClass::Number);
    assert_eq!(dispatch(&source, 7, false), TokenClass::Operator);
    assert_eq!(dispatch(&source, 9, false), TokenClass::CharLiteral);
    assert_eq!(dispatch(&source, 11, false), TokenClass::StringLiteral);
    assert_eq!(dispatch(&source, 13, true), TokenClass::Operator);
    assert_eq!(dispatch(&source, 15, true), TokenClass::Directive);
    assert_eq!(dispatch(&source, 15, false), TokenClass::Unknown);
    assert_eq!(dispatch(&source, 17, true), TokenClass::Unknown);
    let dot_at_end = chars_of(".");
    assert_eq!(dispatch(&dot_at_end, 0, true), TokenClass::Operator);
}

#[test]
fn scanners_give_text_and_end() {
    let source = chars_of("x 0x1A+'a'\"s\" \"t\"<<=1");
    assert_eq!(scan_number(&source, 2), Ok(("26".to_string(), 6)));
    assert_eq!(scan_operator(&source, 6), 7);
    assert_eq!(scan_char_literal(&source, 7), Ok(("a".to_string(), 10)));
    assert_eq!(scan_string_literal(&source, 10), Ok(("st".to_string(), 17)));
    assert_eq!(scan_string_literal(&source, 14), Ok(("t".to_string(), 17)));
    assert_eq!(scan_operator(&source, 17), 20);
    assert_eq!(scan_operator(&source, 18), 20);
    assert_eq!(scan_operator(&source, 19), 20);
    assert_eq!(scan_number(&source, 20), Ok(("1".to_string(), 21)));
}

#[test]
fn line_markers_by_their_parts() {
    let source = chars_of("# 12 \"a/b.c\" 1 3\nx");
    assert_eq!(scan_marker(&source, 0), (Some(12), Some("b.c".to_string()), 16));
    let source = chars_of("#\t7");
    assert_eq!(scan_marker(&source, 0), (Some(7), None, 3));
    let source = chars_of("#  \"a\\b\"\r\n");
    assert_eq!(scan_marker(&source, 0), (None, Some("a\\b".to_string()), 8));
    let source = chars_of("x\n#line 5 \"f.c\"\n");
    assert_eq!(scan_marker(&source, 2), (None, None, 15));
    let source = chars_of("# 5\"f.c\"x\"y\"\n");
    assert_eq!(scan_marker(&source, 0), (Some(5), Some("f.c".to_string()), 12));
    let source = chars_of("# 007");
    assert_eq!(scan_marker(&source, 0), (Some(7), None, 5));
}

#[test]
fn every_kind_of_error_has_its_words() {
    let cases = [
        (LexErrorKind::OctalNumberOutOfRange, "Octal number out of range"),
        (LexErrorKind::EmptyHexNumber, "Invalid hex number"),
        (LexErrorKind::HexNumberOutOfRange, "Hex number out of range"),
        (LexErrorKind::MultipleDecimalPoints, "Multiple decimal points in number"),
        (LexErrorKind::InvalidExponent, "Invalid exponent in number"),
        (LexErrorKind::InvalidNumberSuffix, "Invalid number suffix"),
        (LexErrorKind::UnterminatedCharLiteral, "Unterminated character literal"),
        (LexErrorKind::EmptyCharLiteral, "Empty character literal"),
        (LexErrorKind::CharLiteralTooLong, "Character literal too long"),
        (LexErrorKind::UnmatchedEscape, "Unmatched escape sequence"),
        (LexErrorKind::UnterminatedStringLiteral, "Unterminated string literal"),
        (LexErrorKind::UnknownCharacter('@'), "Unknown character: @"),
        (LexErrorKind::EmptyHexEscape, "Expected hex digits after \\x"),
        (LexErrorKind::MissingUnicodeBrace, "Expected '{' after \\u"),
        (LexErrorKind::InvalidUnicodeDigit('z'), "Invalid character 'z' in unicode escape"),
        (LexErrorKind::EmptyUnicodeEscape, "Empty unicode escape"),
        (LexErrorKind::UnicodeEscapeOutOfRange, "Unicode escape out of range"),
        (LexErrorKind::InvalidCodepoint, "Invalid unicode codepoint"),
        (LexErrorKind::OctalEscapeOutOfRange, "Octal escape out of range"),
        (LexErrorKind::InvalidEscape('q'), "Invalid escape sequence: \\q"),
        (LexErrorKind::LineCounterOverflow, "Too many lines"),
    ];
    for (kind, words) in cases {
        assert_eq!(kind.describe(), words);
        let e = LexError { kind, line: 30, file: "f.c".to_string() };
        assert_eq!(e.message(), format!("f.c, 30: {}", words));
    }
}
