use c_lexer::error::LexErrorKind;
use c_lexer::escape::{process_escape_sequence, process_octal};
use c_lexer::text::chars_of;

fn decode(rest: &str) -> Result<(String, usize), LexErrorKind> {
    let source = chars_of(rest);
    let mut text = String::from("<");
    let end = process_escape_sequence(&mut text, &source, 0)?;
    Ok((text, end))
}

#[test]
fn one_letter_escapes() {
    assert_eq!(decode("a"), Ok(("<\u{7}".to_string(), 1)));
    assert_eq!(decode("b"), Ok(("<\u{8}".to_string(), 1)));
    assert_eq!(decode("f"), Ok(("<\u{c}".to_string(), 1)));
    assert_eq!(decode("n"), Ok(("<\n".to_string(), 1)));
    assert_eq!(decode("r"), Ok(("<\r".to_string(), 1)));
    assert_eq!(decode("t"), Ok(("<\t".to_string(), 1)));
    assert_eq!(decode("v"), Ok(("<\u{b}".to_string(), 1)));
    assert_eq!(decode("\\"), Ok(("<\\".to_string(), 1)));
    assert_eq!(decode("'"), Ok(("<'".to_string(), 1)));
    assert_eq!(decode("\""), Ok(("<\"".to_string(), 1)));
    assert_eq!(decode("nn"), Ok(("<\n".to_string(), 1)));
}

#[test]
fn hex_and_octal_agree() {
    assert_eq!(decode("x41"), Ok(("<A".to_string(), 3)));
    assert_eq!(decode("101"), Ok(("<A".to_string(), 3)));
}

#[test]
fn hex_escapes_take_up_to_two_digits() {
    assert_eq!(decode("x4"), Ok(("<\u{4}".to_string(), 2)));
    assert_eq!(decode("x4g"), Ok(("<\u{4}".to_string(), 2)));
    assert_eq!(decode("x414"), Ok(("<A".to_string(), 3)));
    assert_eq!(decode("xfF"), Ok(("<\u{ff}".to_string(), 3)));
    assert_eq!(decode("x00"), Ok(("<\0".to_string(), 3)));
    assert_eq!(decode("x"), Err(LexErrorKind::EmptyHexEscape));
    assert_eq!(decode("xg"), Err(LexErrorKind::EmptyHexEscape));
}

#[test]
fn octal_escapes_take_up_to_three_digits() {
    assert_eq!(decode("0"), Ok(("<\0".to_string(), 1)));
    assert_eq!(decode("7"), Ok(("<\u{7}".to_string(), 1)));
    assert_eq!(decode("12"), Ok(("<\n".to_string(), 2)));
    assert_eq!(decode("128"), Ok(("<\n".to_string(), 2)));
    assert_eq!(decode("1011"), Ok(("<A".to_string(), 3)));
    assert_eq!(decode("377"), Ok(("<\u{ff}".to_string(), 3)));
    assert_eq!(decode("400"), Err(LexErrorKind::OctalEscapeOutOfRange));
    assert_eq!(decode("777"), Err(LexErrorKind::OctalEscapeOutOfRange));
    assert_eq!(decode("8"), Err(LexErrorKind::InvalidEscape('8')));
}

#[test]
fn octal_digit_runs() {
    assert_eq!(process_octal(&chars_of("1"), 0), 1);
    assert_eq!(process_octal(&chars_of("12"), 0), 2);
    assert_eq!(process_octal(&chars_of("1234"), 0), 3);
    assert_eq!(process_octal(&chars_of("x1834"), 1), 2);
}

#[test]
fn unicode_escapes() {
    assert_eq!(decode("u{41}"), Ok(("<A".to_string(), 5)));
    assert_eq!(decode("u{e9}x"), Ok(("<\u{e9}".to_string(), 5)));
    assert_eq!(decode("u{1F600}"), Ok(("<\u{1F600}".to_string(), 8)));
    assert_eq!(decode("u{10FFFF}"), Ok(("<\u{10FFFF}".to_string(), 9)));
    assert_eq!(decode("u{0000041}"), Ok(("<A".to_string(), 10)));
    assert_eq!(decode("u{41"), Ok(("<A".to_string(), 4)));
}

#[test]
fn malformed_unicode_escapes() {
    assert_eq!(decode("u"), Err(LexErrorKind::MissingUnicodeBrace));
    assert_eq!(decode("u41"), Err(LexErrorKind::MissingUnicodeBrace));
    assert_eq!(decode("u{}"), Err(LexErrorKind::EmptyUnicodeEscape));
    assert_eq!(decode("u{"), Err(LexErrorKind::EmptyUnicodeEscape));
    assert_eq!(decode("u{g}"), Err(LexErrorKind::InvalidUnicodeDigit('g')));
    assert_eq!(decode("u{12 }"), Err(LexErrorKind::InvalidUnicodeDigit(' ')));
    assert_eq!(decode("u{D800}"), Err(LexErrorKind::InvalidCodepoint));
    assert_eq!(decode("u{DFFF}"), Err(LexErrorKind::InvalidCodepoint));
    assert_eq!(decode("u{110000}"), Err(LexErrorKind::InvalidCodepoint));
    assert_eq!(decode("u{FFFFFFFF}"), Err(LexErrorKind::InvalidCodepoint));
    assert_eq!(decode("u{100000000}"), Err(LexErrorKind::UnicodeEscapeOutOfRange));
}

#[test]
fn surrogate_neighbours_are_valid() {
    assert_eq!(decode("u{D7FF}"), Ok(("<\u{D7FF}".to_string(), 7)));
    assert_eq!(decode("u{E000}"), Ok(("<\u{E000}".to_string(), 7)));
}

#[test]
fn unknown_introducers() {
    assert_eq!(decode("q"), Err(LexErrorKind::InvalidEscape('q')));
    assert_eq!(decode("9"), Err(LexErrorKind::InvalidEscape('9')));
    assert_eq!(decode("X41"), Err(LexErrorKind::InvalidEscape('X')));
    assert_eq!(decode(" "), Err(LexErrorKind::InvalidEscape(' ')));
}

#[test]
fn a_failed_escape_appends_nothing() {
    let source = chars_of("x");
    let mut text = String::from("abc");
    assert!(process_escape_sequence(&mut text, &source, 0).is_err());
    assert_eq!(text, "abc");
}
