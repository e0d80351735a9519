use c_lexer::error::{LexError, LexErrorKind};
use c_lexer::lexer::{lexer_start, lexer_step, run_lexer, LexerState};
use c_lexer::text::chars_of;
use c_lexer::token::{TokenStream, TokenType};

fn tokens_of(source: &str) -> Result<Vec<(TokenType, usize)>, LexError> {
    let mut stream = TokenStream::new();
    lexer_start(&mut stream, source)?;
    let mut out = Vec::new();
    for token in stream.tokens.iter() {
        if let Some(kind) = &token.token_type {
            out.push((kind.clone(), token.line));
        }
    }
    Ok(out)
}

fn kinds_of(source: &str) -> Vec<TokenType> {
    tokens_of(source).unwrap().into_iter().map(|(t, _)| t).collect()
}

fn error_of(source: &str) -> LexError {
    tokens_of(source).unwrap_err()
}

fn kw(s: &str) -> TokenType {
    TokenType::Keyword(s.to_string())
}

fn op(s: &str) -> TokenType {
    TokenType::Operator(s.to_string())
}

fn lit(s: &str) -> TokenType {
    TokenType::Literal(s.to_string())
}

fn id(s: &str) -> TokenType {
    TokenType::Identifier(s.to_string())
}

#[test]
fn empty_text_gives_no_token() {
    assert_eq!(tokens_of("").unwrap(), vec![]);
    assert_eq!(tokens_of("  \t \n ").unwrap(), vec![]);
}

#[test]
fn identifiers_keep_their_exact_text() {
    assert_eq!(kinds_of("foo"), vec![id("foo")]);
    assert_eq!(kinds_of("_bar9 x"), vec![id("_bar9"), id("x")]);
    assert_eq!(kinds_of("integer"), vec![id("integer")]);
    assert_eq!(kinds_of("Int"), vec![id("Int")]);
}

#[test]
fn reserved_words_are_keywords() {
    assert_eq!(kinds_of("int"), vec![kw("int")]);
    assert_eq!(kinds_of("while _Atomic typeof_unqual"), vec![
        kw("while"),
        kw("_Atomic"),
        kw("typeof_unqual"),
    ]);
}

#[test]
fn a_small_program() {
    let source = "int main(void) {\n    return x1 + 0x10;\n}\n";
    assert_eq!(tokens_of(source).unwrap(), vec![
        (kw("int"), 1),
        (id("main"), 1),
        (op("("), 1),
        (kw("void"), 1),
        (op(")"), 1),
        (op("{"), 1),
        (kw("return"), 2),
        (id("x1"), 2),
        (op("+"), 2),
        (lit("16"), 2),
        (op(";"), 2),
        (op("}"), 3),
    ]);
}

#[test]
fn decimal_literals() {
    assert_eq!(kinds_of("0"), vec![lit("0")]);
    assert_eq!(kinds_of("42"), vec![lit("42")]);
    assert_eq!(kinds_of("089"), vec![lit("089")]);
    assert_eq!(kinds_of(".5"), vec![lit(".5")]);
    assert_eq!(kinds_of("1.5"), vec![lit("1.5")]);
    assert_eq!(kinds_of("1."), vec![lit("1.")]);
    assert_eq!(kinds_of("1e10"), vec![lit("1e10")]);
    assert_eq!(kinds_of("1E+10"), vec![lit("1E+10")]);
    assert_eq!(kinds_of("0e5"), vec![lit("0e5")]);
    assert_eq!(kinds_of("1e5.3"), vec![lit("1e5.3")]);
    assert_eq!(kinds_of("12;"), vec![lit("12"), op(";")]);
    assert_eq!(kinds_of("1+2"), vec![lit("1"), op("+"), lit("2")]);
}

#[test]
fn a_dot_without_a_digit_is_an_operator() {
    assert_eq!(kinds_of("a.b"), vec![id("a"), op("."), id("b")]);
    assert_eq!(kinds_of("."), vec![op(".")]);
}

#[test]
fn octal_literals() {
    assert_eq!(kinds_of("00"), vec![lit("0")]);
    assert_eq!(kinds_of("0777"), vec![lit("511")]);
    assert_eq!(kinds_of("01234"), vec![lit("668")]);
    assert_eq!(kinds_of("037777777777"), vec![lit("4294967295")]);
    assert_eq!(kinds_of("0178"), vec![lit("15"), lit("8")]);
    assert_eq!(error_of("040000000000").kind, LexErrorKind::OctalNumberOutOfRange);
}

#[test]
fn hexadecimal_literals() {
    assert_eq!(kinds_of("0x0"), vec![lit("0")]);
    assert_eq!(kinds_of("0Xff"), vec![lit("255")]);
    assert_eq!(kinds_of("0xFFFFFFFF"), vec![lit("4294967295")]);
    assert_eq!(kinds_of("0x000000000001"), vec![lit("1")]);
    assert_eq!(kinds_of("0x1g"), vec![lit("1"), id("g")]);
    assert_eq!(error_of("0x").kind, LexErrorKind::EmptyHexNumber);
    assert_eq!(error_of("0xg").kind, LexErrorKind::EmptyHexNumber);
    assert_eq!(error_of("0x100000000").kind, LexErrorKind::HexNumberOutOfRange);
}

#[test]
fn number_suffixes() {
    for suffix in ["u", "l", "f", "ul", "lu", "ll", "ull", "llu", "lf", "U", "UL", "uLL", "Lf"] {
        let text = format!("10{}", suffix);
        assert_eq!(kinds_of(&text), vec![lit(&text)]);
        let text = format!("10{} ", suffix);
        assert_eq!(kinds_of(&text), vec![lit(text.trim())]);
    }
    assert_eq!(kinds_of("1.5f;"), vec![lit("1.5f"), op(";")]);
    assert_eq!(kinds_of("10u+1"), vec![lit("10u"), op("+"), lit("1")]);
    assert_eq!(kinds_of("10u.5"), vec![lit("10u"), lit(".5")]);
    for wrong in ["10uu", "10fl", "10lul", "10x", "10ua", "10u1", "10lll", "10abc", "10ulll"] {
        assert_eq!(error_of(wrong).kind, LexErrorKind::InvalidNumberSuffix, "{}", wrong);
    }
}

#[test]
fn malformed_numbers() {
    assert_eq!(error_of("1.2.3").kind, LexErrorKind::MultipleDecimalPoints);
    assert_eq!(error_of(".5.").kind, LexErrorKind::MultipleDecimalPoints);
    assert_eq!(error_of("1e").kind, LexErrorKind::InvalidExponent);
    assert_eq!(error_of("1e+").kind, LexErrorKind::InvalidExponent);
    assert_eq!(error_of("1e+x").kind, LexErrorKind::InvalidExponent);
    assert_eq!(error_of("1ee5").kind, LexErrorKind::InvalidExponent);
}

#[test]
fn operators_take_the_longest_match() {
    assert_eq!(kinds_of("<<="), vec![op("<<=")]);
    assert_eq!(kinds_of(">>="), vec![op(">>=")]);
    assert_eq!(kinds_of("<<"), vec![op("<<")]);
    assert_eq!(kinds_of("<<<"), vec![op("<<"), op("<")]);
    assert_eq!(kinds_of("<=="), vec![op("<="), op("=")]);
    assert_eq!(kinds_of("a->b"), vec![id("a"), op("->"), id("b")]);
    assert_eq!(kinds_of("i+++j"), vec![id("i"), op("++"), op("+"), id("j")]);
    assert_eq!(kinds_of("x&&y||!z"), vec![
        id("x"),
        op("&&"),
        id("y"),
        op("||"),
        op("!"),
        id("z"),
    ]);
    assert_eq!(kinds_of("=+"), vec![op("="), op("+")]);
    assert_eq!(kinds_of("\\"), vec![op("\\")]);
    assert_eq!(kinds_of("a[1]?b:c,~d"), vec![
        id("a"),
        op("["),
        lit("1"),
        op("]"),
        op("?"),
        id("b"),
        op(":"),
        id("c"),
        op(","),
        op("~"),
        id("d"),
    ]);
}

#[test]
fn every_compound_operator() {
    for text in [
        "&&", "--", "||", "++", "->", ">>", "<<", "<=", ">=", "==", "!=", "+=", "-=", "*=", "/=",
        "%=", "&=", "^=", "|=", "<<=", ">>=",
    ] {
        assert_eq!(kinds_of(text), vec![op(text)]);
    }
}

#[test]
fn character_literals() {
    assert_eq!(kinds_of("'a'"), vec![lit("a")]);
    assert_eq!(kinds_of("'\\n'"), vec![lit("\n")]);
    assert_eq!(kinds_of("'\\''"), vec![lit("'")]);
    assert_eq!(kinds_of("'\\x41'"), vec![lit("A")]);
    assert_eq!(kinds_of("'\\0'"), vec![lit("\0")]);
    assert_eq!(kinds_of("'\"'"), vec![lit("\"")]);
    assert_eq!(kinds_of("'\u{e9}' x"), vec![lit("\u{e9}"), id("x")]);
    assert_eq!(kinds_of("'\n'"), vec![lit("\n")]);
    assert_eq!(kinds_of("'\\u{263A}'"), vec![lit("\u{263A}")]);
}

#[test]
fn malformed_character_literals() {
    assert_eq!(error_of("''").kind, LexErrorKind::EmptyCharLiteral);
    assert_eq!(error_of("'").kind, LexErrorKind::UnterminatedCharLiteral);
    assert_eq!(error_of("'a").kind, LexErrorKind::UnterminatedCharLiteral);
    assert_eq!(error_of("'\\").kind, LexErrorKind::UnterminatedCharLiteral);
    assert_eq!(error_of("'ab").kind, LexErrorKind::UnterminatedCharLiteral);
    assert_eq!(error_of("'ab\nc'").kind, LexErrorKind::UnterminatedCharLiteral);
    assert_eq!(error_of("'ab'").kind, LexErrorKind::CharLiteralTooLong);
    assert_eq!(error_of("'abc' x").kind, LexErrorKind::CharLiteralTooLong);
    assert_eq!(error_of("'\\q'").kind, LexErrorKind::InvalidEscape('q'));
}

#[test]
fn string_literals() {
    assert_eq!(kinds_of("\"\""), vec![lit("")]);
    assert_eq!(kinds_of("\"hello world\""), vec![lit("hello world")]);
    assert_eq!(kinds_of("\"a\\\"b\""), vec![lit("a\"b")]);
    assert_eq!(kinds_of("\"a\\\\\""), vec![lit("a\\")]);
    assert_eq!(kinds_of("\"it's\""), vec![lit("it's")]);
    assert_eq!(kinds_of("\"a\" b"), vec![lit("a"), id("b")]);
    assert_eq!(kinds_of("\"\u{4e2d}\u{6587}\""), vec![lit("\u{4e2d}\u{6587}")]);
}

#[test]
fn adjacent_string_literals_are_one_token() {
    assert_eq!(kinds_of("\"ab\"\"cd\""), vec![lit("abcd")]);
    assert_eq!(kinds_of("\"ab\" \t\n \"cd\"  \"ef\" ;"), vec![lit("abcdef"), op(";")]);
    assert_eq!(kinds_of("\"ab\" x \"cd\""), vec![lit("ab"), id("x"), lit("cd")]);
}

#[test]
fn line_breaks_between_adjacent_strings_are_not_counted() {
    assert_eq!(tokens_of("\"ab\"\n\"cd\"\nx").unwrap(), vec![(lit("abcd"), 1), (id("x"), 2)]);
}

#[test]
fn escaped_line_breaks_in_strings_are_dropped() {
    assert_eq!(kinds_of("\"ab\\\ncd\""), vec![lit("abcd")]);
    assert_eq!(kinds_of("\"ab\\\r\ncd\""), vec![lit("abcd")]);
    assert_eq!(kinds_of("\"ab\\\rcd\""), vec![lit("abcd")]);
}

#[test]
fn malformed_string_literals() {
    assert_eq!(error_of("\"abc").kind, LexErrorKind::UnterminatedStringLiteral);
    assert_eq!(error_of("\"abc\n\"").kind, LexErrorKind::UnterminatedStringLiteral);
    assert_eq!(error_of("\"abc\\").kind, LexErrorKind::UnmatchedEscape);
    assert_eq!(error_of("\"ab\" \"cd").kind, LexErrorKind::UnterminatedStringLiteral);
    assert_eq!(error_of("\"\\q\"").kind, LexErrorKind::InvalidEscape('q'));
    assert_eq!(error_of("\"\\x\"").kind, LexErrorKind::EmptyHexEscape);
}

#[test]
fn lines_are_counted_from_one() {
    assert_eq!(tokens_of("a\nb\n\nc d\r\ne").unwrap(), vec![
        (id("a"), 1),
        (id("b"), 2),
        (id("c"), 4),
        (id("d"), 4),
        (id("e"), 5),
    ]);
}

#[test]
fn unicode_white_space_separates_tokens() {
    assert_eq!(kinds_of("a\u{a0}b\u{2003}c\u{3000}d\u{85}e"), vec![
        id("a"),
        id("b"),
        id("c"),
        id("d"),
        id("e"),
    ]);
}

#[test]
fn unknown_characters_are_errors() {
    let e = error_of("a\n  @");
    assert_eq!(e.kind, LexErrorKind::UnknownCharacter('@'));
    assert_eq!(e.line, 2);
    assert_eq!(e.file, "");
    assert_eq!(error_of("$").kind, LexErrorKind::UnknownCharacter('$'));
    assert_eq!(error_of("`").kind, LexErrorKind::UnknownCharacter('`'));
    assert_eq!(error_of("\u{e9}").kind, LexErrorKind::UnknownCharacter('\u{e9}'));
    assert_eq!(error_of("\u{663}").kind, LexErrorKind::UnknownCharacter('\u{663}'));
}

#[test]
fn a_hash_inside_a_line_is_unknown() {
    assert_eq!(error_of("a # 1").kind, LexErrorKind::UnknownCharacter('#'));
    assert_eq!(error_of(" # 1").kind, LexErrorKind::UnknownCharacter('#'));
    assert_eq!(error_of("\n\t# 1").kind, LexErrorKind::UnknownCharacter('#'));
}

#[test]
fn line_markers_emit_no_token() {
    assert_eq!(tokens_of("# 1 \"a.c\"").unwrap(), vec![]);
    assert_eq!(tokens_of("# 1 \"a.c\"\n").unwrap(), vec![]);
    assert_eq!(tokens_of("#").unwrap(), vec![]);
}

#[test]
fn line_markers_reset_the_line_counter() {
    assert_eq!(tokens_of("# 100 \"foo.c\"\nx").unwrap(), vec![(id("x"), 101)]);
    assert_eq!(tokens_of("a\n# 7\nb\nc").unwrap(), vec![(id("a"), 1), (id("b"), 8), (id("c"), 9)]);
    assert_eq!(tokens_of("# 5\n# 2\nb").unwrap(), vec![(id("b"), 3)]);
    assert_eq!(tokens_of("#7\nb").unwrap(), vec![(id("b"), 8)]);
}

#[test]
fn line_marker_flags_are_ignored() {
    assert_eq!(tokens_of("# 100 \"foo.c\" 1 3 4\nx").unwrap(), vec![(id("x"), 101)]);
    assert_eq!(tokens_of("# 100 2\nx").unwrap(), vec![(id("x"), 101)]);
}

#[test]
fn line_markers_without_a_number_keep_the_line() {
    assert_eq!(tokens_of("a\n# \"b.c\"\nc").unwrap(), vec![(id("a"), 1), (id("c"), 3)]);
    assert_eq!(tokens_of("a\n#pragma once 9\nc").unwrap(), vec![(id("a"), 1), (id("c"), 3)]);
}

#[test]
fn a_line_number_too_large_counts_as_zero() {
    assert_eq!(tokens_of("# 99999999999999999999999999\nx").unwrap(), vec![(id("x"), 1)]);
}

#[test]
fn line_markers_name_the_file() {
    let e = error_of("# 3 \"/usr/include/stdio.h\" 1 3\n\n@");
    assert_eq!(e.file, "stdio.h");
    assert_eq!(e.line, 5);
    assert_eq!(error_of("# 3 \"main.c\"\n@").file, "main.c");
    assert_eq!(error_of("# 3 \"dir/\"\n@").file, "");
    assert_eq!(error_of("# 3 \"a/b/c\n@").file, "c");
    assert_eq!(error_of("# 1 \"a.c\"\n# 2\n@").file, "a.c");
    assert_eq!(error_of("# 1 \"a.c\"\n# 1 \"b.c\"\n@").file, "b.c");
}

#[test]
fn the_line_counter_does_not_wrap() {
    let source = format!("# {}\n\nx", usize::MAX - 1);
    let e = error_of(&source);
    assert_eq!(e.kind, LexErrorKind::LineCounterOverflow);
    assert_eq!(e.line, usize::MAX);
    let source = format!("# {}\nx", usize::MAX - 1);
    assert_eq!(tokens_of(&source).unwrap(), vec![(id("x"), usize::MAX)]);
}

#[test]
fn tokens_before_an_error_stay_in_the_chain() {
    let mut stream = TokenStream::new();
    let e = lexer_start(&mut stream, "int x = @;").unwrap_err();
    assert_eq!(e.kind, LexErrorKind::UnknownCharacter('@'));
    let texts: Vec<&str> = stream.tokens.iter().filter_map(|t| t.get_string()).collect();
    assert_eq!(texts, vec!["int", "x", "="]);
}

#[test]
fn a_second_text_is_appended_to_the_chain() {
    let mut stream = TokenStream::new();
    lexer_start(&mut stream, "a b").unwrap();
    lexer_start(&mut stream, "c").unwrap();
    let texts: Vec<&str> = stream.tokens.iter().filter_map(|t| t.get_string()).collect();
    assert_eq!(texts, vec!["a", "b", "c"]);
}

#[test]
fn relexing_gives_the_same_chain() {
    let source = "# 3 \"a.c\"\nint f(int a) { return a << 2; } \"s\" 'c' 0x7f 1.5e3f";
    let mut first = TokenStream::new();
    let mut second = TokenStream::new();
    lexer_start(&mut first, source).unwrap();
    lexer_start(&mut second, source).unwrap();
    assert_eq!(first, second);
    assert_eq!(first.tokens.len(), 17);
}

#[test]
fn stepping_through_a_text() {
    let source = chars_of("ab 12\n# 9 \"f.c\"\n+");
    let mut state = LexerState::new();
    assert_eq!((state.pos, state.line, state.start_of_line), (0, 1, true));
    assert_eq!(lexer_step(&source, &mut state), Ok(Some(id("ab"))));
    assert_eq!((state.pos, state.line, state.start_of_line), (2, 1, false));
    assert_eq!(lexer_step(&source, &mut state), Ok(None));
    assert_eq!((state.pos, state.line, state.start_of_line), (3, 1, false));
    assert_eq!(lexer_step(&source, &mut state), Ok(Some(lit("12"))));
    assert_eq!(lexer_step(&source, &mut state), Ok(None));
    assert_eq!((state.pos, state.line, state.start_of_line), (6, 2, true));
    assert_eq!(lexer_step(&source, &mut state), Ok(None));
    assert_eq!((state.pos, state.line, state.start_of_line), (15, 9, true));
    assert_eq!(state.filename, "f.c");
    assert_eq!(lexer_step(&source, &mut state), Ok(None));
    assert_eq!((state.pos, state.line, state.start_of_line), (16, 10, true));
    assert_eq!(lexer_step(&source, &mut state), Ok(Some(op("+"))));
    assert_eq!(state.pos, source.len());
}

#[test]
fn a_failed_step_leaves_the_state() {
    let source = chars_of("  1.2.3");
    let mut state = LexerState { pos: 2, line: 4, filename: "x.c".to_string(), start_of_line: false };
    let before = state.clone();
    let e = lexer_step(&source, &mut state).unwrap_err();
    assert_eq!(e, LexError {
        kind: LexErrorKind::MultipleDecimalPoints,
        line: 4,
        file: "x.c".to_string(),
    });
    assert_eq!(state, before);
}

#[test]
fn running_from_a_state_ends_in_the_final_state() {
    let source = chars_of("# 100 \"foo.c\"\nint");
    let mut stream = TokenStream::new();
    let mut state = LexerState::new();
    run_lexer(&mut stream, &source, &mut state).unwrap();
    assert_eq!(state.line, 101);
    assert_eq!(state.filename, "foo.c");
    assert_eq!(state.pos, source.len());
    assert!(!state.start_of_line);
    assert_eq!(stream.tokens[0].line, 101);
    assert_eq!(stream.tokens[0].token_type, Some(kw("int")));
}

#[test]
fn error_messages_name_file_and_line() {
    assert_eq!(error_of("# 12 \"dir/foo.c\"\n0x").message(), "foo.c, 13: Invalid hex number");
    assert_eq!(error_of("@").message(), ", 1: Unknown character: @");
    assert_eq!(error_of("\"\\u{12g}\"").message(), ", 1: Invalid character 'g' in unicode escape");
    assert_eq!(error_of("'\\z'").message(), ", 1: Invalid escape sequence: \\z");
    assert_eq!(error_of("\"a").message(), ", 1: Unterminated string literal");
}
