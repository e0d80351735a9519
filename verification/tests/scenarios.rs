use c_lexer::error::{LexError, LexErrorKind};
use c_lexer::lexer::lexer_start;
use c_lexer::token::{TokenStream, TokenType};

fn lex(source: &str) -> Result<Vec<(TokenType, usize)>, LexError> {
    let mut stream = TokenStream::new();
    lexer_start(&mut stream, source)?;
    let mut out = Vec::new();
    for token in stream.tokens.iter() {
        if let Some(kind) = &token.token_type {
            out.push((kind.clone(), token.line));
        }
    }
    Ok(out)
}

fn literal(text: &str) -> TokenType {
    TokenType::Literal(text.to_string())
}

#[test]
fn hex_literal_is_converted_to_decimal() {
    assert_eq!(lex("0x1A").unwrap(), vec![(literal("26"), 1)]);
}

#[test]
fn octal_literal_is_converted_to_decimal() {
    assert_eq!(lex("017").unwrap(), vec![(literal("15"), 1)]);
}

#[test]
fn exponent_form_is_kept_verbatim() {
    assert_eq!(lex("3.14e-2").unwrap(), vec![(literal("3.14e-2"), 1)]);
}

#[test]
fn shift_assign_is_one_operator() {
    assert_eq!(lex("<<=").unwrap(), vec![(TokenType::Operator("<<=".to_string()), 1)]);
}

#[test]
fn adjacent_strings_are_joined() {
    assert_eq!(lex("\"ab\" \"cd\"").unwrap(), vec![(literal("abcd"), 1)]);
}

#[test]
fn unterminated_string_is_an_error() {
    let e = lex("\"abc").unwrap_err();
    assert_eq!(e.kind, LexErrorKind::UnterminatedStringLiteral);
    let e = lex("\"abc\nd\"").unwrap_err();
    assert_eq!(e.kind, LexErrorKind::UnterminatedStringLiteral);
}

#[test]
fn escapes_decode_to_their_characters() {
    assert_eq!(lex("\"\\n\\t\\x41\\101\"").unwrap(), vec![(literal("\n\tAA"), 1)]);
}

#[test]
fn line_marker_sets_line_and_file() {
    let tokens = lex("# 100 \"foo.c\"\nint").unwrap();
    assert_eq!(tokens, vec![(TokenType::Keyword("int".to_string()), 101)]);
    let e = lex("# 100 \"dir/foo.c\"\n@").unwrap_err();
    assert_eq!(e.line, 101);
    assert_eq!(e.file, "foo.c");
    assert_eq!(e.kind, LexErrorKind::UnknownCharacter('@'));
}
