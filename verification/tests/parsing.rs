use c_lexer::lexer::lexer_start;
use c_lexer::parser::{parser_start, process_expression, process_switch, ParseError, ParserState};
use c_lexer::syntax::{BaseType, Class, Declaration, Type};
use c_lexer::token::{Token, TokenStream, TokenType};

fn tokens_of(source: &str) -> Vec<Token> {
    let mut stream = TokenStream::new();
    lexer_start(&mut stream, source).unwrap();
    stream.tokens
}

#[test]
fn tokens_without_an_expression_are_walked() {
    assert_eq!(parser_start(&tokens_of("")), Ok(()));
    assert_eq!(parser_start(&tokens_of("int x")), Ok(()));
    assert_eq!(parser_start(&Vec::new()), Ok(()));
}

#[test]
fn an_expression_must_end_before_the_tokens_do() {
    assert_eq!(parser_start(&tokens_of("1 + 2 x")), Ok(()));
    assert_eq!(parser_start(&tokens_of("( 1 ) return")), Ok(()));
    assert_eq!(parser_start(&tokens_of("1 + 2")), Err(ParseError::UnexpectedEnd));
    assert_eq!(parser_start(&tokens_of("1")), Err(ParseError::UnexpectedEnd));
    assert_eq!(parser_start(&tokens_of(";")), Err(ParseError::UnexpectedEnd));
}

#[test]
fn only_the_run_at_the_start_is_passed_over() {
    assert_eq!(parser_start(&tokens_of("x = 1")), Ok(()));
    assert_eq!(parser_start(&tokens_of("int x = 1 ;")), Ok(()));
}

#[test]
fn passing_over_one_expression() {
    let tokens = tokens_of("1 + ( 2 ) x 3");
    let mut state = ParserState { tokens: &tokens, iterator: 0 };
    assert_eq!(process_expression(&mut state), Ok(()));
    assert_eq!(state.iterator, 5);
    assert_eq!(process_expression(&mut state), Ok(()));
    assert_eq!(state.iterator, 5);
    state.iterator = 6;
    assert_eq!(process_expression(&mut state), Err(ParseError::UnexpectedEnd));
    assert_eq!(state.iterator, 7);
    state.iterator = 9;
    assert_eq!(process_expression(&mut state), Err(ParseError::UnexpectedEnd));
    assert_eq!(state.iterator, 9);
}

#[test]
fn walking_ends_at_the_end_of_the_tokens() {
    let tokens = tokens_of("1 + 2 x y");
    let mut state = ParserState { tokens: &tokens, iterator: 0 };
    assert_eq!(process_switch(&mut state), Ok(()));
    assert_eq!(state.iterator, 5);
    let mut state = ParserState { tokens: &tokens, iterator: 4 };
    assert_eq!(process_switch(&mut state), Ok(()));
    assert_eq!(state.iterator, 5);
    let mut state = ParserState { tokens: &tokens, iterator: 8 };
    assert_eq!(process_switch(&mut state), Ok(()));
    assert_eq!(state.iterator, 8);
    let tokens = tokens_of("x 1 +");
    let mut state = ParserState { tokens: &tokens, iterator: 1 };
    assert_eq!(process_switch(&mut state), Err(ParseError::UnexpectedEnd));
    assert_eq!(state.iterator, 3);
}

#[test]
fn a_bracket_of_any_class_goes_on_an_expression() {
    let tokens = vec![
        Token::new(TokenType::Identifier("(".to_string()), 1),
        Token::new(TokenType::Literal("1".to_string()), 1),
        Token::new(TokenType::Identifier("x".to_string()), 1),
    ];
    let mut state = ParserState { tokens: &tokens, iterator: 0 };
    assert_eq!(process_expression(&mut state), Ok(()));
    assert_eq!(state.iterator, 2);
}

#[test]
fn declarations_written_out() {
    let d = Declaration {
        class: Class::Variable,
        name: "x".to_string(),
        type_info: Type::Primitive { ttype: BaseType::Int },
        initializer: Some("1".to_string()),
    };
    assert_eq!(d.to_text(), "Class: \"variable\", Name: \"x\", Type: \"int\" = 1");
    let d = Declaration {
        class: Class::Function,
        name: "f".to_string(),
        type_info: Type::Function {
            return_type: "void".to_string(),
            parameters: vec!["int".to_string(), "char".to_string(), "T".to_string()],
        },
        initializer: None,
    };
    assert_eq!(d.to_text(), "Class: \"function\", Name: \"f\", Type: \"void(int, char, T)\"");
    let d = Declaration {
        class: Class::Typedef,
        name: "T".to_string(),
        type_info: Type::Primitive { ttype: BaseType::Other("size_t".to_string()) },
        initializer: None,
    };
    assert_eq!(d.to_text(), "Class: \"typedef\", Name: \"T\", Type: \"size_t\"");
}

#[test]
fn types_written_out() {
    assert_eq!(BaseType::Int.to_text(), "int");
    assert_eq!(BaseType::Float.to_text(), "float");
    assert_eq!(BaseType::Char.to_text(), "char");
    assert_eq!(BaseType::Void.to_text(), "void");
    assert_eq!(BaseType::Other("T".to_string()).to_text(), "T");
    assert_eq!(Class::Typedef.to_text(), "typedef");
    assert_eq!(Class::Variable.to_text(), "variable");
    assert_eq!(Class::Function.to_text(), "function");
    let f = Type::Function { return_type: "int".to_string(), parameters: vec![] };
    assert_eq!(f.to_text(), "int()");
    let f = Type::Function { return_type: "int".to_string(), parameters: vec!["a".to_string()] };
    assert_eq!(f.to_text(), "int(a)");
}
