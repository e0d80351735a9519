//! The first steps of a parser over the tokens: it walks the tokens and
//! passes over each run of tokens that can stand in an expression.

use vstd::prelude::*;
use crate::text::str_equal;
use crate::token::{Token, TokenKind, TokenType};

verus! {

/// Where the parser stands in the tokens.
#[derive(Debug)]
pub struct ParserState<'a> {
    pub tokens: &'a Vec<Token>,
    pub iterator: usize,
}

/// Why the parser stopped.
#[derive(Clone, Copy, Debug, PartialEq, Eq, Structural)]
pub enum ParseError {
    /// An expression ran on to the end of the tokens.
    UnexpectedEnd,
}

/// Whether an expression starts with this token: a literal or an operator.
pub open spec fn starts_expression(t: Token) -> bool {
    t.is_set() && (t.token_type->0.kind() == TokenKind::Literal || t.token_type->0.kind()
        == TokenKind::Operator)
}

/// Whether this token can stand in an expression: a literal, an operator,
/// or any token with the text `(`.
pub open spec fn in_expression(t: Token) -> bool {
    t.is_set() && (starts_expression(t) || t.token_type->0.text() == "("@)
}

/// The end of the run of expression tokens that starts at `at`.
pub open spec fn expression_end(tokens: Seq<Token>, at: int) -> int
    decreases tokens.len() - at,
{
    if 0 <= at < tokens.len() && in_expression(tokens[at]) {
        expression_end(tokens, at + 1)
    } else {
        at
    }
}

/// Whether an expression starts somewhere from `from` up to `to`.
pub open spec fn has_expression(tokens: Seq<Token>, from: int, to: int) -> bool {
    exists|i: int| from <= i < to && starts_expression(#[trigger] tokens[i])
}

/// Where the parser stands after walking the tokens from `at`: at the end
/// of the tokens.
pub open spec fn walk_end(tokens: Seq<Token>, at: int) -> int {
    if at <= tokens.len() {
        tokens.len() as int
    } else {
        at
    }
}

/// Whether walking the tokens from `at` fails: an expression starts
/// somewhere, and the run of expression tokens at `at` goes on to the end.
pub open spec fn walk_fails(tokens: Seq<Token>, at: int) -> bool {
    has_expression(tokens, at, tokens.len() as int) && expression_end(tokens, at) >= tokens.len()
}

/// A run of expression tokens ends at or after its start, within the
/// tokens, on a token that cannot stand in an expression; and from its
/// end no further run starts.
pub proof fn lemma_expression_end(tokens: Seq<Token>, at: int)
    requires
        0 <= at,
    ensures
        at <= expression_end(tokens, at),
        at <= tokens.len() ==> expression_end(tokens, at) <= tokens.len(),
        expression_end(tokens, at) < tokens.len() ==> !in_expression(
            tokens[expression_end(tokens, at)],
        ),
        expression_end(tokens, expression_end(tokens, at)) == expression_end(tokens, at),
    decreases tokens.len() - at,
{
    if at < tokens.len() && in_expression(tokens[at]) {
        lemma_expression_end(tokens, at + 1);
    }
}

/// Whether an expression starts with `t`.
fn token_starts_expression(t: &Token) -> (b: bool)
    ensures
        b == starts_expression(*t),
{
    match &t.token_type {
        Some(TokenType::Literal(_)) => true,
        Some(TokenType::Operator(_)) => true,
        _ => false,
    }
}

/// Whether `t` can stand in an expression.
fn token_in_expression(t: &Token) -> (b: bool)
    ensures
        b == in_expression(*t),
{
    match &t.token_type {
        Some(kind) => token_starts_expression(t) || str_equal(kind.value(), "("),
        None => false,
    }
}

/// Passes over the run of expression tokens at which the parser stands.
/// Fails if the run goes on to the end of the tokens.
pub fn process_expression(parser_state: &mut ParserState) -> (r: Result<(), ParseError>)
    ensures
        final(parser_state).tokens == old(parser_state).tokens,
        final(parser_state).iterator == expression_end(
            old(parser_state).tokens@,
            old(parser_state).iterator as int,
        ),
        r is Ok <==> final(parser_state).iterator < old(parser_state).tokens.len(),
        r is Err ==> r == Err::<(), ParseError>(ParseError::UnexpectedEnd),
{
    let tokens = parser_state.tokens;
    let mut i = parser_state.iterator;
    while i < tokens.len() && token_in_expression(&tokens[i])
        invariant
            tokens == old(parser_state).tokens,
            old(parser_state).iterator <= i,
            expression_end(tokens@, old(parser_state).iterator as int) == expression_end(
                tokens@,
                i as int,
            ),
        decreases tokens.len() - i,
    {
        i = i + 1;
    }
    parser_state.iterator = i;
    if i < tokens.len() {
        Ok(())
    } else {
        Err(ParseError::UnexpectedEnd)
    }
}

/// Walks the tokens from where the parser stands to their end. At each
/// token with which an expression starts, passes over the run of
/// expression tokens at which the parser then stands.
pub fn process_switch(parser_state: &mut ParserState) -> (r: Result<(), ParseError>)
    ensures
        final(parser_state).tokens == old(parser_state).tokens,
        r is Ok <==> !walk_fails(old(parser_state).tokens@, old(parser_state).iterator as int),
        r is Ok ==> final(parser_state).iterator == walk_end(
            old(parser_state).tokens@,
            old(parser_state).iterator as int,
        ),
        r is Err ==> r == Err::<(), ParseError>(ParseError::UnexpectedEnd),
        r is Err ==> final(parser_state).iterator == old(parser_state).tokens.len(),
{
    let tokens = parser_state.tokens;
    let start = parser_state.iterator;
    let mut i = start;
    while i < tokens.len()
        invariant
            parser_state.tokens == tokens,
            tokens == old(parser_state).tokens,
            start == old(parser_state).iterator,
            start <= i,
            i <= tokens.len() || i == start,
            has_expression(tokens@, start as int, i as int) ==> parser_state.iterator
                == expression_end(tokens@, start as int) && parser_state.iterator < tokens.len(),
            !has_expression(tokens@, start as int, i as int) ==> parser_state.iterator == start,
        decreases tokens.len() - i,
    {
        proof {
            lemma_expression_end(tokens@, start as int);
        }
        if token_starts_expression(&tokens[i]) {
            process_expression(parser_state)?;
        }
        i = i + 1;
    }
    proof {
        lemma_expression_end(tokens@, start as int);
    }
    parser_state.iterator = i;
    Ok(())
}

/// Walks all the tokens. Fails if an expression runs on to their end.
pub fn parser_start(tokens: &Vec<Token>) -> (r: Result<(), ParseError>)
    ensures
        r is Ok <==> !walk_fails(tokens@, 0),
        r is Err ==> r == Err::<(), ParseError>(ParseError::UnexpectedEnd),
{
    let mut parser_state = ParserState { tokens, iterator: 0 };
    process_switch(&mut parser_state)
}

} // verus!
