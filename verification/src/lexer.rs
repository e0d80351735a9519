//! The tokenizer: one pass over the text, one decision per code point at
//! which a token, white space or a line marker starts.

use vstd::prelude::*;
use crate::chars::{
    is_digit_char, is_ident_start, is_ident_start_char, is_whitespace, is_whitespace_char,
    lemma_run_end, run_end, scan_run, CharClass, CharExt,
};
use crate::directive::{lemma_marker_bounds, marker, scan_marker};
use crate::error::{Failure, LexError, LexErrorKind};
use crate::keywords::{keyword_of, Keyword};
use crate::literals::{
    char_literal, lemma_char_literal_bounds, lemma_string_tail_bounds, scan_char_literal,
    scan_string_literal, string_literal,
};
use crate::number_literal::{
    lemma_number_literal_bounds, number_literal, scan_number, starts_number,
};
use crate::operator::{operator_end, scan_operator};
use crate::symbols::{is_symbol, symbol_of};
use crate::text::{chars_of, string_of_range};
use crate::token::{Lexeme, Token, TokenKind, TokenStream, TokenType};

verus! {

/// What starts at a code point.
#[derive(Clone, Copy, Debug, PartialEq, Eq, Structural)]
pub enum TokenClass {
    /// An identifier or a reserved word.
    Identifier,
    /// A numeric literal.
    Number,
    /// White space.
    Whitespace,
    /// A character literal.
    CharLiteral,
    /// A string literal.
    StringLiteral,
    /// An operator or punctuation mark.
    Operator,
    /// A line marker.
    Directive,
    /// Nothing that the tokenizer knows.
    Unknown,
}

/// Where the tokenizer stands.
#[derive(Clone, Debug, PartialEq, Eq)]
pub struct LexerState {
    /// The index of the next code point to read.
    pub pos: usize,
    /// The line that this code point is on.
    pub line: usize,
    /// The file that the text is from, as the last line marker named it.
    pub filename: String,
    /// Whether this is the start of a line: nothing but line markers was
    /// read since the last line feed, or since the start of the text.
    pub start_of_line: bool,
}

/// The mathematical value of a `LexerState`.
pub struct State {
    pub pos: int,
    pub line: int,
    pub file: Seq<char>,
    pub start_of_line: bool,
}

impl View for LexerState {
    type V = State;

    open spec fn view(&self) -> State {
        State {
            pos: self.pos as int,
            line: self.line as int,
            file: self.filename@,
            start_of_line: self.start_of_line,
        }
    }
}

/// What one step of the tokenizer does.
pub enum Step {
    /// A token was read.
    Emit(Lexeme, State),
    /// White space or a line marker was passed over.
    Skip(State),
    /// The text is wrong here.
    Fail(Failure),
}

/// Where the tokenizer starts: at the first code point, on line 1 of a
/// file without a name, at the start of a line.
pub open spec fn initial_state() -> State {
    State { pos: 0, line: 1, file: Seq::empty(), start_of_line: true }
}

/// What starts at `at`, decided in this order: an identifier or reserved
/// word, a number, white space, a character literal, a string literal, an
/// operator, a line marker; anything else is unknown.
pub open spec fn classify(s: Seq<char>, at: int, start_of_line: bool) -> TokenClass {
    let c = s[at];
    if is_ident_start(c) {
        TokenClass::Identifier
    } else if starts_number(s, at) {
        TokenClass::Number
    } else if is_whitespace(c) {
        TokenClass::Whitespace
    } else if c == '\'' {
        TokenClass::CharLiteral
    } else if c == '"' {
        TokenClass::StringLiteral
    } else if symbol_of(c) is Some {
        TokenClass::Operator
    } else if c == '#' && start_of_line {
        TokenClass::Directive
    } else {
        TokenClass::Unknown
    }
}

/// The index after the identifier or reserved word that starts at `at`.
pub open spec fn identifier_end(s: Seq<char>, at: int) -> int {
    run_end(s, at + 1, CharClass::IdentContinue)
}

/// The class of the word `text`: reserved or not.
pub open spec fn word_kind(text: Seq<char>) -> TokenKind {
    if keyword_of(text) is Some {
        TokenKind::Keyword
    } else {
        TokenKind::Identifier
    }
}

/// The token with the given class and text that was read from `st` up to
/// `end`.
pub open spec fn emit(st: State, kind: TokenKind, text: Seq<char>, end: int) -> Step {
    Step::Emit(
        Lexeme { kind, text, line: st.line },
        State { pos: end, line: st.line, file: st.file, start_of_line: false },
    )
}

/// Failure of the given kind at `st`.
pub open spec fn fail(st: State, kind: LexErrorKind) -> Step {
    Step::Fail(Failure { kind, line: st.line, file: st.file })
}

/// The outcome of reading a literal at `st`.
pub open spec fn emit_literal(st: State, read: Result<(Seq<char>, int), LexErrorKind>) -> Step {
    match read {
        Ok((text, end)) => emit(st, TokenKind::Literal, text, end),
        Err(kind) => fail(st, kind),
    }
}

/// One step over white space at `st`: a line feed starts the next line,
/// any other white space ends the start of the line.
pub open spec fn skip_whitespace(s: Seq<char>, st: State) -> Step {
    if s[st.pos] != '\n' {
        Step::Skip(State { pos: st.pos + 1, line: st.line, file: st.file, start_of_line: false })
    } else if st.line + 1 > usize::MAX {
        fail(st, LexErrorKind::LineCounterOverflow)
    } else {
        Step::Skip(
            State { pos: st.pos + 1, line: st.line + 1, file: st.file, start_of_line: true },
        )
    }
}

/// One step over the line marker at `st`: the line counter and the file
/// name become what the marker says, and reading goes on at the end of
/// the marker's line.
pub open spec fn skip_marker(s: Seq<char>, st: State) -> Step {
    let m = marker(s, st.pos);
    Step::Skip(
        State {
            pos: m.end,
            line: match m.line {
                Some(n) => n,
                None => st.line,
            },
            file: match m.file {
                Some(name) => name,
                None => st.file,
            },
            start_of_line: st.start_of_line,
        },
    )
}

/// One step of the tokenizer from `st`, which stands inside the text.
pub open spec fn step(s: Seq<char>, st: State) -> Step {
    match classify(s, st.pos, st.start_of_line) {
        TokenClass::Identifier => {
            let text = s.subrange(st.pos, identifier_end(s, st.pos));
            emit(st, word_kind(text), text, identifier_end(s, st.pos))
        },
        TokenClass::Number => emit_literal(st, number_literal(s, st.pos)),
        TokenClass::Whitespace => skip_whitespace(s, st),
        TokenClass::CharLiteral => emit_literal(st, char_literal(s, st.pos)),
        TokenClass::StringLiteral => emit_literal(st, string_literal(s, st.pos)),
        TokenClass::Operator => emit(
            st,
            TokenKind::Operator,
            s.subrange(st.pos, operator_end(s, st.pos)),
            operator_end(s, st.pos),
        ),
        TokenClass::Directive => skip_marker(s, st),
        TokenClass::Unknown => fail(st, LexErrorKind::UnknownCharacter(s[st.pos])),
    }
}

/// What the tokenizer makes of a text.
pub struct Outcome {
    /// The tokens that were emitted, in order.
    pub tokens: Seq<Lexeme>,
    /// The error that stopped the tokenizer, if one did.
    pub failure: Option<Failure>,
    /// Where the tokenizer stood in the end.
    pub end: State,
}

/// The outcome of tokenizing `s` from `st` on: step by step to the end of
/// the text, or to the first failure.
pub open spec fn lex_from(s: Seq<char>, st: State) -> Outcome
    decreases s.len() - st.pos,
    via lex_from_terminates
{
    if st.pos < 0 || st.pos >= s.len() {
        Outcome { tokens: Seq::empty(), failure: None, end: st }
    } else {
        match step(s, st) {
            Step::Emit(lexeme, next) => {
                let rest = lex_from(s, next);
                Outcome { tokens: seq![lexeme] + rest.tokens, failure: rest.failure, end: rest.end }
            },
            Step::Skip(next) => lex_from(s, next),
            Step::Fail(failure) => Outcome {
                tokens: Seq::empty(),
                failure: Some(failure),
                end: st,
            },
        }
    }
}

/// Each step moves on, so the steps come to an end.
#[via_fn]
proof fn lex_from_terminates(s: Seq<char>, st: State) {
    if 0 <= st.pos < s.len() {
        lemma_step_advances(s, st);
    }
}

/// The outcome of tokenizing the text `s`.
pub open spec fn lex(s: Seq<char>) -> Outcome {
    lex_from(s, initial_state())
}

/// Every step that does not fail moves on by at least one code point and
/// stays within the text.
pub proof fn lemma_step_advances(s: Seq<char>, st: State)
    requires
        0 <= st.pos < s.len(),
    ensures
        step(s, st) matches Step::Emit(_, next) ==> st.pos < next.pos <= s.len(),
        step(s, st) matches Step::Skip(next) ==> st.pos < next.pos <= s.len(),
{
    lemma_run_end(s, st.pos + 1, CharClass::IdentContinue);
    lemma_number_literal_bounds(s, st.pos);
    lemma_char_literal_bounds(s, st.pos);
    lemma_string_tail_bounds(s, st.pos + 1, Seq::empty());
    lemma_marker_bounds(s, st.pos);
}

impl LexerState {
    /// The state in which the tokenizer starts.
    pub fn new() -> (state: LexerState)
        ensures
            state@ == initial_state(),
    {
        LexerState { pos: 0, line: 1, filename: String::new(), start_of_line: true }
    }

    /// The error of the given kind at this state.
    pub fn error(&self, kind: LexErrorKind) -> (e: LexError)
        ensures
            e@ == (Failure { kind, line: self@.line, file: self@.file }),
    {
        LexError { kind, line: self.line, file: self.filename.clone() }
    }
}

/// Decides what starts at `at`.
pub fn dispatch(source: &Vec<char>, at: usize, start_of_line: bool) -> (class: TokenClass)
    requires
        at < source.len(),
    ensures
        class == classify(source@, at as int, start_of_line),
{
    let c = source[at];
    if is_ident_start_char(c) {
        TokenClass::Identifier
    } else if is_digit_char(c) || (c == '.' && at + 1 < source.len() && is_digit_char(
        source[at + 1],
    )) {
        TokenClass::Number
    } else if is_whitespace_char(c) {
        TokenClass::Whitespace
    } else if c.is_char_literal() {
        TokenClass::CharLiteral
    } else if c.is_string_literal() {
        TokenClass::StringLiteral
    } else if is_symbol(c) {
        TokenClass::Operator
    } else if c == '#' && start_of_line {
        TokenClass::Directive
    } else {
        TokenClass::Unknown
    }
}

/// Makes one step from `state`, which stands inside the text: reads one
/// token, or passes over white space or a line marker, or fails. Gives the
/// token, if one was read; it began on the line of the state before the
/// step.
pub fn lexer_step(source: &Vec<char>, state: &mut LexerState) -> (r: Result<
    Option<TokenType>,
    LexError,
>)
    requires
        old(state).pos < source.len(),
    ensures
        match step(source@, old(state)@) {
            Step::Emit(lexeme, next) => {
                &&& r matches Ok(Some(t))
                &&& t.kind() == lexeme.kind
                &&& t.text() == lexeme.text
                &&& final(state)@ == next
                &&& old(state).pos < final(state).pos <= source.len()
            },
            Step::Skip(next) => {
                &&& r matches Ok(None)
                &&& final(state)@ == next
                &&& old(state).pos < final(state).pos <= source.len()
            },
            Step::Fail(failure) => {
                &&& r matches Err(e)
                &&& e@ == failure
                &&& final(state)@ == old(state)@
            },
        },
{
    proof {
        lemma_step_advances(source@, state@);
    }
    let at = state.pos;
    match dispatch(source, at, state.start_of_line) {
        TokenClass::Identifier => {
            let end = scan_run(source, at + 1, CharClass::IdentContinue);
            let text = string_of_range(source, at, end);
            let token = match Keyword::from_str(text.as_str()) {
                Ok(_) => TokenType::Keyword(text),
                Err(_) => TokenType::Identifier(text),
            };
            state.pos = end;
            state.start_of_line = false;
            Ok(Some(token))
        },
        TokenClass::Number => {
            match scan_number(source, at) {
                Ok((text, end)) => {
                    state.pos = end;
                    state.start_of_line = false;
                    Ok(Some(TokenType::Literal(text)))
                },
                Err(kind) => Err(state.error(kind)),
            }
        },
        TokenClass::Whitespace => {
            if source[at] != '\n' {
                state.pos = at + 1;
                state.start_of_line = false;
                Ok(None)
            } else if state.line == usize::MAX {
                Err(state.error(LexErrorKind::LineCounterOverflow))
            } else {
                state.pos = at + 1;
                state.line = state.line + 1;
                state.start_of_line = true;
                Ok(None)
            }
        },
        TokenClass::CharLiteral => {
            match scan_char_literal(source, at) {
                Ok((text, end)) => {
                    state.pos = end;
                    state.start_of_line = false;
                    Ok(Some(TokenType::Literal(text)))
                },
                Err(kind) => Err(state.error(kind)),
            }
        },
        TokenClass::StringLiteral => {
            match scan_string_literal(source, at) {
                Ok((text, end)) => {
                    state.pos = end;
                    state.start_of_line = false;
                    Ok(Some(TokenType::Literal(text)))
                },
                Err(kind) => Err(state.error(kind)),
            }
        },
        TokenClass::Operator => {
            let end = scan_operator(source, at);
            let text = string_of_range(source, at, end);
            state.pos = end;
            state.start_of_line = false;
            Ok(Some(TokenType::Operator(text)))
        },
        TokenClass::Directive => {
            let (line, file, end) = scan_marker(source, at);
            state.pos = end;
            match line {
                Some(n) => {
                    state.line = n;
                },
                None => {},
            }
            match file {
                Some(name) => {
                    state.filename = name;
                },
                None => {},
            }
            Ok(None)
        },
        TokenClass::Unknown => Err(state.error(LexErrorKind::UnknownCharacter(source[at]))),
    }
}

/// Tokenizes `source` from `state` on, and appends the tokens to `stream`
/// in the order in which they are read. Stops at the end of the text, or
/// at the first error: then the error is returned, the tokens read before
/// it are in the stream, and `state` is where the error was met.
pub fn run_lexer(stream: &mut TokenStream, source: &Vec<char>, state: &mut LexerState) -> (r:
    Result<(), LexError>)
    requires
        old(stream).wf(),
    ensures
        final(stream).wf(),
        final(stream).lexemes() == old(stream).lexemes() + lex_from(source@, old(state)@).tokens,
        final(state)@ == lex_from(source@, old(state)@).end,
        match r {
            Ok(_) => lex_from(source@, old(state)@).failure is None,
            Err(e) => lex_from(source@, old(state)@).failure == Some(e@),
        },
{
    let mut cursor = stream.tail();
    let ghost whole = lex_from(source@, state@);
    while state.pos < source.len()
        invariant
            stream.wf(),
            cursor == stream.cursor(),
            whole == lex_from(source@, old(state)@),
            old(stream).lexemes() + whole.tokens == stream.lexemes() + lex_from(
                source@,
                state@,
            ).tokens,
            whole.failure == lex_from(source@, state@).failure,
            whole.end == lex_from(source@, state@).end,
        decreases source.len() - state.pos,
    {
        let line = state.line;
        match lexer_step(source, state) {
            Ok(Some(token)) => {
                cursor = Token::set(stream, cursor, token, line);
            },
            Ok(None) => {},
            Err(e) => {
                return Err(e);
            },
        }
    }
    Ok(())
}

/// Tokenizes `source` from its start and appends the tokens to `stream`
/// in the order in which they are read. On an error the tokens read before
/// it are in the stream, and the error is returned with the file and the
/// line at which it was met.
pub fn lexer_start(stream: &mut TokenStream, source: &str) -> (r: Result<(), LexError>)
    requires
        old(stream).wf(),
    ensures
        final(stream).wf(),
        final(stream).lexemes() == old(stream).lexemes() + lex(source@).tokens,
        match r {
            Ok(_) => lex(source@).failure is None,
            Err(e) => lex(source@).failure == Some(e@),
        },
{
    let chars = chars_of(source);
    let mut state = LexerState::new();
    run_lexer(stream, &chars, &mut state)
}

} // verus!
