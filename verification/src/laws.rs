//! What holds of the tokenizer as a whole.

use vstd::prelude::*;
use crate::chars::{in_class, is_whitespace, lemma_run_end_is, CharClass};
use crate::error::LexErrorKind;
use crate::keywords::{
    is_identifier, keyword_of, lemma_keyword_of_spelling, lemma_spelling_is_identifier, Keyword,
};
use crate::lexer::{
    emit, fail, identifier_end, initial_state, lemma_step_advances, lex, lex_from, step,
    word_kind, State, Step,
};
use crate::literals::{adjacent_string_start, string_literal, string_tail};
use crate::token::{Lexeme, TokenKind, TokenStream};

verus! {

/// A word in its place: where a stretch of the text has the shape of an
/// identifier and is followed by the end of the text or by a code point
/// that cannot go on an identifier, one step reads exactly that stretch,
/// as a reserved word if it spells one and as an identifier if not.
pub proof fn lemma_word_step(s: Seq<char>, st: State, end: int)
    requires
        0 <= st.pos < end <= s.len(),
        is_identifier(s.subrange(st.pos, end)),
        end < s.len() ==> !in_class(s[end], CharClass::IdentContinue),
    ensures
        step(s, st) == emit(
            st,
            word_kind(s.subrange(st.pos, end)),
            s.subrange(st.pos, end),
            end,
        ),
{
    let word = s.subrange(st.pos, end);
    assert(word[0] == s[st.pos]);
    assert forall|k: int| st.pos + 1 <= k < end implies in_class(
        #[trigger] s[k],
        CharClass::IdentContinue,
    ) by {
        assert(word[k - st.pos] == s[k]);
    }
    lemma_run_end_is(s, st.pos + 1, end, CharClass::IdentContinue);
    assert(identifier_end(s, st.pos) == end);
}

/// A text that is one word gives one token, on line 1, whose text is the
/// whole word.
proof fn lemma_one_word(text: Seq<char>)
    requires
        is_identifier(text),
    ensures
        lex(text).tokens == seq![Lexeme { kind: word_kind(text), text, line: 1 }],
        lex(text).failure is None,
{
    let st = initial_state();
    let end = text.len() as int;
    assert(text.subrange(0, end) =~= text);
    lemma_word_step(text, st, end);
    let next = State { pos: end, line: 1, file: Seq::empty(), start_of_line: false };
    assert(lex_from(text, next).tokens =~= Seq::<Lexeme>::empty());
    let lexeme = Lexeme { kind: word_kind(text), text, line: 1 };
    assert(seq![lexeme] + Seq::<Lexeme>::empty() =~= seq![lexeme]);
}

/// Every text that has the shape of an identifier and is no reserved word
/// is read as one token, an identifier, whose text is the whole input.
pub proof fn lemma_identifier_token(text: Seq<char>)
    requires
        is_identifier(text),
        keyword_of(text) is None,
    ensures
        lex(text).tokens == seq![Lexeme { kind: TokenKind::Identifier, text, line: 1 }],
        lex(text).failure is None,
{
    lemma_one_word(text);
}

/// Every reserved word is read as one token, a keyword, whose text is the
/// word's spelling.
pub proof fn lemma_keyword_token(k: Keyword)
    ensures
        lex(k.spelling()).tokens == seq![
            Lexeme { kind: TokenKind::Keyword, text: k.spelling(), line: 1 },
        ],
        lex(k.spelling()).failure is None,
{
    lemma_spelling_is_identifier(k);
    lemma_keyword_of_spelling(k);
    lemma_one_word(k.spelling());
}

/// Whether `c` stands for itself inside a string literal: any code point
/// but `"`, `\` and the line feed.
pub open spec fn is_plain_in_string(c: char) -> bool {
    c != '"' && c != '\\' && c != '\n'
}

/// A stretch of plain code points inside a string literal is taken into
/// the text as it stands.
proof fn lemma_plain_string_tail(s: Seq<char>, at: int, end: int, text: Seq<char>)
    requires
        0 <= at <= end <= s.len(),
        forall|k: int| at <= k < end ==> is_plain_in_string(#[trigger] s[k]),
    ensures
        string_tail(s, at, text) == string_tail(s, end, text + s.subrange(at, end)),
    decreases end - at,
{
    if at == end {
        assert(text + s.subrange(at, end) =~= text);
    } else {
        assert(is_plain_in_string(s[at]));
        lemma_plain_string_tail(s, at + 1, end, text.push(s[at]));
        assert(text.push(s[at]) + s.subrange(at + 1, end) =~= text + s.subrange(at, end));
    }
}

/// A string literal of plain code points that is not closed before its
/// line or the text ends is an error, and no token: where a `"` is
/// followed by plain code points up to a line feed or the end of the text,
/// the step fails with an unterminated string literal.
pub proof fn lemma_unterminated_string(s: Seq<char>, st: State, end: int)
    requires
        0 <= st.pos < end <= s.len(),
        s[st.pos] == '"',
        forall|k: int| st.pos < k < end ==> is_plain_in_string(#[trigger] s[k]),
        end == s.len() || s[end] == '\n',
    ensures
        step(s, st) == fail(st, LexErrorKind::UnterminatedStringLiteral),
{
    lemma_plain_string_tail(s, st.pos + 1, end, Seq::empty());
}

/// Two string literals of plain code points with nothing but white space
/// between them are one token, whose text is the two texts in a row.
/// The first literal runs from `st.pos` to its closing quote at `close`,
/// the second from `open` to its closing quote at `end`, and no third
/// literal follows.
pub proof fn lemma_adjacent_strings(s: Seq<char>, st: State, close: int, open: int, end: int)
    requires
        0 <= st.pos < close < open < end < s.len(),
        s[st.pos] == '"',
        forall|k: int| st.pos < k < close ==> is_plain_in_string(#[trigger] s[k]),
        s[close] == '"',
        forall|k: int| close < k < open ==> is_whitespace(#[trigger] s[k]),
        s[open] == '"',
        forall|k: int| open < k < end ==> is_plain_in_string(#[trigger] s[k]),
        s[end] == '"',
        adjacent_string_start(s, end) is None,
    ensures
        step(s, st) == emit(
            st,
            TokenKind::Literal,
            s.subrange(st.pos + 1, close) + s.subrange(open + 1, end),
            end + 1,
        ),
{
    let first = s.subrange(st.pos + 1, close);
    let second = s.subrange(open + 1, end);
    lemma_plain_string_tail(s, st.pos + 1, close, Seq::empty());
    assert(Seq::<char>::empty() + first =~= first);
    assert forall|k: int| close + 1 <= k < open implies in_class(
        #[trigger] s[k],
        CharClass::Whitespace,
    ) by {
        assert(is_whitespace(s[k]));
    }
    lemma_run_end_is(s, close + 1, open, CharClass::Whitespace);
    assert(adjacent_string_start(s, close) == Some(open + 1));
    assert(string_tail(s, close, first) == string_tail(s, open + 1, first));
    lemma_plain_string_tail(s, open + 1, end, first);
    assert(string_literal(s, st.pos) == Ok::<(Seq<char>, int), LexErrorKind>(
        (first + second, end + 1),
    ));
}

/// Tokens come in the order of their lines: in a text without `#`, and so
/// without line markers, no token is on an earlier line than the place
/// from which the text is read, nor than a token before it.
pub proof fn lemma_lines_in_order(s: Seq<char>, st: State)
    requires
        0 <= st.pos,
        forall|k: int| 0 <= k < s.len() ==> #[trigger] s[k] != '#',
    ensures
        lex_from(s, st).end.line >= st.line,
        forall|i: int|
            0 <= i < lex_from(s, st).tokens.len() ==> (#[trigger] lex_from(s, st).tokens[i]).line
                >= st.line,
        forall|i: int, j: int|
            0 <= i <= j < lex_from(s, st).tokens.len() ==> (#[trigger] lex_from(
                s,
                st,
            ).tokens[i]).line <= (#[trigger] lex_from(s, st).tokens[j]).line,
    decreases s.len() - st.pos,
{
    if st.pos < s.len() {
        lemma_step_advances(s, st);
        assert(s[st.pos] != '#');
        match step(s, st) {
            Step::Emit(lexeme, next) => {
                lemma_lines_in_order(s, next);
                let rest = lex_from(s, next).tokens;
                let all = lex_from(s, st).tokens;
                assert(all == seq![lexeme] + rest);
                assert forall|i: int| 0 <= i < all.len() implies (#[trigger] all[i]).line
                    >= st.line by {
                    if i > 0 {
                        assert(all[i] == rest[i - 1]);
                    }
                }
                assert forall|i: int, j: int| 0 <= i <= j < all.len() implies (
                #[trigger] all[i]).line <= (#[trigger] all[j]).line by {
                    if i > 0 {
                        assert(all[i] == rest[i - 1]);
                        assert(all[j] == rest[j - 1]);
                    } else if j > 0 {
                        assert(all[j] == rest[j - 1]);
                    }
                }
            },
            Step::Skip(next) => {
                lemma_lines_in_order(s, next);
            },
            Step::Fail(_) => {},
        }
    }
}

/// Reading the same text twice gives the same chain twice: two chains
/// that hold the tokens of one text have the same number of places, and
/// at each place tokens of the same class, text, line and neighbours.
pub proof fn lemma_relex_identical(text: Seq<char>, first: TokenStream, second: TokenStream)
    requires
        first.wf(),
        second.wf(),
        first.lexemes() == lex(text).tokens,
        second.lexemes() == lex(text).tokens,
    ensures
        first.tokens.len() == second.tokens.len(),
        forall|i: int|
            0 <= i < first.tokens.len() ==> {
                &&& (#[trigger] first.tokens[i]).is_set() == second.tokens[i].is_set()
                &&& first.tokens[i].is_set() ==> first.tokens[i].lexeme()
                    == second.tokens[i].lexeme()
                &&& first.tokens[i].next == second.tokens[i].next
                &&& first.tokens[i].prev == second.tokens[i].prev
            },
{
    assert(first.lexemes().len() == second.lexemes().len());
    assert(first.is_empty() <==> first.lexemes().len() == 0);
    assert(second.is_empty() <==> second.lexemes().len() == 0);
    assert(first.tokens.len() == second.tokens.len());
    assert forall|i: int| 0 <= i < first.tokens.len() implies {
        &&& (#[trigger] first.tokens[i]).is_set() == second.tokens[i].is_set()
        &&& first.tokens[i].is_set() ==> first.tokens[i].lexeme() == second.tokens[i].lexeme()
        &&& first.tokens[i].next == second.tokens[i].next
        &&& first.tokens[i].prev == second.tokens[i].prev
    } by {
        if first.tokens[i].is_set() {
            assert(first.lexemes()[i] == first.tokens[i].lexeme());
            assert(second.lexemes()[i] == second.tokens[i].lexeme());
        }
    }
}

} // verus!
