//! Choosing the tokens whose texts go into a listing.

use vstd::prelude::*;
use crate::token::{Token, TokenKind};

verus! {

/// The number that stands for a class in a listing's filter.
pub open spec fn kind_id(kind: TokenKind) -> u8 {
    match kind {
        TokenKind::Keyword => 1,
        TokenKind::Operator => 2,
        TokenKind::Literal => 3,
        TokenKind::Identifier => 4,
    }
}

/// Whether the filter `print_type` lets the token through: 0 lets every
/// token through that has been set, any other number those of the class
/// with that number.
pub open spec fn is_listed(t: Token, print_type: u8) -> bool {
    t.is_set() && (print_type == 0 || print_type == kind_id(t.token_type->0.kind()))
}

/// The texts of the listing: those of the tokens that the filter lets
/// through, the last token first, and no more than `room` of them if the
/// listing is `limited`.
pub open spec fn listing(tokens: Seq<Token>, print_type: u8, limited: bool, room: int) -> Seq<
    Seq<char>,
>
    decreases tokens.len(),
{
    if tokens.len() == 0 || (limited && room <= 0) {
        Seq::empty()
    } else if is_listed(tokens.last(), print_type) {
        seq![tokens.last().token_type->0.text()] + listing(
            tokens.drop_last(),
            print_type,
            limited,
            room - 1,
        )
    } else {
        listing(tokens.drop_last(), print_type, limited, room)
    }
}

/// The texts of a sequence of strings.
pub open spec fn texts_of(strings: Seq<String>) -> Seq<Seq<char>> {
    Seq::new(strings.len(), |i: int| strings[i]@)
}

/// The number that stands for `kind` in a listing's filter.
pub fn kind_number(kind: TokenKind) -> (n: u8)
    ensures
        n == kind_id(kind),
{
    match kind {
        TokenKind::Keyword => 1,
        TokenKind::Operator => 2,
        TokenKind::Literal => 3,
        TokenKind::Identifier => 4,
    }
}

/// The texts to list: those of the tokens of the class numbered
/// `print_type`, or of all classes if that is 0, from the last token to
/// the first; at most `max_to_print` of them, or all if that is 0.
pub fn tokens_to_print(tokens: &Vec<Token>, print_type: u8, max_to_print: usize) -> (lines: Vec<
    String,
>)
    ensures
        texts_of(lines@) == listing(tokens@, print_type, max_to_print != 0, max_to_print as int),
{
    let mut lines: Vec<String> = Vec::new();
    let mut i: usize = tokens.len();
    let ghost whole = listing(tokens@, print_type, max_to_print != 0, max_to_print as int);
    assert(tokens@.take(tokens.len() as int) =~= tokens@);
    while i > 0 && (max_to_print == 0 || lines.len() < max_to_print)
        invariant
            i <= tokens.len(),
            max_to_print != 0 ==> lines.len() <= max_to_print,
            whole == listing(tokens@, print_type, max_to_print != 0, max_to_print as int),
            whole == texts_of(lines@) + listing(
                tokens@.take(i as int),
                print_type,
                max_to_print != 0,
                max_to_print - lines.len(),
            ),
        decreases i,
    {
        assert(tokens@.take(i as int).drop_last() =~= tokens@.take(i - 1));
        i = i - 1;
        let token = &tokens[i];
        match &token.token_type {
            Some(kind) => {
                if print_type == 0 || print_type == kind_number(kind.token_kind()) {
                    let text = kind.value().to_string();
                    lines.push(text);
                }
            },
            None => {},
        }
    }
    lines
}

} // verus!
