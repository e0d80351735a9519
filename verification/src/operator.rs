//! Operators: the longest spelling that matches wins.

use vstd::prelude::*;
use crate::symbols::{
    double_symbol_of, is_operator_spelling, symbol_of, triple_symbol_of, DoubleSymbol,
    TripleSymbol,
};

verus! {

/// The index after the operator that starts at `at`: three code points if
/// they spell an operator, else two if they do, else one.
pub open spec fn operator_end(s: Seq<char>, at: int) -> int {
    if at + 2 < s.len() && triple_symbol_of(s[at], s[at + 1], s[at + 2]) is Some {
        at + 3
    } else if at + 1 < s.len() && double_symbol_of(s[at], s[at + 1]) is Some {
        at + 2
    } else {
        at + 1
    }
}

/// Whether `text` stands in `s` from `at` on.
pub open spec fn occurs_at(s: Seq<char>, at: int, text: Seq<char>) -> bool {
    at + text.len() <= s.len() && s.subrange(at, at + text.len()) == text
}

/// Longest match: where a symbol starts, the operator that is read is the
/// spelling of an operator, and no operator whose spelling stands at the
/// same place is longer.
pub proof fn lemma_longest_match(s: Seq<char>, at: int, other: Seq<char>)
    requires
        0 <= at < s.len(),
        symbol_of(s[at]) is Some,
    ensures
        at < operator_end(s, at) <= s.len(),
        is_operator_spelling(s.subrange(at, operator_end(s, at))),
        is_operator_spelling(other) && occurs_at(s, at, other) ==> other.len() <= operator_end(
            s,
            at,
        ) - at,
{
    let text = s.subrange(at, operator_end(s, at));
    assert(text[0] == s[at]);
    if is_operator_spelling(other) && occurs_at(s, at, other) {
        assert(other[0] == s[at]);
    }
}

/// Finds the end of the operator that starts at `at`.
pub fn scan_operator(source: &Vec<char>, at: usize) -> (end: usize)
    requires
        at < source.len(),
    ensures
        end == operator_end(source@, at as int),
        at < end <= source.len(),
{
    let c = source[at];
    if at + 1 >= source.len() {
        at + 1
    } else if at + 2 < source.len() && TripleSymbol::from_chars(
        c,
        source[at + 1],
        source[at + 2],
    ).is_some() {
        at + 3
    } else if DoubleSymbol::from_chars(c, source[at + 1]).is_some() {
        at + 2
    } else {
        at + 1
    }
}

} // verus!
