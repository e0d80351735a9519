//! Conversions between strings and sequences of code points.

use vstd::prelude::*;

verus! {

/// `String::push` appends one code point to the string.
pub assume_specification[ String::push ](s: &mut String, c: char)
    ensures
        final(s)@ == old(s)@.push(c),
;

/// The code points of a string, in order.
pub fn chars_of(s: &str) -> (v: Vec<char>)
    ensures
        v@ == s@,
{
    let mut v: Vec<char> = Vec::new();
    for c in it: s.chars()
        invariant
            it.seq() == s@,
            v@ == it.seq().take(it.index()),
    {
        v.push(c);
    }
    v
}

/// The string made of the code points of `source` from `from` up to `to`.
pub fn string_of_range(source: &Vec<char>, from: usize, to: usize) -> (s: String)
    requires
        from <= to <= source.len(),
    ensures
        s@ == source@.subrange(from as int, to as int),
{
    let mut s = String::new();
    let mut i: usize = from;
    while i < to
        invariant
            from <= i <= to <= source.len(),
            s@ == source@.subrange(from as int, i as int),
        decreases to - i,
    {
        s.push(source[i]);
        i = i + 1;
    }
    s
}

/// Whether two sequences of code points are the same.
pub fn chars_equal(a: &Vec<char>, b: &Vec<char>) -> (r: bool)
    ensures
        r == (a@ == b@),
{
    if a.len() != b.len() {
        return false;
    }
    let mut i: usize = 0;
    while i < a.len()
        invariant
            i <= a.len(),
            a.len() == b.len(),
            forall|k: int| 0 <= k < i ==> a@[k] == b@[k],
        decreases a.len() - i,
    {
        if a[i] != b[i] {
            return false;
        }
        i = i + 1;
    }
    assert(a@ =~= b@);
    true
}

/// Whether `text` holds the code points of `word`.
pub fn chars_match(text: &Vec<char>, word: &str) -> (r: bool)
    ensures
        r == (text@ == word@),
{
    let mut i: usize = 0;
    for c in it: word.chars()
        invariant
            it.seq() == word@,
            i == it.index(),
            i <= text.len(),
            forall|k: int| 0 <= k < i ==> text@[k] == word@[k],
    {
        if i >= text.len() || text[i] != c {
            return false;
        }
        i = i + 1;
    }
    if i == text.len() {
        assert(text@ =~= word@);
        true
    } else {
        false
    }
}

/// Whether two strings hold the same code points.
pub fn str_equal(a: &str, b: &str) -> (r: bool)
    ensures
        r == (a@ == b@),
{
    let x = chars_of(a);
    let y = chars_of(b);
    chars_equal(&x, &y)
}

} // verus!
