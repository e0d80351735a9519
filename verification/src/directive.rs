//! Line markers: `# <line> "<file>" <flags>`, left in the text by the
//! preprocessor.

use vstd::prelude::*;
use crate::chars::{lemma_run_end, run_end, scan_run, CharClass};
use crate::numbers::{lemma_radix_value_nonnegative, parse_radix, radix_value};
use crate::text::string_of_range;

verus! {

/// What a line marker says.
pub struct Marker {
    /// The line number, if the marker gives one.
    pub line: Option<int>,
    /// The file name, if the marker gives one.
    pub file: Option<Seq<char>>,
    /// Where the marker's line ends: the index of its line break, or the
    /// length of the text.
    pub end: int,
}

/// The number that a run of decimal digits gives the line counter: its
/// value, or zero when that is more than the counter can hold.
pub open spec fn line_number(digits: Seq<char>) -> int {
    if radix_value(digits, 10) <= usize::MAX {
        radix_value(digits, 10)
    } else {
        0
    }
}

/// Where the last segment of a path starts: after its last `/`, or at its
/// start if it has none.
pub open spec fn last_segment_start(path: Seq<char>) -> int
    decreases path.len(),
{
    if path.len() == 0 {
        0
    } else if path.last() == '/' {
        path.len() as int
    } else {
        last_segment_start(path.drop_last())
    }
}

/// The last segment of a path: what follows its last `/`.
pub open spec fn last_segment(path: Seq<char>) -> Seq<char> {
    path.subrange(last_segment_start(path), path.len() as int)
}

/// Where the line number of the marker at `at` starts: after the `#` and
/// the blanks behind it.
pub open spec fn marker_digits_start(s: Seq<char>, at: int) -> int {
    run_end(s, at + 1, CharClass::Blank)
}

/// Where the line number of the marker at `at` ends.
pub open spec fn marker_digits_end(s: Seq<char>, at: int) -> int {
    run_end(s, marker_digits_start(s, at), CharClass::Digit)
}

/// Where the file name of the marker at `at` would open: after the line
/// number and the blanks behind it.
pub open spec fn marker_quote(s: Seq<char>, at: int) -> int {
    run_end(s, marker_digits_end(s, at), CharClass::Blank)
}

/// Whether the marker at `at` gives a file name.
pub open spec fn marker_has_file(s: Seq<char>, at: int) -> bool {
    marker_quote(s, at) < s.len() && s[marker_quote(s, at)] == '"'
}

/// Where the quoted name of the marker at `at` ends: at its closing quote,
/// or at the end of the line if it is not closed.
pub open spec fn marker_name_end(s: Seq<char>, at: int) -> int {
    run_end(s, marker_quote(s, at) + 1, CharClass::InQuotedName)
}

/// The line marker whose `#` is at `at`.
///
/// After the `#` and blanks, a run of decimal digits is the line number.
/// After more blanks, a `"` opens the file name, of which the last path
/// segment counts. Both are optional. Whatever follows on the line is
/// passed over.
pub open spec fn marker(s: Seq<char>, at: int) -> Marker {
    let digits = marker_digits_start(s, at);
    let digits_end = marker_digits_end(s, at);
    let quote = marker_quote(s, at);
    let name_end = marker_name_end(s, at);
    Marker {
        line: if digits_end > digits {
            Some(line_number(s.subrange(digits, digits_end)))
        } else {
            None
        },
        file: if marker_has_file(s, at) {
            Some(last_segment(s.subrange(quote + 1, name_end)))
        } else {
            None
        },
        end: if marker_has_file(s, at) {
            run_end(s, name_end, CharClass::InLine)
        } else {
            run_end(s, quote, CharClass::InLine)
        },
    }
}

/// A marker ends after its `#` and within the text, and its line number
/// fits the line counter.
pub proof fn lemma_marker_bounds(s: Seq<char>, at: int)
    requires
        0 <= at < s.len(),
    ensures
        at < marker(s, at).end <= s.len(),
        marker(s, at).line matches Some(n) ==> 0 <= n <= usize::MAX,
{
    let digits = marker_digits_start(s, at);
    lemma_run_end(s, at + 1, CharClass::Blank);
    lemma_run_end(s, digits, CharClass::Digit);
    let digits_end = marker_digits_end(s, at);
    lemma_run_end(s, digits_end, CharClass::Blank);
    let quote = marker_quote(s, at);
    lemma_run_end(s, quote, CharClass::InLine);
    if marker_has_file(s, at) {
        lemma_run_end(s, quote + 1, CharClass::InQuotedName);
        lemma_run_end(s, marker_name_end(s, at), CharClass::InLine);
    }
    if digits_end > digits {
        let d = s.subrange(digits, digits_end);
        lemma_radix_value_nonnegative(d, 10);
    }
}

/// Finds where the last segment of the path from `from` up to `to` starts.
fn find_last_segment(source: &Vec<char>, from: usize, to: usize) -> (start: usize)
    requires
        from <= to <= source.len(),
    ensures
        start == from + last_segment_start(source@.subrange(from as int, to as int)),
        from <= start <= to,
{
    let mut i: usize = to;
    let ghost path = source@.subrange(from as int, to as int);
    assert(path.take(path.len() as int) =~= path);
    while i > from && source[i - 1] != '/'
        invariant
            from <= i <= to <= source.len(),
            path == source@.subrange(from as int, to as int),
            last_segment_start(path) == last_segment_start(path.take(i - from)),
        decreases i,
    {
        assert(path.take(i - from).drop_last() =~= path.take(i - from - 1));
        i = i - 1;
    }
    i
}

/// Reads the line marker whose `#` is at `at`. Gives the line number and
/// the file name, as far as the marker has them, and the index at which
/// its line ends.
pub fn scan_marker(source: &Vec<char>, at: usize) -> (r: (Option<usize>, Option<String>, usize))
    requires
        at < source.len(),
    ensures
        match marker(source@, at as int).line {
            Some(n) => r.0 == Some(n as usize) && 0 <= n <= usize::MAX,
            None => r.0 is None,
        },
        match marker(source@, at as int).file {
            Some(name) => r.1 is Some && r.1->0@ == name,
            None => r.1 is None,
        },
        r.2 == marker(source@, at as int).end,
        at < r.2 <= source.len(),
{
    proof {
        lemma_marker_bounds(source@, at as int);
    }
    let digits = scan_run(source, at + 1, CharClass::Blank);
    let digits_end = scan_run(source, digits, CharClass::Digit);
    let line = if digits_end > digits {
        proof {
            lemma_run_end(source@, digits as int, CharClass::Digit);
        }
        match parse_radix(source, digits, digits_end, 10, usize::MAX as u64) {
            Some(n) => Some(n as usize),
            None => Some(0),
        }
    } else {
        None
    };
    let quote = scan_run(source, digits_end, CharClass::Blank);
    if quote < source.len() && source[quote] == '"' {
        let name_end = scan_run(source, quote + 1, CharClass::InQuotedName);
        let start = find_last_segment(source, quote + 1, name_end);
        let name = string_of_range(source, start, name_end);
        let end = scan_run(source, name_end, CharClass::InLine);
        (line, Some(name), end)
    } else {
        let end = scan_run(source, quote, CharClass::InLine);
        (line, None, end)
    }
}

} // verus!
