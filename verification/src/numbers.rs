//! Digit strings and the numbers they stand for.

use vstd::prelude::*;
use crate::chars::{is_digit, is_hex_digit, is_octal_digit};

verus! {

/// The value of a hexadecimal digit.
pub open spec fn digit_value(c: char) -> int {
    if is_digit(c) {
        c as int - '0' as int
    } else if 'a' <= c && c <= 'f' {
        c as int - 'a' as int + 10
    } else {
        c as int - 'A' as int + 10
    }
}

/// The number that `digits` stands for in base `radix`, the first digit
/// being the most significant.
pub open spec fn radix_value(digits: Seq<char>, radix: int) -> int
    decreases digits.len(),
{
    if digits.len() == 0 {
        0
    } else {
        radix_value(digits.drop_last(), radix) * radix + digit_value(digits.last())
    }
}

/// The decimal digit for a number below ten.
pub open spec fn digit_char(d: int) -> char {
    ('0' as int + d) as char
}

/// The decimal numeral of `n`, without leading zeros.
pub open spec fn decimal_text(n: nat) -> Seq<char>
    decreases n,
{
    if n < 10 {
        seq![digit_char(n as int)]
    } else {
        decimal_text(n / 10).push(digit_char((n % 10) as int))
    }
}

/// A numeral of hexadecimal digits stands for no negative number.
pub proof fn lemma_radix_value_nonnegative(digits: Seq<char>, radix: int)
    requires
        radix >= 1,
        forall|k: int| 0 <= k < digits.len() ==> is_hex_digit(#[trigger] digits[k]),
    ensures
        radix_value(digits, radix) >= 0,
    decreases digits.len(),
{
    if digits.len() > 0 {
        lemma_radix_value_nonnegative(digits.drop_last(), radix);
        assert(radix_value(digits.drop_last(), radix) * radix >= 0) by (nonlinear_arith)
            requires
                radix_value(digits.drop_last(), radix) >= 0,
                radix >= 1,
        ;
    }
}

/// A numeral is worth at least as much as each of its prefixes.
pub proof fn lemma_radix_value_prefix(digits: Seq<char>, k: int, radix: int)
    requires
        radix >= 1,
        0 <= k <= digits.len(),
        forall|j: int| 0 <= j < digits.len() ==> is_hex_digit(#[trigger] digits[j]),
    ensures
        0 <= radix_value(digits.take(k), radix) <= radix_value(digits, radix),
    decreases digits.len() - k,
{
    lemma_radix_value_nonnegative(digits.take(k), radix);
    if k == digits.len() {
        assert(digits.take(k) =~= digits);
    } else {
        lemma_radix_value_prefix(digits, k + 1, radix);
        let longer = digits.take(k + 1);
        assert(longer.drop_last() =~= digits.take(k));
        let v = radix_value(digits.take(k), radix);
        assert(v * radix >= v) by (nonlinear_arith)
            requires
                v >= 0,
                radix >= 1,
        ;
    }
}

/// The value of the hexadecimal digit `c`.
pub fn digit_value_of(c: char) -> (v: u8)
    requires
        is_hex_digit(c),
    ensures
        v == digit_value(c),
        v < 16,
        is_digit(c) ==> v < 10,
        is_octal_digit(c) ==> v < 8,
{
    let x: u32 = c as u32;
    if c >= '0' && c <= '9' {
        (x - 48) as u8
    } else if c >= 'a' && c <= 'f' {
        (x - 97 + 10) as u8
    } else {
        (x - 65 + 10) as u8
    }
}

/// Reads the digits of `source` from `from` up to `to` as a number in base
/// `radix`. `None` when the number is above `max`.
pub fn parse_radix(source: &Vec<char>, from: usize, to: usize, radix: u8, max: u64) -> (r: Option<
    u64,
>)
    requires
        from <= to <= source.len(),
        1 <= radix <= 16,
        forall|k: int| from <= k < to ==> is_hex_digit(#[trigger] source@[k]),
    ensures
        0 <= radix_value(source@.subrange(from as int, to as int), radix as int),
        match r {
            Some(v) => v == radix_value(source@.subrange(from as int, to as int), radix as int) && v
                <= max,
            None => radix_value(source@.subrange(from as int, to as int), radix as int) > max,
        },
{
    let ghost digits = source@.subrange(from as int, to as int);
    proof {
        lemma_radix_value_nonnegative(digits, radix as int);
    }
    let mut value: u64 = 0;
    let mut i: usize = from;
    while i < to
        invariant
            from <= i <= to <= source.len(),
            1 <= radix <= 16,
            digits == source@.subrange(from as int, to as int),
            forall|k: int| from <= k < to ==> is_hex_digit(#[trigger] source@[k]),
            forall|k: int| 0 <= k < digits.len() ==> is_hex_digit(#[trigger] digits[k]),
            value == radix_value(digits.take(i - from), radix as int),
            value <= max,
        decreases to - i,
    {
        let d = digit_value_of(source[i]);
        let ghost longer = digits.take(i - from + 1);
        proof {
            assert(longer.drop_last() =~= digits.take(i - from));
            lemma_radix_value_prefix(digits, i - from + 1, radix as int);
            assert(value * radix <= 0xffff_ffff_ffff_ffff * 16) by (nonlinear_arith)
                requires
                    0 <= value <= 0xffff_ffff_ffff_ffff,
                    1 <= radix <= 16,
            ;
        }
        let next: u128 = (value as u128) * (radix as u128) + (d as u128);
        if next > max as u128 {
            return None;
        }
        value = next as u64;
        i = i + 1;
    }
    assert(digits.take(to - from) =~= digits);
    Some(value)
}

/// The decimal numeral of `n`.
pub fn decimal_string(n: u64) -> (s: String)
    ensures
        s@ == decimal_text(n as nat),
{
    let mut reversed: Vec<char> = Vec::new();
    let mut rest: u64 = n / 10;
    reversed.push((48u8 + (n % 10) as u8) as char);
    while rest > 0
        invariant
            decimal_text(n as nat) == (if rest > 0 {
                decimal_text(rest as nat)
            } else {
                Seq::<char>::empty()
            }) + reversed@.reverse(),
            reversed.len() >= 1,
        decreases rest,
    {
        reversed.push((48u8 + (rest % 10) as u8) as char);
        rest = rest / 10;
    }
    let mut s = String::new();
    let mut i: usize = reversed.len();
    while i > 0
        invariant
            i <= reversed.len(),
            s@ == reversed@.reverse().take(reversed.len() - i),
        decreases i,
    {
        i = i - 1;
        s.push(reversed[i]);
    }
    s
}

} // verus!
