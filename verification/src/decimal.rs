//! Decimal rendering of unsigned integers.

use vstd::prelude::*;

verus! {

/// The character that stands for the decimal digit `d`.
pub open spec fn digit_char(d: nat) -> char {
    if d == 0 {
        '0'
    } else if d == 1 {
        '1'
    } else if d == 2 {
        '2'
    } else if d == 3 {
        '3'
    } else if d == 4 {
        '4'
    } else if d == 5 {
        '5'
    } else if d == 6 {
        '6'
    } else if d == 7 {
        '7'
    } else if d == 8 {
        '8'
    } else {
        '9'
    }
}

/// The decimal numeral of `n`: most significant digit first, no sign, no
/// leading zero except for zero itself.
pub open spec fn decimal(n: nat) -> Seq<char>
    decreases n,
{
    if n < 10 {
        seq![digit_char(n)]
    } else {
        decimal(n / 10).push(digit_char(n % 10))
    }
}

/// The one-character string for a single decimal digit.
fn digit_str(d: u64) -> (s: &'static str)
    requires
        d < 10,
    ensures
        s@ == seq![digit_char(d as nat)],
{
    proof {
        reveal_strlit("0");
        reveal_strlit("1");
        reveal_strlit("2");
        reveal_strlit("3");
        reveal_strlit("4");
        reveal_strlit("5");
        reveal_strlit("6");
        reveal_strlit("7");
        reveal_strlit("8");
        reveal_strlit("9");
    }
    let s = if d == 0 {
        "0"
    } else if d == 1 {
        "1"
    } else if d == 2 {
        "2"
    } else if d == 3 {
        "3"
    } else if d == 4 {
        "4"
    } else if d == 5 {
        "5"
    } else if d == 6 {
        "6"
    } else if d == 7 {
        "7"
    } else if d == 8 {
        "8"
    } else {
        "9"
    };
    assert(s@ =~= seq![digit_char(d as nat)]);
    s
}

/// Renders `n` in decimal, as the standard formatting of integers does.
pub fn to_decimal(n: u64) -> (s: String)
    ensures
        s@ == decimal(n as nat),
    decreases n,
{
    if n < 10 {
        digit_str(n).to_owned()
    } else {
        let mut s = to_decimal(n / 10);
        s.append(digit_str(n % 10));
        assert(s@ =~= decimal(n as nat));
        s
    }
}

/// The decimal numeral of a number that may be absent.
pub open spec fn decimal_text(n: Option<nat>) -> Option<Seq<char>> {
    match n {
        Some(n) => Some(decimal(n)),
        None => None,
    }
}

/// A 16-bit number that may be absent, as a natural number.
pub open spec fn u16_number(n: Option<u16>) -> Option<nat> {
    match n {
        Some(n) => Some(n as nat),
        None => None,
    }
}

/// A word-sized number that may be absent, as a natural number.
pub open spec fn usize_number(n: Option<usize>) -> Option<nat> {
    match n {
        Some(n) => Some(n as nat),
        None => None,
    }
}

/// Renders a 16-bit number in decimal, if there is one.
pub fn u16_text(n: Option<u16>) -> (text: Option<String>)
    ensures
        text.deep_view() == decimal_text(u16_number(n)),
{
    match n {
        Some(n) => Some(to_decimal(n as u64)),
        None => None,
    }
}

/// Renders a word-sized number in decimal, if there is one.
pub fn usize_text(n: Option<usize>) -> (text: Option<String>)
    ensures
        text.deep_view() == decimal_text(usize_number(n)),
{
    match n {
        Some(n) => Some(to_decimal(n as u64)),
        None => None,
    }
}

} // verus!
