//! Small verified string helpers shared by the rest of the crate.
//!
//! Every text value is specified through its view, the sequence of its `char`s.

use vstd::prelude::*;
use vstd::string::StringExecFns;

verus! {

/// The text that remains when every line feed is taken out of `text`.
pub open spec fn without_line_feeds(text: Seq<char>) -> Seq<char> {
    text.filter(|c: char| c != '\n')
}

/// Removes every line feed from `text`, keeping all other characters in order.
pub fn strip_line_feeds(text: &str) -> (out: String)
    ensures
        out@ == without_line_feeds(text@),
{
    let mut out = String::new();
    proof {
        reveal(Seq::filter);
    }
    for c in it: text.chars()
        invariant
            it.seq() == text@,
            out@ == without_line_feeds(text@.take(it.index() as int)),
    {
        proof {
            reveal(Seq::filter);
            let i = it.index() as int;
            assert(text@.take(i + 1).drop_last() == text@.take(i));
        }
        if c != '\n' {
            out.push(c);
        }
    }
    proof {
        assert(text@.take(text@.len() as int) == text@);
    }
    out
}

/// Whether `wanted` occurs anywhere in `text`.
pub fn has_char(text: &str, wanted: char) -> (found: bool)
    ensures
        found == text@.contains(wanted),
{
    let mut found = false;
    for c in it: text.chars()
        invariant
            it.seq() == text@,
            found == text@.take(it.index() as int).contains(wanted),
    {
        proof {
            // The next prefix is this prefix followed by `c`.
            let i = it.index() as int;
            let before = text@.take(i);
            let after = text@.take(i + 1);
            assert(after[i] == c);
            assert(forall|k: int| 0 <= k < i ==> before[k] == after[k]);
        }
        if c == wanted {
            found = true;
        }
    }
    proof {
        assert(text@.take(text@.len() as int) == text@);
    }
    found
}

/// The character that writes the decimal digit `d`.
pub open spec fn digit(d: nat) -> char {
    if d == 0 {
        '0'
    } else if d == 1 {
        '1'
    } else if d == 2 {
        '2'
    } else if d == 3 {
        '3'
    } else if d == 4 {
        '4'
    } else if d == 5 {
        '5'
    } else if d == 6 {
        '6'
    } else if d == 7 {
        '7'
    } else if d == 8 {
        '8'
    } else {
        '9'
    }
}

/// The decimal numeral of `n`: most significant digit first, no sign and no
/// leading zero (zero itself is written `0`).
pub open spec fn decimal_text(n: nat) -> Seq<char>
    decreases n,
{
    if n < 10 {
        seq![digit(n)]
    } else {
        decimal_text(n / 10).push(digit(n % 10))
    }
}

fn digit_char(d: u64) -> (c: char)
    requires
        d < 10,
    ensures
        c == digit(d as nat),
{
    if d == 0 {
        '0'
    } else if d == 1 {
        '1'
    } else if d == 2 {
        '2'
    } else if d == 3 {
        '3'
    } else if d == 4 {
        '4'
    } else if d == 5 {
        '5'
    } else if d == 6 {
        '6'
    } else if d == 7 {
        '7'
    } else if d == 8 {
        '8'
    } else {
        '9'
    }
}

/// Writes `n` as a decimal numeral.
pub fn decimal(n: u64) -> (out: String)
    ensures
        out@ == decimal_text(n as nat),
    decreases n,
{
    if n < 10 {
        let mut out = String::new();
        out.push(digit_char(n));
        out
    } else {
        let mut out = decimal(n / 10);
        out.push(digit_char(n % 10));
        out
    }
}

/// The decimal numeral of a whole number: that of its magnitude, with a
/// minus sign in front where the number is negative.
pub open spec fn signed_decimal_text(n: int) -> Seq<char> {
    if n < 0 {
        seq!['-'] + decimal_text((-n) as nat)
    } else {
        decimal_text(n as nat)
    }
}

/// Writes `n` as a decimal numeral.
pub fn signed_decimal(n: i64) -> (out: String)
    ensures
        out@ == signed_decimal_text(n as int),
{
    if n < 0 {
        let magnitude: u64 = (-(n + 1)) as u64 + 1;
        let mut out = String::new();
        out.push('-');
        out.append(decimal(magnitude).as_str());
        out
    } else {
        decimal(n as u64)
    }
}

/// Whether two texts hold the same characters.
pub fn same_text(first: &str, second: &str) -> (same: bool)
    ensures
        same == (first@ == second@),
{
    let left = first.to_owned();
    let right = second.to_owned();
    left == right
}

} // verus!
