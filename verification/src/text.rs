//! Decimal rendering of integers, as it appears inside response messages.

use vstd::prelude::*;
use vstd::string::*;

verus! {

/// The character of a single decimal digit.
pub open spec fn digit_char(d: nat) -> char
    recommends
        d < 10,
{
    if d == 0 {
        '0'
    } else if d == 1 {
        '1'
    } else if d == 2 {
        '2'
    } else if d == 3 {
        '3'
    } else if d == 4 {
        '4'
    } else if d == 5 {
        '5'
    } else if d == 6 {
        '6'
    } else if d == 7 {
        '7'
    } else if d == 8 {
        '8'
    } else {
        '9'
    }
}

/// The decimal digits of a natural number, most significant first, without
/// leading zeros; zero is the single digit `0`.
pub open spec fn decimal(n: nat) -> Seq<char>
    decreases n,
{
    if n < 10 {
        seq![digit_char(n)]
    } else {
        decimal(n / 10).push(digit_char(n % 10))
    }
}

/// The decimal digits of an integer: a minus sign before the digits of the
/// magnitude where the integer is negative.
pub open spec fn signed_decimal(n: int) -> Seq<char> {
    if n < 0 {
        seq!['-'] + decimal((-n) as nat)
    } else {
        decimal(n as nat)
    }
}

/// The text of one decimal digit.
fn digit_text(d: u64) -> (r: &'static str)
    requires
        d < 10,
    ensures
        r@ == seq![digit_char(d as nat)],
{
    proof {
        reveal_strlit("0");
        reveal_strlit("1");
        reveal_strlit("2");
        reveal_strlit("3");
        reveal_strlit("4");
        reveal_strlit("5");
        reveal_strlit("6");
        reveal_strlit("7");
        reveal_strlit("8");
        reveal_strlit("9");
    }
    let r = if d == 0 {
        "0"
    } else if d == 1 {
        "1"
    } else if d == 2 {
        "2"
    } else if d == 3 {
        "3"
    } else if d == 4 {
        "4"
    } else if d == 5 {
        "5"
    } else if d == 6 {
        "6"
    } else if d == 7 {
        "7"
    } else if d == 8 {
        "8"
    } else {
        "9"
    };
    assert(r@ =~= seq![digit_char(d as nat)]);
    r
}

/// Renders an unsigned integer in decimal.
pub fn u64_to_decimal(n: u64) -> (r: String)
    ensures
        r@ == decimal(n as nat),
{
    let mut rest: u64 = n / 10;
    let mut out = String::from_str(digit_text(n % 10));
    assert(decimal(n as nat) =~= if n < 10 {
        out@
    } else {
        decimal(rest as nat) + out@
    });
    while rest > 0
        invariant
            rest == 0 ==> decimal(n as nat) == out@,
            rest > 0 ==> decimal(n as nat) == decimal(rest as nat) + out@,
        decreases rest,
    {
        let ghost before = out@;
        let ghost r0 = rest;
        let head = String::from_str(digit_text(rest % 10));
        out = head.concat(out.as_str());
        rest = rest / 10;
        assert(decimal(r0 as nat) + before =~= if r0 < 10 {
            out@
        } else {
            decimal(rest as nat) + out@
        });
    }
    out
}

/// Renders a signed integer in decimal.
pub fn i32_to_decimal(n: i32) -> (r: String)
    ensures
        r@ == signed_decimal(n as int),
{
    if n < 0 {
        let wide: i64 = n as i64;
        let magnitude: u64 = (-wide) as u64;
        proof {
            reveal_strlit("-");
        }
        let digits = u64_to_decimal(magnitude);
        let out = String::from_str("-").concat(digits.as_str());
        assert(out@ =~= seq!['-'] + decimal((-n) as nat));
        out
    } else {
        u64_to_decimal(n as u64)
    }
}

} // verus!
