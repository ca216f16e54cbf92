//! Decimal rendering of signed integers, used to put a numeric option (the
//! powerset depth) into an argument list.

use vstd::prelude::*;
use vstd::string::StringExecFns;

verus! {

/// The decimal digit character for `d`.
pub open spec fn dec_digit(d: int) -> char {
    if d == 0 {
        '0'
    } else if d == 1 {
        '1'
    } else if d == 2 {
        '2'
    } else if d == 3 {
        '3'
    } else if d == 4 {
        '4'
    } else if d == 5 {
        '5'
    } else if d == 6 {
        '6'
    } else if d == 7 {
        '7'
    } else if d == 8 {
        '8'
    } else {
        '9'
    }
}

/// The decimal digits of a non-negative `n`, most significant first, with no
/// leading zero except for `n == 0` itself.
pub open spec fn dec_nat(n: int) -> Seq<char>
    decreases n,
{
    if n < 10 {
        seq![dec_digit(n)]
    } else {
        dec_nat(n / 10).push(dec_digit(n % 10))
    }
}

/// The decimal rendering of `n`, with a leading minus sign when `n` is
/// negative.
pub open spec fn dec_int(n: int) -> Seq<char> {
    if n < 0 {
        seq!['-'] + dec_nat(-n)
    } else {
        dec_nat(n)
    }
}

/// The one-character string for the decimal digit `d`.
fn digit_str(d: u32) -> (s: &'static str)
    requires
        d < 10,
    ensures
        s@ == seq![dec_digit(d as int)],
{
    proof {
        reveal_strlit("0");
        reveal_strlit("1");
        reveal_strlit("2");
        reveal_strlit("3");
        reveal_strlit("4");
        reveal_strlit("5");
        reveal_strlit("6");
        reveal_strlit("7");
        reveal_strlit("8");
        reveal_strlit("9");
    }
    if d == 0 {
        "0"
    } else if d == 1 {
        "1"
    } else if d == 2 {
        "2"
    } else if d == 3 {
        "3"
    } else if d == 4 {
        "4"
    } else if d == 5 {
        "5"
    } else if d == 6 {
        "6"
    } else if d == 7 {
        "7"
    } else if d == 8 {
        "8"
    } else {
        "9"
    }
}

/// Renders a non-negative `n` in decimal.
fn u32_to_decimal(n: u32) -> (s: String)
    ensures
        s@ == dec_nat(n as int),
{
    let mut s = String::new();
    let mut x: u32 = n;
    while x >= 10
        invariant
            dec_nat(n as int) == dec_nat(x as int) + s@,
        decreases x,
    {
        let d: u32 = x % 10;
        let ghost prev = s@;
        s = digit_str(d).to_owned().concat(s.as_str());
        proof {
            assert(dec_nat(x as int) =~= dec_nat(x as int / 10) + seq![dec_digit(x as int % 10)]);
            assert(dec_nat(x as int / 10) + seq![dec_digit(x as int % 10)] + prev =~= dec_nat(
                x as int / 10,
            ) + (seq![dec_digit(x as int % 10)] + prev));
        }
        x = x / 10;
    }
    let r = digit_str(x).to_owned().concat(s.as_str());
    proof {
        assert(dec_nat(x as int) + s@ =~= seq![dec_digit(x as int)] + s@);
        assert(r@ =~= dec_nat(n as int));
    }
    r
}

/// Renders `n` in decimal, with a leading minus sign when `n` is negative.
pub fn i32_to_decimal(n: i32) -> (s: String)
    ensures
        s@ == dec_int(n as int),
{
    if n >= 0 {
        u32_to_decimal(n as u32)
    } else {
        proof {
            reveal_strlit("-");
        }
        let wide: i64 = n as i64;
        let mag: u32 = (-wide) as u32;
        let digits = u32_to_decimal(mag);
        let r = "-".to_owned().concat(digits.as_str());
        proof {
            assert("-"@ =~= seq!['-']);
        }
        r
    }
}

} // verus!
