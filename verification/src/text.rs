//! Verified text assembly: decimal rendering of quantities and money
//! amounts, and string concatenation with exact contracts.

use vstd::prelude::*;

use vstd::string::StringExecFns;

verus! {

/// The character for a single decimal digit.
pub open spec fn dec_digit(d: int) -> char {
    if d == 0 {
        '0'
    } else if d == 1 {
        '1'
    } else if d == 2 {
        '2'
    } else if d == 3 {
        '3'
    } else if d == 4 {
        '4'
    } else if d == 5 {
        '5'
    } else if d == 6 {
        '6'
    } else if d == 7 {
        '7'
    } else if d == 8 {
        '8'
    } else {
        '9'
    }
}

/// The decimal representation of a natural number, most significant
/// digit first, without leading zeros (`0` is rendered as `"0"`).
pub open spec fn dec_rep(n: nat) -> Seq<char>
    decreases n,
{
    if n < 10 {
        seq![dec_digit(n as int)]
    } else {
        dec_rep(n / 10).push(dec_digit((n % 10) as int))
    }
}

/// An amount of hundredths, rendered with two decimal places:
/// `1234` becomes `12.34`.
pub open spec fn money_rep(c: nat) -> Seq<char> {
    dec_rep(c / 100) + seq!['.', dec_digit(((c / 10) % 10) as int), dec_digit((c % 10) as int)]
}

/// A signed amount of hundredths with two decimal places.
pub open spec fn signed_money_rep(v: int) -> Seq<char> {
    if v < 0 {
        seq!['-'] + money_rep((-v) as nat)
    } else {
        money_rep(v as nat)
    }
}

/// A single-digit string slice.
fn digit_str(d: u64) -> (s: &'static str)
    requires
        d < 10,
    ensures
        s@ =~= seq![dec_digit(d as int)],
{
    proof {
        reveal_strlit("0");
        reveal_strlit("1");
        reveal_strlit("2");
        reveal_strlit("3");
        reveal_strlit("4");
        reveal_strlit("5");
        reveal_strlit("6");
        reveal_strlit("7");
        reveal_strlit("8");
        reveal_strlit("9");
    }
    if d == 0 {
        "0"
    } else if d == 1 {
        "1"
    } else if d == 2 {
        "2"
    } else if d == 3 {
        "3"
    } else if d == 4 {
        "4"
    } else if d == 5 {
        "5"
    } else if d == 6 {
        "6"
    } else if d == 7 {
        "7"
    } else if d == 8 {
        "8"
    } else {
        "9"
    }
}

/// Render a natural number in decimal.
pub fn u64_to_string(n: u64) -> (s: String)
    ensures
        s@ == dec_rep(n as nat),
    decreases n,
{
    if n < 10 {
        digit_str(n).to_owned()
    } else {
        let mut s = u64_to_string(n / 10);
        s.append(digit_str(n % 10));
        proof {
            assert(s@ =~= dec_rep(n as nat));
        }
        s
    }
}

/// The concatenation of two string slices.
pub fn concat2(a: &str, b: &str) -> (s: String)
    ensures
        s@ == a@ + b@,
{
    let mut s = a.to_owned();
    s.append(b);
    s
}

/// The concatenation of three string slices.
pub fn concat3(a: &str, b: &str, c: &str) -> (s: String)
    ensures
        s@ == a@ + b@ + c@,
{
    let mut s = a.to_owned();
    s.append(b);
    s.append(c);
    s
}

/// Render an amount of hundredths with two decimal places, as in `12.34`.
pub fn format_hundredths(c: u64) -> (s: String)
    ensures
        s@ == money_rep(c as nat),
{
    let mut s = u64_to_string(c / 100);
    proof {
        reveal_strlit(".");
    }
    s.append(".");
    s.append(digit_str((c / 10) % 10));
    s.append(digit_str(c % 10));
    proof {
        assert(s@ =~= money_rep(c as nat));
    }
    s
}

/// Render a signed amount of hundredths with two decimal places.
pub fn format_signed_hundredths(v: i64) -> (s: String)
    ensures
        s@ == signed_money_rep(v as int),
{
    if v < 0 {
        let mag: u64 = (-(v as i128)) as u64;
        proof {
            reveal_strlit("-");
        }
        let mut s: String = "-".to_owned();
        s.append(format_hundredths(mag).as_str());
        proof {
            assert(s@ =~= signed_money_rep(v as int));
        }
        s
    } else {
        format_hundredths(v as u64)
    }
}

} // verus!
