//! Rendering money as text: a decimal number with exactly two fractional
//! digits, no thousands separators and no sign, as the tool's responses
//! print it.

use vstd::prelude::*;

verus! {

/// The decimal digit character for `d`.
pub open spec fn digit_char(d: int) -> char {
    if d == 0 {
        '0'
    } else if d == 1 {
        '1'
    } else if d == 2 {
        '2'
    } else if d == 3 {
        '3'
    } else if d == 4 {
        '4'
    } else if d == 5 {
        '5'
    } else if d == 6 {
        '6'
    } else if d == 7 {
        '7'
    } else if d == 8 {
        '8'
    } else {
        '9'
    }
}

/// The decimal digits of `n`, most significant first, no leading zeros
/// except for `n == 0` itself.
pub open spec fn dec_seq(n: nat) -> Seq<char>
    decreases n,
{
    if n < 10 {
        seq![digit_char(n as int)]
    } else {
        dec_seq(n / 10).push(digit_char((n % 10) as int))
    }
}

/// An amount of `pence` rendered in pounds with exactly two fractional
/// digits: the pounds in decimal, a point, then the pence below a pound.
pub open spec fn money_seq(pence: int) -> Seq<char> {
    dec_seq((pence / 100) as nat) + seq!['.', digit_char((pence % 100) / 10), digit_char(pence % 100 % 10)]
}

/// The one-character string of the decimal digit `d`.
fn digit_str(d: u64) -> (s: &'static str)
    requires
        d < 10,
    ensures
        s@ =~= seq![digit_char(d as int)],
{
    proof {
        reveal_strlit("0");
        reveal_strlit("1");
        reveal_strlit("2");
        reveal_strlit("3");
        reveal_strlit("4");
        reveal_strlit("5");
        reveal_strlit("6");
        reveal_strlit("7");
        reveal_strlit("8");
        reveal_strlit("9");
    }
    if d == 0 {
        "0"
    } else if d == 1 {
        "1"
    } else if d == 2 {
        "2"
    } else if d == 3 {
        "3"
    } else if d == 4 {
        "4"
    } else if d == 5 {
        "5"
    } else if d == 6 {
        "6"
    } else if d == 7 {
        "7"
    } else if d == 8 {
        "8"
    } else {
        "9"
    }
}

/// Renders `n` in decimal, most significant digit first.
pub fn u64_to_dec(n: u64) -> (s: String)
    ensures
        s@ == dec_seq(n as nat),
    decreases n,
{
    if n < 10 {
        let s = String::from_str(digit_str(n));
        proof {
            assert(s@ =~= dec_seq(n as nat));
        }
        s
    } else {
        let mut s = u64_to_dec(n / 10);
        s.append(digit_str(n % 10));
        proof {
            assert(s@ =~= dec_seq(n as nat));
        }
        s
    }
}

/// Renders an amount of `pence` in pounds with exactly two fractional
/// digits.
pub fn pence_to_money(pence: u64) -> (s: String)
    ensures
        s@ == money_seq(pence as int),
{
    let mut s = u64_to_dec(pence / 100);
    let frac = pence % 100;
    s.append(".");
    s.append(digit_str(frac / 10));
    s.append(digit_str(frac % 10));
    proof {
        reveal_strlit(".");
        assert(s@ =~= money_seq(pence as int));
    }
    s
}

} // verus!
