//! Decimal rendering of small integers, used when an error message must
//! name an HTTP status code.

use vstd::prelude::*;
use vstd::string::StringExecFns;

verus! {

/// The character for a single decimal digit.
pub open spec fn spec_digit_char(d: nat) -> char {
    if d == 0 {
        '0'
    } else if d == 1 {
        '1'
    } else if d == 2 {
        '2'
    } else if d == 3 {
        '3'
    } else if d == 4 {
        '4'
    } else if d == 5 {
        '5'
    } else if d == 6 {
        '6'
    } else if d == 7 {
        '7'
    } else if d == 8 {
        '8'
    } else {
        '9'
    }
}

/// The decimal digits of `n`, most significant first, with no leading
/// zeros (a single `'0'` for zero).
pub open spec fn spec_decimal(n: nat) -> Seq<char>
    decreases n,
{
    if n < 10 {
        seq![spec_digit_char(n)]
    } else {
        spec_decimal(n / 10) + seq![spec_digit_char(n % 10)]
    }
}

fn digit_str(d: u16) -> (r: &'static str)
    requires
        d < 10,
    ensures
        r@ == seq![spec_digit_char(d as nat)],
{
    proof {
        reveal_strlit("0");
        reveal_strlit("1");
        reveal_strlit("2");
        reveal_strlit("3");
        reveal_strlit("4");
        reveal_strlit("5");
        reveal_strlit("6");
        reveal_strlit("7");
        reveal_strlit("8");
        reveal_strlit("9");
        assert("0"@ =~= seq![spec_digit_char(0)]);
        assert("1"@ =~= seq![spec_digit_char(1)]);
        assert("2"@ =~= seq![spec_digit_char(2)]);
        assert("3"@ =~= seq![spec_digit_char(3)]);
        assert("4"@ =~= seq![spec_digit_char(4)]);
        assert("5"@ =~= seq![spec_digit_char(5)]);
        assert("6"@ =~= seq![spec_digit_char(6)]);
        assert("7"@ =~= seq![spec_digit_char(7)]);
        assert("8"@ =~= seq![spec_digit_char(8)]);
        assert("9"@ =~= seq![spec_digit_char(9)]);
    }
    match d {
        0 => "0",
        1 => "1",
        2 => "2",
        3 => "3",
        4 => "4",
        5 => "5",
        6 => "6",
        7 => "7",
        8 => "8",
        _ => "9",
    }
}

/// Renders `n` in decimal, most significant digit first.
pub fn u16_to_decimal(n: u16) -> (r: String)
    ensures
        r@ == spec_decimal(n as nat),
    decreases n,
{
    if n < 10 {
        digit_str(n).to_owned()
    } else {
        let mut s = u16_to_decimal(n / 10);
        s.append(digit_str(n % 10));
        s
    }
}

} // verus!
