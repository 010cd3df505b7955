//! Decimal rendering of non-negative integers as character sequences, the
//! base of both the timestamp format and the confirmation messages.

use vstd::prelude::*;
use vstd::string::*;

verus! {

/// The decimal digit character for `d` (meaningful for `0 <= d <= 9`).
pub open spec fn spec_digit(d: int) -> char {
    if d == 0 {
        '0'
    } else if d == 1 {
        '1'
    } else if d == 2 {
        '2'
    } else if d == 3 {
        '3'
    } else if d == 4 {
        '4'
    } else if d == 5 {
        '5'
    } else if d == 6 {
        '6'
    } else if d == 7 {
        '7'
    } else if d == 8 {
        '8'
    } else {
        '9'
    }
}

/// The decimal digits of `n`, most significant first (meaningful for `n >= 0`).
pub open spec fn spec_dec(n: int) -> Seq<char>
    decreases n,
{
    if n <= 9 {
        seq![spec_digit(n)]
    } else {
        spec_dec(n / 10).push(spec_digit(n % 10))
    }
}

/// Exactly two decimal digits, zero-padded (meaningful for `0 <= n <= 99`).
pub open spec fn spec_pad2(n: int) -> Seq<char> {
    seq![spec_digit(n / 10), spec_digit(n % 10)]
}

/// The decimal digits of `n`, zero-padded on the left to at least four.
pub open spec fn spec_pad4(n: int) -> Seq<char> {
    if n <= 9999 {
        seq![
            spec_digit(n / 1000),
            spec_digit((n / 100) % 10),
            spec_digit((n / 10) % 10),
            spec_digit(n % 10),
        ]
    } else {
        spec_dec(n)
    }
}

/// Whether `c` is one of the ten decimal digit characters.
pub open spec fn is_dec_digit(c: char) -> bool {
    c == '0' || c == '1' || c == '2' || c == '3' || c == '4' || c == '5' || c == '6' || c == '7'
        || c == '8' || c == '9'
}

/// The single-character string for the digit `d`.
pub fn digit_str(d: u32) -> (r: &'static str)
    requires
        d <= 9,
    ensures
        r@ == seq![spec_digit(d as int)],
{
    proof {
        reveal_strlit("0");
        reveal_strlit("1");
        reveal_strlit("2");
        reveal_strlit("3");
        reveal_strlit("4");
        reveal_strlit("5");
        reveal_strlit("6");
        reveal_strlit("7");
        reveal_strlit("8");
        reveal_strlit("9");
        assert("0"@ =~= seq!['0']);
        assert("1"@ =~= seq!['1']);
        assert("2"@ =~= seq!['2']);
        assert("3"@ =~= seq!['3']);
        assert("4"@ =~= seq!['4']);
        assert("5"@ =~= seq!['5']);
        assert("6"@ =~= seq!['6']);
        assert("7"@ =~= seq!['7']);
        assert("8"@ =~= seq!['8']);
        assert("9"@ =~= seq!['9']);
    }
    match d {
        0 => "0",
        1 => "1",
        2 => "2",
        3 => "3",
        4 => "4",
        5 => "5",
        6 => "6",
        7 => "7",
        8 => "8",
        _ => "9",
    }
}

/// The decimal representation of `n`, without padding.
pub fn dec_string(n: u32) -> (r: String)
    ensures
        r@ == spec_dec(n as int),
    decreases n,
{
    if n <= 9 {
        String::from_str(digit_str(n))
    } else {
        let prefix = dec_string(n / 10);
        let r = prefix.concat(digit_str(n % 10));
        proof {
            assert(r@ =~= spec_dec(n as int));
        }
        r
    }
}

/// The two-digit zero-padded representation of `n`.
pub fn two_digit_string(n: u32) -> (r: String)
    requires
        n <= 99,
    ensures
        r@ == spec_pad2(n as int),
{
    let r = String::from_str(digit_str(n / 10)).concat(digit_str(n % 10));
    proof {
        assert(r@ =~= spec_pad2(n as int));
    }
    r
}

/// The representation of `n`, zero-padded on the left to at least four digits.
pub fn pad4_string(n: u32) -> (r: String)
    ensures
        r@ == spec_pad4(n as int),
{
    if n <= 9999 {
        let r = String::from_str(digit_str(n / 1000))
            .concat(digit_str((n / 100) % 10))
            .concat(digit_str((n / 10) % 10))
            .concat(digit_str(n % 10));
        proof {
            assert(r@ =~= spec_pad4(n as int));
        }
        r
    } else {
        dec_string(n)
    }
}

} // verus!
