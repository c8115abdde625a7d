//! Decimal rendering of the pet's narrow signed counters, verified down to
//! the exact character sequence.

use vstd::prelude::*;

verus! {

/// The decimal digit character for a value between 0 and 9.
pub open spec fn spec_digit(d: int) -> char {
    if d == 0 {
        '0'
    } else if d == 1 {
        '1'
    } else if d == 2 {
        '2'
    } else if d == 3 {
        '3'
    } else if d == 4 {
        '4'
    } else if d == 5 {
        '5'
    } else if d == 6 {
        '6'
    } else if d == 7 {
        '7'
    } else if d == 8 {
        '8'
    } else {
        '9'
    }
}

/// The usual decimal notation of a nonnegative integer: most significant
/// digit first, no leading zeros (a single `'0'` for zero).
pub open spec fn spec_udec(n: int) -> Seq<char>
    recommends
        n >= 0,
    decreases n,
{
    if n < 10 {
        seq![spec_digit(n)]
    } else {
        spec_udec(n / 10).push(spec_digit(n % 10))
    }
}

/// Decimal notation of a signed integer: a leading `'-'` for negatives.
pub open spec fn spec_dec(n: int) -> Seq<char> {
    if n < 0 {
        seq!['-'] + spec_udec(-n)
    } else {
        spec_udec(n)
    }
}

/// The single-character string for one decimal digit.
fn digit_str(d: u8) -> (s: &'static str)
    requires
        d < 10,
    ensures
        s@ == seq![spec_digit(d as int)],
{
    proof {
        reveal_strlit("0");
        reveal_strlit("1");
        reveal_strlit("2");
        reveal_strlit("3");
        reveal_strlit("4");
        reveal_strlit("5");
        reveal_strlit("6");
        reveal_strlit("7");
        reveal_strlit("8");
        reveal_strlit("9");
    }
    match d {
        0 => "0",
        1 => "1",
        2 => "2",
        3 => "3",
        4 => "4",
        5 => "5",
        6 => "6",
        7 => "7",
        8 => "8",
        _ => "9",
    }
}

/// Decimal notation of a byte-sized nonnegative value (at most three digits).
fn u8_dec_str(n: u8) -> (s: String)
    ensures
        s@ == spec_udec(n as int),
{
    if n < 10 {
        String::from_str(digit_str(n))
    } else if n < 100 {
        let mut s = String::from_str(digit_str(n / 10));
        s.append(digit_str(n % 10));
        proof {
            reveal_with_fuel(spec_udec, 2);
            assert(s@ =~= spec_udec(n as int));
        }
        s
    } else {
        let mut s = String::from_str(digit_str(n / 100));
        s.append(digit_str((n / 10) % 10));
        s.append(digit_str(n % 10));
        proof {
            reveal_with_fuel(spec_udec, 3);
            assert((n as int / 10) / 10 == n as int / 100) by (nonlinear_arith);
            assert(spec_udec(n as int / 10) =~= seq![
                spec_digit(n as int / 100),
                spec_digit((n as int / 10) % 10),
            ]);
            assert(s@ =~= spec_udec(n as int));
        }
        s
    }
}

/// Decimal notation of one of the pet's narrow signed counters.
pub fn i8_dec_str(n: i8) -> (s: String)
    ensures
        s@ == spec_dec(n as int),
{
    if n >= 0 {
        u8_dec_str(n as u8)
    } else {
        let mag: u8 = (-(n as i32)) as u8;
        let mut s = String::from_str("-");
        let digits = u8_dec_str(mag);
        s.append(digits.as_str());
        proof {
            reveal_strlit("-");
            assert(s@ =~= spec_dec(n as int));
        }
        s
    }
}

} // verus!
