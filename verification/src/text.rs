//! Verified decimal formatting for messages and warnings.

use vstd::prelude::*;
use vstd::string::StringExecFns;

verus! {

pub open spec fn spec_digit_char(d: int) -> char {
    if d == 0 {
        '0'
    } else if d == 1 {
        '1'
    } else if d == 2 {
        '2'
    } else if d == 3 {
        '3'
    } else if d == 4 {
        '4'
    } else if d == 5 {
        '5'
    } else if d == 6 {
        '6'
    } else if d == 7 {
        '7'
    } else if d == 8 {
        '8'
    } else {
        '9'
    }
}

/// Decimal digits of a non-negative number, most significant first.
pub open spec fn spec_digits(n: int) -> Seq<char>
    decreases n,
{
    if n < 10 {
        seq![spec_digit_char(n)]
    } else {
        spec_digits(n / 10).push(spec_digit_char(n % 10))
    }
}

/// Six zero-padded digits for a micro-unit fraction below one million.
pub open spec fn spec_frac6(f: int) -> Seq<char> {
    seq![
        spec_digit_char(f / 100_000 % 10),
        spec_digit_char(f / 10_000 % 10),
        spec_digit_char(f / 1_000 % 10),
        spec_digit_char(f / 100 % 10),
        spec_digit_char(f / 10 % 10),
        spec_digit_char(f % 10),
    ]
}

/// Rendering of a fixed-point micro-unit value: integer part, a point,
/// six fraction digits.
pub open spec fn spec_micros_str(v: int) -> Seq<char> {
    spec_digits(v / 1_000_000) + seq!['.'] + spec_frac6(v % 1_000_000)
}

fn digit_str(d: u64) -> (s: &'static str)
    requires
        d < 10,
    ensures
        s@ == seq![spec_digit_char(d as int)],
{
    proof {
        reveal_strlit("0");
        reveal_strlit("1");
        reveal_strlit("2");
        reveal_strlit("3");
        reveal_strlit("4");
        reveal_strlit("5");
        reveal_strlit("6");
        reveal_strlit("7");
        reveal_strlit("8");
        reveal_strlit("9");
    }
    let s: &'static str = match d {
        0 => "0",
        1 => "1",
        2 => "2",
        3 => "3",
        4 => "4",
        5 => "5",
        6 => "6",
        7 => "7",
        8 => "8",
        _ => "9",
    };
    proof {
        assert(s@ =~= seq![spec_digit_char(d as int)]);
    }
    s
}

/// Renders a number in decimal.
pub fn u64_to_string(n: u64) -> (s: String)
    ensures
        s@ == spec_digits(n as int),
    decreases n,
{
    if n < 10 {
        digit_str(n).to_owned()
    } else {
        let mut s = u64_to_string(n / 10);
        s.append(digit_str(n % 10));
        proof {
            assert(s@ =~= spec_digits((n / 10) as int).push(spec_digit_char((n % 10) as int)));
        }
        s
    }
}

/// Renders a micro-unit fixed-point value with six fraction digits.
pub fn micros_to_string(v: u64) -> (s: String)
    ensures
        s@ == spec_micros_str(v as int),
{
    let mut s = u64_to_string(v / 1_000_000);
    proof {
        reveal_strlit(".");
    }
    s.append(".");
    let f = v % 1_000_000;
    s.append(digit_str(f / 100_000 % 10));
    s.append(digit_str(f / 10_000 % 10));
    s.append(digit_str(f / 1_000 % 10));
    s.append(digit_str(f / 100 % 10));
    s.append(digit_str(f / 10 % 10));
    s.append(digit_str(f % 10));
    proof {
        assert(s@ =~= spec_micros_str(v as int));
    }
    s
}

/// Renders a signed micro-unit value, with a leading minus where negative.
pub fn micros_i128_to_string(v: i128) -> (s: String)
    requires
        -0xffff_ffff_ffff_ffff <= v <= 0xffff_ffff_ffff_ffff,
    ensures
        v >= 0 ==> s@ == spec_micros_str(v as int),
        v < 0 ==> s@ == seq!['-'] + spec_micros_str(-v as int),
{
    if v >= 0 {
        micros_to_string(v as u64)
    } else {
        proof {
            reveal_strlit("-");
        }
        let mut s = ("-").to_owned();
        let m = (-v) as u64;
        let rest = micros_to_string(m);
        s.append(rest.as_str());
        proof {
            assert(s@ =~= seq!['-'] + spec_micros_str(-v as int));
        }
        s
    }
}

} // verus!
