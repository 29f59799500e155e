//! Decimal rendering of unsigned integers, used when numeric fields are
//! written into query parameter values.

use vstd::prelude::*;
use vstd::string::StringExecFns;

verus! {

/// The character for a single decimal digit.
pub open spec fn digit_char(d: u8) -> char {
    if d == 0 {
        '0'
    } else if d == 1 {
        '1'
    } else if d == 2 {
        '2'
    } else if d == 3 {
        '3'
    } else if d == 4 {
        '4'
    } else if d == 5 {
        '5'
    } else if d == 6 {
        '6'
    } else if d == 7 {
        '7'
    } else if d == 8 {
        '8'
    } else {
        '9'
    }
}

/// The usual decimal rendering of `n`, most significant digit first,
/// without leading zeroes (`0` itself renders as `"0"`).
pub open spec fn dec_str(n: nat) -> Seq<char>
    decreases n,
{
    if n < 10 {
        seq![digit_char(n as u8)]
    } else {
        dec_str(n / 10) + seq![digit_char((n % 10) as u8)]
    }
}

fn digit_str(d: u8) -> (r: &'static str)
    requires
        d < 10,
    ensures
        r@ == seq![digit_char(d)],
{
    proof {
        reveal_strlit("0");
        reveal_strlit("1");
        reveal_strlit("2");
        reveal_strlit("3");
        reveal_strlit("4");
        reveal_strlit("5");
        reveal_strlit("6");
        reveal_strlit("7");
        reveal_strlit("8");
        reveal_strlit("9");
    }
    let r: &'static str = match d {
        0 => "0",
        1 => "1",
        2 => "2",
        3 => "3",
        4 => "4",
        5 => "5",
        6 => "6",
        7 => "7",
        8 => "8",
        _ => "9",
    };
    proof {
        assert(r@ =~= seq![digit_char(d)]);
    }
    r
}

/// Renders `n` in decimal.
pub fn u64_to_string(n: u64) -> (r: String)
    ensures
        r@ == dec_str(n as nat),
    decreases n,
{
    if n < 10 {
        digit_str(n as u8).to_owned()
    } else {
        let mut s = u64_to_string(n / 10);
        s.append(digit_str((n % 10) as u8));
        s
    }
}

/// Renders `n` in decimal.
pub fn usize_to_string(n: usize) -> (r: String)
    ensures
        r@ == dec_str(n as nat),
{
    u64_to_string(n as u64)
}

/// The wire token of a boolean query parameter value.
pub open spec fn bool_wire(b: bool) -> Seq<char> {
    if b {
        "true"@
    } else {
        "false"@
    }
}

/// The wire token of a boolean query parameter value.
pub fn bool_str(b: bool) -> (r: &'static str)
    ensures
        r@ == bool_wire(b),
{
    if b {
        "true"
    } else {
        "false"
    }
}

} // verus!
