//! A calendar date and time in UTC, held as plain fields, with its exact
//! wire rendering. Date filters in descriptors carry this type; construction
//! from other date representations happens at the caller's boundary.

use vstd::prelude::*;
use vstd::string::StringExecFns;

use crate::strutil::{dec_str, u64_to_string};

verus! {

/// A date and time in UTC.
#[derive(Debug, Clone, Copy, PartialEq, Eq, Structural)]
pub struct DateTime {
    /// Year, four digits on the wire.
    pub year: u16,
    /// Month of the year, `1` to `12`.
    pub month: u8,
    /// Day of the month, `1` to `31`.
    pub day: u8,
    /// Hour of the day, `0` to `23`.
    pub hour: u8,
    /// Minute of the hour, `0` to `59`.
    pub minute: u8,
    /// Second of the minute, `0` to `59`.
    pub second: u8,
}

/// Decimal rendering padded with zeroes to at least two digits.
pub open spec fn pad2(n: nat) -> Seq<char> {
    if n < 10 {
        seq!['0'] + dec_str(n)
    } else {
        dec_str(n)
    }
}

/// Decimal rendering padded with zeroes to at least four digits.
pub open spec fn pad4(n: nat) -> Seq<char> {
    if n < 10 {
        seq!['0', '0', '0'] + dec_str(n)
    } else if n < 100 {
        seq!['0', '0'] + dec_str(n)
    } else if n < 1000 {
        seq!['0'] + dec_str(n)
    } else {
        dec_str(n)
    }
}

/// The wire rendering of a [`DateTime`]:
/// `YYYY-MM-DDTHH:MM:SSZ`.
pub open spec fn datetime_str(d: DateTime) -> Seq<char> {
    pad4(d.year as nat) + seq!['-'] + pad2(d.month as nat) + seq!['-'] + pad2(d.day as nat) + seq![
        'T',
    ] + pad2(d.hour as nat) + seq![':'] + pad2(d.minute as nat) + seq![':'] + pad2(d.second as nat)
        + seq!['Z']
}

/// Whether the fields lie in their calendar ranges (days per month are not
/// checked beyond `31`).
pub open spec fn valid_datetime(d: DateTime) -> bool {
    &&& 1 <= d.month <= 12
    &&& 1 <= d.day <= 31
    &&& d.hour < 24
    &&& d.minute < 60
    &&& d.second < 60
}

fn pad2_exec(n: u8) -> (r: String)
    ensures
        r@ == pad2(n as nat),
{
    proof {
        reveal_strlit("0");
        assert("0"@ =~= seq!['0']);
    }
    if n < 10 {
        let r = "0".to_owned().concat(u64_to_string(n as u64).as_str());
        proof {
            assert(r@ =~= pad2(n as nat));
        }
        r
    } else {
        u64_to_string(n as u64)
    }
}

fn pad4_exec(n: u16) -> (r: String)
    ensures
        r@ == pad4(n as nat),
{
    proof {
        reveal_strlit("0");
        reveal_strlit("00");
        reveal_strlit("000");
        assert("0"@ =~= seq!['0']);
        assert("00"@ =~= seq!['0', '0']);
        assert("000"@ =~= seq!['0', '0', '0']);
    }
    let digits = u64_to_string(n as u64);
    let r = if n < 10 {
        "000".to_owned().concat(digits.as_str())
    } else if n < 100 {
        "00".to_owned().concat(digits.as_str())
    } else if n < 1000 {
        "0".to_owned().concat(digits.as_str())
    } else {
        digits
    };
    proof {
        assert(r@ =~= pad4(n as nat));
    }
    r
}

impl DateTime {
    /// A date and time from its parts.
    pub fn new(year: u16, month: u8, day: u8, hour: u8, minute: u8, second: u8) -> (r: DateTime)
        ensures
            r == (DateTime { year, month, day, hour, minute, second }),
    {
        DateTime { year, month, day, hour, minute, second }
    }

    /// Renders this date and time as its wire form `YYYY-MM-DDTHH:MM:SSZ`.
    pub fn to_rfc3339(&self) -> (r: String)
        ensures
            r@ == datetime_str(*self),
    {
        proof {
            reveal_strlit("-");
            reveal_strlit("T");
            reveal_strlit(":");
            reveal_strlit("Z");
            assert("-"@ =~= seq!['-']);
            assert("T"@ =~= seq!['T']);
            assert(":"@ =~= seq![':']);
            assert("Z"@ =~= seq!['Z']);
        }
        let mut s = pad4_exec(self.year);
        s.append("-");
        s.append(pad2_exec(self.month).as_str());
        s.append("-");
        s.append(pad2_exec(self.day).as_str());
        s.append("T");
        s.append(pad2_exec(self.hour).as_str());
        s.append(":");
        s.append(pad2_exec(self.minute).as_str());
        s.append(":");
        s.append(pad2_exec(self.second).as_str());
        s.append("Z");
        proof {
            assert(s@ =~= datetime_str(*self));
        }
        s
    }
}

} // verus!
