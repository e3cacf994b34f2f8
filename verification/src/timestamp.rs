//! A plain UTC timestamp, held as its calendar fields, and its RFC 3339
//! rendering.
//!
//! The library itself never reads a clock: a caller obtains the current time
//! from whatever time source it uses and hands the calendar fields over.

use crate::render::digit_rep;
use crate::render::u64_dec_string;
use vstd::prelude::*;

verus! {

/// A wall-clock instant in UTC with whole-second precision, as the calendar
/// fields a query's timeframe is rendered from. Fields are expected in their
/// calendar ranges (and the year at most four digits); the library does not
/// validate them, in keeping with its policy of validating nothing, and an
/// out-of-range field merely yields a malformed URL for the API to reject.
#[derive(Debug, Clone, Copy, PartialEq, Eq, Structural)]
pub struct UtcTime {
    pub year: u32,
    pub month: u32,
    pub day: u32,
    pub hour: u32,
    pub minute: u32,
    pub second: u32,
}

/// `n` as exactly two decimal digits, zero-padded (the tens digit of values
/// of one hundred and above is wrapped; calendar fields never reach it).
pub open spec fn two_digit_rep(n: nat) -> Seq<char> {
    digit_rep(n / 10 % 10) + digit_rep(n % 10)
}

/// `n` as exactly four decimal digits, zero-padded.
pub open spec fn four_digit_rep(n: nat) -> Seq<char> {
    digit_rep(n / 1000 % 10) + digit_rep(n / 100 % 10) + digit_rep(n / 10 % 10) + digit_rep(n % 10)
}

/// The RFC 3339 rendering of `t`: date and time joined by `T`, followed by
/// the explicit zero UTC offset, e.g. `2023-01-01T00:00:00+00:00`.
pub open spec fn rfc3339_rep(t: UtcTime) -> Seq<char> {
    four_digit_rep(t.year as nat) + "-"@ + two_digit_rep(t.month as nat) + "-"@ + two_digit_rep(
        t.day as nat,
    ) + "T"@ + two_digit_rep(t.hour as nat) + ":"@ + two_digit_rep(t.minute as nat) + ":"@
        + two_digit_rep(t.second as nat) + "+00:00"@
}

fn two_digit_string(n: u32) -> (r: String)
    ensures
        r@ == two_digit_rep(n as nat),
{
    let mut s = u64_dec_string((n / 10 % 10) as u64);
    let ones = u64_dec_string((n % 10) as u64);
    s.append(ones.as_str());
    s
}

fn four_digit_string(n: u32) -> (r: String)
    ensures
        r@ == four_digit_rep(n as nat),
{
    let mut s = u64_dec_string((n / 1000 % 10) as u64);
    let d2 = u64_dec_string((n / 100 % 10) as u64);
    let d3 = u64_dec_string((n / 10 % 10) as u64);
    let d4 = u64_dec_string((n % 10) as u64);
    s.append(d2.as_str());
    s.append(d3.as_str());
    s.append(d4.as_str());
    s
}

impl UtcTime {
    /// Pack the calendar fields of a UTC instant.
    pub fn new(year: u32, month: u32, day: u32, hour: u32, minute: u32, second: u32) -> (t:
        UtcTime)
        ensures
            t == (UtcTime { year, month, day, hour, minute, second }),
    {
        UtcTime { year, month, day, hour, minute, second }
    }

    /// Render this instant in RFC 3339 form with a `+00:00` offset.
    pub fn to_rfc3339(&self) -> (r: String)
        ensures
            r@ == rfc3339_rep(*self),
    {
        let mut s = four_digit_string(self.year);
        s.append("-");
        let month = two_digit_string(self.month);
        s.append(month.as_str());
        s.append("-");
        let day = two_digit_string(self.day);
        s.append(day.as_str());
        s.append("T");
        let hour = two_digit_string(self.hour);
        s.append(hour.as_str());
        s.append(":");
        let minute = two_digit_string(self.minute);
        s.append(minute.as_str());
        s.append(":");
        let second = two_digit_string(self.second);
        s.append(second.as_str());
        s.append("+00:00");
        s
    }
}

} // verus!
