//! Human-readable text for time values.
//!
//! The decimal rendering of a single integer goes through std's formatter
//! behind small trusted items whose contracts pin the digit sequence; the
//! composition into the full time text is verified.

use vstd::prelude::*;
use vstd::string::StringExecFns;

use crate::time::Time;
use crate::time_lib::{Period, TimeComponents, TimeKind};

verus! {

/// The decimal digit character of a value below ten.
pub open spec fn dec_digit(d: int) -> char {
    if d == 0 {
        '0'
    } else if d == 1 {
        '1'
    } else if d == 2 {
        '2'
    } else if d == 3 {
        '3'
    } else if d == 4 {
        '4'
    } else if d == 5 {
        '5'
    } else if d == 6 {
        '6'
    } else if d == 7 {
        '7'
    } else if d == 8 {
        '8'
    } else {
        '9'
    }
}

/// The decimal digit sequence of a nonnegative value, most significant digit
/// first and without leading zeroes.
pub open spec fn dec_str(n: int) -> Seq<char>
    decreases n,
{
    if n < 0 {
        Seq::empty()
    } else if n < 10 {
        seq![dec_digit(n)]
    } else {
        dec_str(n / 10).push(dec_digit(n % 10))
    }
}

/// The decimal digit sequence of a nonnegative value, left-padded with a zero
/// to at least two digits.
pub open spec fn dec_str_pad2(n: int) -> Seq<char> {
    if 0 <= n < 10 {
        seq!['0'].add(dec_str(n))
    } else {
        dec_str(n)
    }
}

/// Relies on std's decimal formatting of an unsigned integer: the digits of
/// the value, most significant first, without leading zeroes.
#[verifier::external_body]
fn decimal_text(n: u64) -> (r: String)
    ensures
        r@ == dec_str(n as int),
{
    format!("{}", n)
}

/// Relies on std's decimal formatting of an unsigned integer with a pad
/// width of two: the digits of the value, left-padded with a zero to at
/// least two digits.
#[verifier::external_body]
fn two_digit_text(n: u64) -> (r: String)
    ensures
        r@ == dec_str_pad2(n as int),
{
    format!("{:0>2}", n)
}

/// The text of raw components: hours, two-digit minutes and seconds separated
/// by colons, then the nanoseconds after a dot.
pub open spec fn spec_components_text(c: TimeComponents) -> Seq<char> {
    dec_str(c.hours as int) + ":"@ + dec_str_pad2(c.minutes as int) + ":"@ + dec_str_pad2(
        c.seconds as int,
    ) + "."@ + dec_str(c.nanoseconds as int)
}

/// The text of a time value: its components, prefixed with the metric label
/// in the metric base and followed by the period in the 12-hour base.
pub open spec fn spec_time_text(t: Time) -> Seq<char> {
    match t.spec_kind() {
        TimeKind::Base10 => "Metric: "@ + spec_components_text(t.spec_components()),
        TimeKind::Base12(period) => spec_components_text(t.spec_components()) + " "@ + (
        match period {
            Period::AM => "AM"@,
            Period::PM => "PM"@,
        }),
        TimeKind::Base24 => spec_components_text(t.spec_components()),
    }
}

impl TimeComponents {
    /// Renders the components as text: hours, two-digit minutes and seconds
    /// separated by colons, then the nanoseconds after a dot.
    pub fn to_text(&self) -> (r: String)
        ensures
            r@ == spec_components_text(*self),
    {
        let mut out = decimal_text(self.hours as u64);
        out.append(":");
        out.append(two_digit_text(self.minutes as u64).as_str());
        out.append(":");
        out.append(two_digit_text(self.seconds as u64).as_str());
        out.append(".");
        out.append(decimal_text(self.nanoseconds as u64).as_str());
        out
    }
}

impl Time {
    /// Renders the time as text: its components, prefixed with the metric
    /// label in the metric base and followed by the period in the 12-hour
    /// base.
    pub fn to_text(&self) -> (r: String)
        ensures
            r@ == spec_time_text(*self),
    {
        match self.kind() {
            TimeKind::Base10 => {
                let mut out = String::from_str("Metric: ");
                out.append(self.components().to_text().as_str());
                out
            },
            TimeKind::Base12(period) => {
                let mut out = self.components().to_text();
                out.append(" ");
                out.append(period.to_text());
                out
            },
            TimeKind::Base24 => self.components().to_text(),
        }
    }
}

} // verus!
