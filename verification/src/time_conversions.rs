//! Unit tables and the metric/standard rescaler.
//!
//! - [`Converter`]: rescales a nanosecond count between the standard and
//!   metric number lines through an exact rational rate
//! - [`TimeConversions`]: hours/minutes/seconds ratios of one time system,
//!   with the derived per-day and per-hour quantities

use vstd::prelude::*;

use crate::constants::{METRIC_RATE_DENOMINATOR, METRIC_RATE_NUMERATOR, NS_PER_MS, NS_PER_SEC};
use crate::time_lib::TimeKind;

verus! {

// Converter --------------------------------------------------------------------------- /

/// A count rescaled from the origin number line to the destination one:
/// the origin count divided by the rate `num / den`, rounded down.
pub open spec fn rescale_to_dest(x: int, num: int, den: int) -> int {
    (x * den) / num
}

/// A count rescaled from the destination number line back to the origin one:
/// the destination count multiplied by the rate `num / den`, rounded up.
pub open spec fn rescale_to_origin(x: int, num: int, den: int) -> int {
    (x * num + den - 1) / den
}

/// A scalar rate between two number lines, held as the exact fraction
/// `numerator / denominator`.
///
/// Rescaling a whole number applies the rounding policy of the conversion
/// engine: the destination-from-origin direction is floored and the
/// origin-from-destination direction is ceiled. The asymmetry is what makes
/// repeated round trips through integer nanosecond counts converge instead
/// of drifting.
#[derive(Debug, Clone, Copy)]
pub struct Converter {
    numerator: u64,
    denominator: u64,
}

impl Converter {
    #[verifier::type_invariant]
    pub closed spec fn wf(self) -> bool {
        0 < self.numerator && 0 < self.denominator
    }

    pub closed spec fn spec_numerator(self) -> u64 {
        self.numerator
    }

    pub closed spec fn spec_denominator(self) -> u64 {
        self.denominator
    }

    /// Creates a converter with the rate `numerator / denominator`.
    pub fn new(numerator: u64, denominator: u64) -> (r: Self)
        requires
            0 < numerator,
            0 < denominator,
        ensures
            r.spec_numerator() == numerator,
            r.spec_denominator() == denominator,
    {
        Self { numerator, denominator }
    }

    /// The metric converter: rate 108 / 125, that is 0.864, the ratio of a
    /// metric day-fraction unit to a standard one.
    pub fn metric() -> (r: Self)
        ensures
            r.spec_numerator() == METRIC_RATE_NUMERATOR,
            r.spec_denominator() == METRIC_RATE_DENOMINATOR,
    {
        Self::new(METRIC_RATE_NUMERATOR, METRIC_RATE_DENOMINATOR)
    }

    /// The rate as its numerator and denominator.
    pub fn rate(&self) -> (r: (u64, u64))
        ensures
            r.0 == self.spec_numerator(),
            r.1 == self.spec_denominator(),
    {
        (self.numerator, self.denominator)
    }

    /// Rescales an origin count to the destination number line: divides by
    /// the rate and floors.
    pub fn to_dest_from(self, origin: u64) -> (r: u64)
        requires
            origin * self.spec_denominator() <= u64::MAX,
        ensures
            r == rescale_to_dest(
                origin as int,
                self.spec_numerator() as int,
                self.spec_denominator() as int,
            ),
    {
        proof {
            use_type_invariant(self);
        }
        (origin * self.denominator) / self.numerator
    }

    /// Rescales a destination count back to the origin number line:
    /// multiplies by the rate and ceils.
    pub fn to_origin_from(self, dest: u64) -> (r: u64)
        requires
            dest * self.spec_numerator() + self.spec_denominator() <= u64::MAX,
        ensures
            r == rescale_to_origin(
                dest as int,
                self.spec_numerator() as int,
                self.spec_denominator() as int,
            ),
    {
        proof {
            use_type_invariant(self);
        }
        (dest * self.numerator + (self.denominator - 1)) / self.denominator
    }
}

// TimeConversions --------------------------------------------------------------------------- /

/// The unit ratios of one time system: hours per day, minutes per hour and
/// seconds per minute, with the derived per-day, per-hour and per-minute
/// quantities. Seconds carry one thousand million nanoseconds in every base.
#[derive(Debug, Clone, Copy)]
pub struct TimeConversions {
    pub hr_per_day: u8,
    pub min_per_hr: u8,
    pub sec_per_min: u8,
}

/// The unit table that a time base uses: metric ratios for the metric base,
/// standard ratios for the 12-hour and 24-hour bases.
pub open spec fn spec_conversions_of(kind: TimeKind) -> TimeConversions {
    match kind {
        TimeKind::Base10 => TimeConversions { hr_per_day: 10, min_per_hr: 100, sec_per_min: 100 },
        _ => TimeConversions { hr_per_day: 24, min_per_hr: 60, sec_per_min: 60 },
    }
}

impl TimeConversions {
    /// Creates a table from the three ratios.
    pub fn new(hours_per_day: u8, minutes_per_hour: u8, seconds_per_min: u8) -> (r: Self)
        ensures
            r == (TimeConversions {
                hr_per_day: hours_per_day,
                min_per_hr: minutes_per_hour,
                sec_per_min: seconds_per_min,
            }),
    {
        TimeConversions {
            hr_per_day: hours_per_day,
            min_per_hr: minutes_per_hour,
            sec_per_min: seconds_per_min,
        }
    }

    /// The standard table: 24 hours, 60 minutes, 60 seconds.
    pub fn standard() -> (r: Self)
        ensures
            r == (TimeConversions { hr_per_day: 24, min_per_hr: 60, sec_per_min: 60 }),
    {
        TimeConversions::new(24, 60, 60)
    }

    /// The metric table: 10 hours, 100 minutes, 100 seconds.
    pub fn metric() -> (r: Self)
        ensures
            r == (TimeConversions { hr_per_day: 10, min_per_hr: 100, sec_per_min: 100 }),
    {
        TimeConversions::new(10, 100, 100)
    }

    pub fn hours_per_day(&self) -> (r: u8)
        ensures
            r == self.hr_per_day,
    {
        self.hr_per_day
    }

    pub fn min_per_hour(&self) -> (r: u8)
        ensures
            r == self.min_per_hr,
    {
        self.min_per_hr
    }

    pub fn secs_per_min(&self) -> (r: u8)
        ensures
            r == self.sec_per_min,
    {
        self.sec_per_min
    }

    /// Minutes in a day: hours per day times minutes per hour.
    pub fn mins_per_day(&self) -> (r: u16)
        ensures
            r == self.hr_per_day as int * self.min_per_hr as int,
    {
        proof {
            assert((self.hr_per_day as u16) * (self.min_per_hr as u16) <= 255 * 255)
                by (nonlinear_arith)
                requires
                    self.hr_per_day <= 255,
                    self.min_per_hr <= 255,
            ;
        }
        self.hr_per_day as u16 * self.min_per_hr as u16
    }

    /// Seconds in an hour: minutes per hour times seconds per minute.
    pub fn secs_per_hour(&self) -> (r: u32)
        ensures
            r == self.min_per_hr as int * self.sec_per_min as int,
    {
        proof {
            assert((self.min_per_hr as u32) * (self.sec_per_min as u32) <= 255 * 255)
                by (nonlinear_arith)
                requires
                    self.min_per_hr <= 255,
                    self.sec_per_min <= 255,
            ;
        }
        self.min_per_hr as u32 * self.sec_per_min as u32
    }

    /// Seconds in a day: seconds per minute times minutes per day.
    pub fn secs_per_day(&self) -> (r: u32)
        ensures
            r == self.sec_per_min as int * self.hr_per_day as int * self.min_per_hr as int,
    {
        let mins: u16 = self.mins_per_day();
        proof {
            assert((self.sec_per_min as u32) * (mins as u32) <= 255 * 65025) by (nonlinear_arith)
                requires
                    self.sec_per_min <= 255,
                    mins as int == self.hr_per_day as int * self.min_per_hr as int,
                    self.hr_per_day <= 255,
                    self.min_per_hr <= 255,
            ;
            assert((self.sec_per_min as int) * (mins as int) == (self.sec_per_min as int) * (
            self.hr_per_day as int) * (self.min_per_hr as int)) by (nonlinear_arith)
                requires
                    mins as int == self.hr_per_day as int * self.min_per_hr as int,
            ;
        }
        self.sec_per_min as u32 * mins as u32
    }

    /// Nanoseconds in a day of this system.
    pub fn ns_per_day(&self) -> (r: u64)
        ensures
            r == self.sec_per_min as int * NS_PER_SEC as int * self.min_per_hr as int
                * self.hr_per_day as int,
    {
        let per_hour: u64 = self.ns_per_hour();
        proof {
            assert(per_hour * (self.hr_per_day as u64) <= 0xffff_ffff_ffff_ffff)
                by (nonlinear_arith)
                requires
                    per_hour as int == self.sec_per_min as int * NS_PER_SEC as int
                        * self.min_per_hr as int,
                    self.sec_per_min <= 255,
                    self.min_per_hr <= 255,
                    self.hr_per_day <= 255,
            ;
            assert((per_hour as int) * (self.hr_per_day as int) == self.sec_per_min as int
                * NS_PER_SEC as int * self.min_per_hr as int * self.hr_per_day as int)
                by (nonlinear_arith)
                requires
                    per_hour as int == self.sec_per_min as int * NS_PER_SEC as int
                        * self.min_per_hr as int,
            ;
        }
        per_hour * self.hr_per_day as u64
    }

    /// Nanoseconds in an hour of this system.
    pub fn ns_per_hour(&self) -> (r: u64)
        ensures
            r == self.sec_per_min as int * NS_PER_SEC as int * self.min_per_hr as int,
    {
        let per_min: u64 = self.ns_per_min();
        proof {
            assert(per_min * (self.min_per_hr as u64) <= 255 * 1_000_000_000u64 * 255)
                by (nonlinear_arith)
                requires
                    per_min <= 255 * 1_000_000_000u64,
                    self.min_per_hr <= 255,
            ;
            assert((per_min as int) * (self.min_per_hr as int) == self.sec_per_min as int
                * NS_PER_SEC as int * self.min_per_hr as int) by (nonlinear_arith)
                requires
                    per_min as int == self.sec_per_min as int * NS_PER_SEC as int,
            ;
        }
        per_min * self.min_per_hr as u64
    }

    /// Nanoseconds in a minute of this system.
    pub fn ns_per_min(&self) -> (r: u64)
        ensures
            r == self.sec_per_min as int * NS_PER_SEC as int,
    {
        self.sec_per_min as u64 * NS_PER_SEC as u64
    }

    /// Nanoseconds in a second, the same in every system.
    pub fn ns_per_sec(&self) -> (r: u32)
        ensures
            r == NS_PER_SEC,
    {
        NS_PER_SEC
    }

    /// Nanoseconds in a millisecond, the same in every system.
    pub fn ns_per_ms(&self) -> (r: u32)
        ensures
            r == NS_PER_MS,
    {
        NS_PER_MS
    }
}

impl From<&TimeKind> for TimeConversions {
    /// The table of a time base: metric ratios for `Base10`, standard ratios
    /// otherwise.
    fn from(value: &TimeKind) -> (r: Self) {
        match value {
            TimeKind::Base10 => TimeConversions::metric(),
            _ => TimeConversions::standard(),
        }
    }
}

impl vstd::std_specs::convert::FromSpecImpl<&TimeKind> for TimeConversions {
    open spec fn obeys_from_spec() -> bool {
        true
    }

    open spec fn from_spec(value: &TimeKind) -> Self {
        spec_conversions_of(*value)
    }
}

} // verus!
