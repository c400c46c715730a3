//! Conversions between the three time bases.
//!
//! The 12-hour and 24-hour bases share one number line, so converting between
//! them only remaps the hour field through the AM/PM rule. Conversions
//! between the standard and metric lines go through a shared intermediate:
//! the count of nanoseconds since midnight, rescaled through the metric
//! [`Converter`] and decomposed back into components with the ratios of the
//! destination base.

use vstd::arithmetic::div_mod::{
    lemma_fundamental_div_mod, lemma_mod_multiples_vanish, lemma_small_mod,
};
use vstd::prelude::*;

use crate::constants::{NS_PER_DAY_METRIC, NS_PER_DAY_STANDARD, NS_PER_SEC};
use crate::time_conversions::{rescale_to_dest, rescale_to_origin, Converter, TimeConversions};
use crate::time_lib::{components_in_bounds, Period, TimeComponents, TimeKind};

verus! {

// Hour remapping between the 12-hour and 24-hour bases ------------------------- /

/// The 24-hour reading of a 12-hour value: 12 AM is hour zero, 12 PM stays
/// 12, other AM hours are unchanged, and other PM hours gain 12.
pub open spec fn to_base24_hours(hours: int, period: Period) -> int {
    match period {
        Period::AM => if hours == 12 {
            0
        } else {
            hours
        },
        Period::PM => if hours == 12 {
            12
        } else {
            hours + 12
        },
    }
}

/// The hour remapping of [`base12_to_base24`]: only the hour field changes.
pub open spec fn spec_base12_to_base24(c: TimeComponents, period: Period) -> TimeComponents {
    TimeComponents {
        hours: to_base24_hours(c.hours as int, period) as u8,
        minutes: c.minutes,
        seconds: c.seconds,
        nanoseconds: c.nanoseconds,
    }
}

/// The period a 24-hour value falls in: AM before hour 12, PM from it on.
pub open spec fn spec_base24_period(c: TimeComponents) -> Period {
    if c.hours < 12 {
        Period::AM
    } else {
        Period::PM
    }
}

/// The hour remapping of [`base24_to_base12`]: hour zero becomes 12 AM,
/// hour 12 stays 12 PM, later hours lose 12; only the hour field changes.
pub open spec fn spec_base24_to_base12(c: TimeComponents) -> TimeComponents {
    TimeComponents {
        hours: (match spec_base24_period(c) {
            Period::AM => if c.hours == 0 {
                12
            } else {
                c.hours as int
            },
            Period::PM => if c.hours == 12 {
                12
            } else {
                c.hours - 12
            },
        }) as u8,
        minutes: c.minutes,
        seconds: c.seconds,
        nanoseconds: c.nanoseconds,
    }
}

/// Whether the PM hour shift of the 12-hour remapping stays within the hour
/// field's machine range; every in-range 12-hour value satisfies this.
pub open spec fn base12_shift_fits(c: TimeComponents, period: Period) -> bool {
    period == Period::PM && c.hours != 12 ==> c.hours + 12 <= u8::MAX
}

/// Converts 12-hour components and their period to 24-hour components by the
/// AM/PM rule; minutes, seconds and nanoseconds pass through unchanged.
pub fn base12_to_base24(components: &TimeComponents, period: &Period) -> (r: TimeComponents)
    requires
        base12_shift_fits(*components, *period),
    ensures
        r == spec_base12_to_base24(*components, *period),
{
    TimeComponents {
        hours: match period {
            Period::AM => {
                if components.hours == 12 {
                    0
                } else {
                    components.hours
                }
            },
            Period::PM => {
                if components.hours == 12 {
                    components.hours
                } else {
                    components.hours + 12
                }
            },
        },
        minutes: components.minutes,
        seconds: components.seconds,
        nanoseconds: components.nanoseconds,
    }
}

/// Converts 24-hour components to 12-hour components, deriving the period
/// from the hour field; minutes, seconds and nanoseconds pass through
/// unchanged.
pub fn base24_to_base12(components: &TimeComponents) -> (r: (TimeComponents, Period))
    ensures
        r.0 == spec_base24_to_base12(*components),
        r.1 == spec_base24_period(*components),
{
    let period = if components.hours < 12 {
        Period::AM
    } else {
        Period::PM
    };
    let components = TimeComponents {
        hours: match &period {
            Period::AM => {
                if components.hours == 0 {
                    12
                } else {
                    components.hours
                }
            },
            Period::PM => {
                if components.hours == 12 {
                    components.hours
                } else {
                    components.hours - 12
                }
            },
        },
        minutes: components.minutes,
        seconds: components.seconds,
        nanoseconds: components.nanoseconds,
    };
    (components, period)
}

// Nanoseconds since midnight ----------------------------------------------------- /

/// Nanoseconds per minute on a base's own number line.
pub open spec fn spec_ns_per_min_of(kind: TimeKind) -> int {
    match kind {
        TimeKind::Base10 => 100_000_000_000,
        _ => 60_000_000_000,
    }
}

/// Nanoseconds per hour on a base's own number line.
pub open spec fn spec_ns_per_hour_of(kind: TimeKind) -> int {
    match kind {
        TimeKind::Base10 => 10_000_000_000_000,
        _ => 3_600_000_000_000,
    }
}

/// The count of nanoseconds since midnight that components of a base
/// represent: 12-hour components are first remapped to the 24-hour reading,
/// then each field is weighted by the base's own nanosecond ratios.
pub open spec fn spec_ns_since_midnight(c: TimeComponents, kind: TimeKind) -> int {
    let c24 = match kind {
        TimeKind::Base12(period) => spec_base12_to_base24(c, period),
        _ => c,
    };
    c24.hours * spec_ns_per_hour_of(kind) + c24.minutes * spec_ns_per_min_of(kind) + c24.seconds
        * (NS_PER_SEC as int) + c24.nanoseconds
}

/// Computes the total nanoseconds since midnight of components read in the
/// given base, using that base's own unit ratios.
pub fn calc_ns_since_midnight(components: &TimeComponents, kind: &TimeKind) -> (r: u64)
    requires
        match *kind {
            TimeKind::Base12(period) => base12_shift_fits(*components, period),
            _ => true,
        },
    ensures
        r == spec_ns_since_midnight(*components, *kind),
{
    let tc = TimeConversions::from(kind);
    let c24 = match kind {
        TimeKind::Base12(period) => base12_to_base24(components, period),
        _ => *components,
    };
    let per_hour: u64 = tc.ns_per_hour();
    let per_min: u64 = tc.ns_per_min();
    let per_sec: u64 = tc.ns_per_sec() as u64;
    proof {
        assert(tc == crate::time_conversions::spec_conversions_of(*kind));
        match *kind {
            TimeKind::Base10 => {
                assert(per_hour == 10_000_000_000_000) by (nonlinear_arith)
                    requires
                        per_hour as int == 100int * 1_000_000_000 * 100,
                ;
                assert(per_min == 100_000_000_000) by (nonlinear_arith)
                    requires
                        per_min as int == 100int * 1_000_000_000,
                ;
            },
            _ => {
                assert(per_hour == 3_600_000_000_000) by (nonlinear_arith)
                    requires
                        per_hour as int == 60int * 1_000_000_000 * 60,
                ;
                assert(per_min == 60_000_000_000) by (nonlinear_arith)
                    requires
                        per_min as int == 60int * 1_000_000_000,
                ;
            },
        }
        assert(per_sec == 1_000_000_000);
    }
    (c24.hours as u64) * per_hour + (c24.minutes as u64) * per_min + (c24.seconds as u64) * per_sec
        + (c24.nanoseconds as u64)
}

// Decomposition of a nanosecond count into components ------------------------- /

/// Decomposes a nanosecond count into components with the given per-hour and
/// per-minute ratios, hours first and each later field from the remainder.
///
/// Each remainder is taken modulo the *accumulated* value of the fields above
/// it, with a guard that substitutes divisor one when that value is zero. The
/// guard avoids a division by zero but collapses the remainder to zero, so a
/// count below one hour decomposes to all zeroes, and a zero minute or second
/// field zeroes everything below it. This truncation is deliberate and is
/// what later round trips must absorb.
pub open spec fn spec_decompose(v: int, per_hour: int, per_min: int) -> TimeComponents {
    let hours = v / per_hour;
    let min_remainder = if hours > 0 {
        v - hours * per_hour
    } else {
        0
    };
    let minutes = min_remainder / per_min;
    let sec_remainder = if minutes > 0 {
        min_remainder - minutes * per_min
    } else {
        0
    };
    let seconds = sec_remainder / (NS_PER_SEC as int);
    let nanoseconds = if seconds > 0 {
        sec_remainder - seconds * (NS_PER_SEC as int)
    } else {
        0
    };
    TimeComponents {
        hours: hours as u8,
        minutes: minutes as u8,
        seconds: seconds as u8,
        nanoseconds: nanoseconds as u32,
    }
}

/// A value in the band `[b, 2b)` leaves `v - b` when taken modulo `b`.
proof fn lemma_mod_in_band(v: int, b: int)
    requires
        0 < b,
        b <= v < 2 * b,
    ensures
        v % b == v - b,
{
    lemma_mod_multiples_vanish(1, v - b, b);
    lemma_small_mod((v - b) as nat, b as nat);
}

/// Every nonnegative value taken modulo one leaves zero.
proof fn lemma_mod_one(v: int)
    requires
        0 <= v,
    ensures
        v % 1 == 0,
{
    lemma_mod_multiples_vanish(v, 0, 1);
    lemma_small_mod(0, 1);
}

/// When the quotient `v / d` is at least one, `v` lies in the band between
/// the accumulated value `(v / d) * d` and its double, so taking `v` modulo
/// that accumulated value subtracts it exactly once.
proof fn lemma_guard_band(v: int, d: int)
    requires
        0 < d,
        1 <= v / d,
    ensures
        (v / d) * d <= v < 2 * ((v / d) * d),
        v % ((v / d) * d) == v - (v / d) * d,
        v - (v / d) * d < d,
{
    lemma_fundamental_div_mod(v, d);
    vstd::arithmetic::div_mod::lemma_mod_bound(v, d);
    let q = v / d;
    assert(q * d <= v && v < 2 * (q * d)) by (nonlinear_arith)
        requires
            v == d * q + v % d,
            0 <= v % d < d,
            1 <= q,
    ;
    lemma_mod_in_band(v, q * d);
}

/// Shared decomposition step of the cross-line conversions. The two ratio
/// arguments are the nanoseconds per hour and per minute of the destination
/// base.
fn decompose(total: u64, per_hour: u64, per_min: u64) -> (r: TimeComponents)
    requires
        per_hour == 10_000_000_000_000 && per_min == 100_000_000_000 || per_hour
            == 3_600_000_000_000 && per_min == 60_000_000_000,
        total < 256 * per_hour,
    ensures
        r == spec_decompose(total as int, per_hour as int, per_min as int),
{
    let hours: u64 = total / per_hour;
    proof {
        if hours > 0 {
            lemma_guard_band(total as int, per_hour as int);
        } else {
            lemma_mod_one(total as int);
        }
    }
    let min_remainder: u64 = total % (if hours > 0 {
        hours * per_hour
    } else {
        1
    });
    let minutes: u64 = min_remainder / per_min;
    proof {
        if minutes > 0 {
            lemma_guard_band(min_remainder as int, per_min as int);
        } else {
            lemma_mod_one(min_remainder as int);
        }
    }
    let sec_remainder: u64 = min_remainder % (if minutes > 0 {
        minutes * per_min
    } else {
        1
    });
    let seconds: u64 = sec_remainder / (NS_PER_SEC as u64);
    proof {
        if seconds > 0 {
            lemma_guard_band(sec_remainder as int, NS_PER_SEC as int);
        } else {
            lemma_mod_one(sec_remainder as int);
        }
    }
    let nanoseconds: u64 = sec_remainder % (if seconds > 0 {
        seconds * (NS_PER_SEC as u64)
    } else {
        1
    });
    TimeComponents {
        hours: hours as u8,
        minutes: minutes as u8,
        seconds: seconds as u8,
        nanoseconds: nanoseconds as u32,
    }
}

// Cross-line conversions ----------------------------------------------------------- /

/// A standard nanosecond count moved to the metric number line: divided by
/// the metric rate 108 / 125 and floored.
pub open spec fn metric_of_standard(x: int) -> int {
    rescale_to_dest(x, 108, 125)
}

/// A metric nanosecond count moved back to the standard number line:
/// multiplied by the metric rate 108 / 125 and ceiled.
pub open spec fn standard_of_metric(x: int) -> int {
    rescale_to_origin(x, 108, 125)
}

/// What [`base24_to_base10`] returns: the standard nanosecond count, rescaled
/// to the metric line and decomposed with metric ratios.
pub open spec fn spec_base24_to_base10(c: TimeComponents) -> TimeComponents {
    spec_decompose(
        metric_of_standard(spec_ns_since_midnight(c, TimeKind::Base24)),
        10_000_000_000_000,
        100_000_000_000,
    )
}

/// What [`base10_to_base24`] returns: the metric nanosecond count, rescaled
/// to the standard line and decomposed with standard ratios.
pub open spec fn spec_base10_to_base24(c: TimeComponents) -> TimeComponents {
    spec_decompose(
        standard_of_metric(spec_ns_since_midnight(c, TimeKind::Base10)),
        3_600_000_000_000,
        60_000_000_000,
    )
}

/// Converts 24-hour components to metric components: computes the standard
/// nanoseconds since midnight, rescales them to the metric line (floored),
/// and decomposes the result with metric ratios.
pub fn base24_to_base10(components: &TimeComponents) -> (r: TimeComponents)
    ensures
        r == spec_base24_to_base10(*components),
{
    let metric_conv = Converter::metric();
    let total_ns_std = calc_ns_since_midnight(components, &TimeKind::Base24);
    let total_ns_metric = metric_conv.to_dest_from(total_ns_std);
    decompose(total_ns_metric, 10_000_000_000_000, 100_000_000_000)
}

/// Converts metric components to 24-hour components: computes the metric
/// nanoseconds since midnight, rescales them back to the standard line
/// (ceiled), and decomposes the result with standard ratios.
///
/// The count must stay below a metric day, which holds for every in-range
/// metric value.
pub fn base10_to_base24(components: &TimeComponents) -> (r: TimeComponents)
    requires
        spec_ns_since_midnight(*components, TimeKind::Base10) < NS_PER_DAY_METRIC,
    ensures
        r == spec_base10_to_base24(*components),
{
    let metric_conv = Converter::metric();
    let total_ns_metric = calc_ns_since_midnight(components, &TimeKind::Base10);
    let total_ns_std = metric_conv.to_origin_from(total_ns_metric);
    decompose(total_ns_std, 3_600_000_000_000, 60_000_000_000)
}

// Range preservation ----------------------------------------------------------------- /

/// In-range 12-hour components remap to in-range 24-hour components.
pub proof fn lemma_base12_to_base24_in_bounds(c: TimeComponents, period: Period)
    requires
        components_in_bounds(c, TimeKind::Base12(period)),
    ensures
        components_in_bounds(spec_base12_to_base24(c, period), TimeKind::Base24),
{
}

/// In-range 24-hour components remap to in-range 12-hour components.
pub proof fn lemma_base24_to_base12_in_bounds(c: TimeComponents)
    requires
        components_in_bounds(c, TimeKind::Base24),
    ensures
        components_in_bounds(
            spec_base24_to_base12(c),
            TimeKind::Base12(spec_base24_period(c)),
        ),
{
}

/// In-range 24-hour components always convert to in-range metric components,
/// and the converted count stays at least one nanosecond short of the last
/// metric instant: the last standard instant rescales one below it, so a
/// converted value can always be converted back.
pub proof fn lemma_base24_to_base10_in_bounds(c: TimeComponents)
    requires
        components_in_bounds(c, TimeKind::Base24),
    ensures
        components_in_bounds(spec_base24_to_base10(c), TimeKind::Base10),
        spec_ns_since_midnight(spec_base24_to_base10(c), TimeKind::Base10) < NS_PER_DAY_METRIC - 1,
{
    let v = spec_ns_since_midnight(c, TimeKind::Base24);
    assert(0 <= v <= 86_399_999_999_999);
    let y = metric_of_standard(v);
    assert(y == v * 125 / 108);
    assert(0 <= y <= 99_999_999_999_998) by {
        lemma_fundamental_div_mod(v * 125, 108);
        vstd::arithmetic::div_mod::lemma_mod_bound(v * 125, 108);
    }
    lemma_decompose_in_bounds_metric(y);
}

/// In-range metric components below the last metric instant convert to
/// in-range 24-hour components. The one excluded value, the final metric
/// nanosecond of the day, rounds up to exactly one standard day, whose hour
/// field (24) has no in-range 24-hour reading.
pub proof fn lemma_base10_to_base24_in_bounds(c: TimeComponents)
    requires
        components_in_bounds(c, TimeKind::Base10),
        spec_ns_since_midnight(c, TimeKind::Base10) != NS_PER_DAY_METRIC - 1,
    ensures
        components_in_bounds(spec_base10_to_base24(c), TimeKind::Base24),
{
    let v = spec_ns_since_midnight(c, TimeKind::Base10);
    assert(0 <= v <= 99_999_999_999_998);
    let x = standard_of_metric(v);
    assert(x == (v * 108 + 124) / 125);
    assert(0 <= x <= 86_399_999_999_999) by {
        lemma_fundamental_div_mod(v * 108 + 124, 125);
        vstd::arithmetic::div_mod::lemma_mod_bound(v * 108 + 124, 125);
    }
    lemma_decompose_in_bounds_standard(x);
}

/// A count below one metric day decomposes to in-range metric components.
proof fn lemma_decompose_in_bounds_metric(y: int)
    requires
        0 <= y < NS_PER_DAY_METRIC,
    ensures
        components_in_bounds(spec_decompose(y, 10_000_000_000_000, 100_000_000_000),
            TimeKind::Base10),
        spec_ns_since_midnight(
            spec_decompose(y, 10_000_000_000_000, 100_000_000_000),
            TimeKind::Base10,
        ) <= y,
{
    let ph = 10_000_000_000_000int;
    let pm = 100_000_000_000int;
    let ns = NS_PER_SEC as int;
    lemma_fundamental_div_mod(y, ph);
    vstd::arithmetic::div_mod::lemma_mod_bound(y, ph);
    let rem1 = if y / ph > 0 { y - (y / ph) * ph } else { 0 };
    lemma_fundamental_div_mod(rem1, pm);
    vstd::arithmetic::div_mod::lemma_mod_bound(rem1, pm);
    let rem2 = if rem1 / pm > 0 { rem1 - (rem1 / pm) * pm } else { 0 };
    lemma_fundamental_div_mod(rem2, ns);
    vstd::arithmetic::div_mod::lemma_mod_bound(rem2, ns);
}

/// A count below one standard day decomposes to in-range 24-hour components.
proof fn lemma_decompose_in_bounds_standard(x: int)
    requires
        0 <= x < NS_PER_DAY_STANDARD,
    ensures
        components_in_bounds(spec_decompose(x, 3_600_000_000_000, 60_000_000_000),
            TimeKind::Base24),
{
    let ph = 3_600_000_000_000int;
    let pm = 60_000_000_000int;
    let ns = NS_PER_SEC as int;
    lemma_fundamental_div_mod(x, ph);
    vstd::arithmetic::div_mod::lemma_mod_bound(x, ph);
    let rem1 = if x / ph > 0 { x - (x / ph) * ph } else { 0 };
    lemma_fundamental_div_mod(rem1, pm);
    vstd::arithmetic::div_mod::lemma_mod_bound(rem1, pm);
    let rem2 = if rem1 / pm > 0 { rem1 - (rem1 / pm) * pm } else { 0 };
    lemma_fundamental_div_mod(rem2, ns);
    vstd::arithmetic::div_mod::lemma_mod_bound(rem2, ns);
}


} // verus!
