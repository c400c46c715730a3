//! Shared numeric constants of the time model.

use vstd::prelude::*;

verus! {

/// Nanoseconds in one millisecond.
pub const NS_PER_MS: u32 = 1_000_000;

/// Nanoseconds in one second, in every time base.
pub const NS_PER_SEC: u32 = 1_000_000_000;

/// Degrees in a full turn of a clock hand.
pub const FULL_CIRCLE_DEGREES: u64 = 360;

/// Fixed-point scale for rotation angles: an angle is stored as the number of
/// `1 / DEGREE_SCALE` degree steps, which keeps every carry in the rotation
/// formulas an exact integer.
pub const DEGREE_SCALE: u64 = 10_000_000_000_000_000;

/// Nanoseconds in a standard day (24 hours of 60 minutes of 60 seconds).
pub const NS_PER_DAY_STANDARD: u64 = 86_400_000_000_000;

/// Nanoseconds in a metric day (10 hours of 100 minutes of 100 seconds).
pub const NS_PER_DAY_METRIC: u64 = 100_000_000_000_000;

/// The metric conversion rate 0.864 (the length of a metric day unit relative
/// to a standard one) as the exact fraction 108 / 125.
pub const METRIC_RATE_NUMERATOR: u64 = 108;

/// Denominator of the metric conversion rate; see [`METRIC_RATE_NUMERATOR`].
pub const METRIC_RATE_DENOMINATOR: u64 = 125;

} // verus!
