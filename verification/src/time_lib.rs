//! Core time value types: periods, kinds, components, bounds and
//! clock-hand rotations.
//!
//! - [`Period`]: AM/PM marker for the 12-hour base
//! - [`TimeKind`]: the three time bases (metric, 12-hour, 24-hour)
//! - [`TimeComponents`]: raw hours/minutes/seconds/nanoseconds storage
//! - [`TimeBounds`]: valid component ranges per base, with a validator
//! - [`TimeRotationComponents`]: exact fixed-point clock-hand angles

use vstd::prelude::*;

use crate::constants::{DEGREE_SCALE, FULL_CIRCLE_DEGREES, NS_PER_SEC};

verus! {

// Period --------------------------------------------------------------------------- /

#[derive(Debug, Clone, Copy, PartialEq, Eq, Structural)]
pub enum Period {
    AM,
    PM,
}

impl Period {
    /// Short display text for the period.
    pub fn to_text(&self) -> (r: &'static str)
        ensures
            *self == Period::AM ==> r@ == "AM"@,
            *self == Period::PM ==> r@ == "PM"@,
    {
        match self {
            Period::AM => "AM",
            Period::PM => "PM",
        }
    }
}

// TimeKind --------------------------------------------------------------------------- /

#[derive(Debug, Clone, Copy, PartialEq, Eq, Structural)]
pub enum TimeKind {
    Base10,
    Base12(Period),
    Base24,
}

// TimeComponents --------------------------------------------------------------------------- /

/// Raw time components for hours, minutes, seconds and nanoseconds.
///
/// The fields carry no inherent validity: which values are in range depends
/// on the time base, and is decided by [`TimeBounds`].
#[derive(Debug, Clone, Copy, PartialEq, Eq, Structural)]
pub struct TimeComponents {
    pub hours: u8,
    pub minutes: u8,
    pub seconds: u8,
    pub nanoseconds: u32,
}

impl TimeComponents {
    /// Creates new components from the four raw values.
    pub fn new(hours: u8, minutes: u8, seconds: u8, nanoseconds: u32) -> (r: Self)
        ensures
            r == (TimeComponents { hours, minutes, seconds, nanoseconds }),
    {
        Self { hours, minutes, seconds, nanoseconds }
    }
}

/// Lexicographic comparison of component tuples, in the order
/// hours, minutes, seconds, nanoseconds.
pub open spec fn components_cmp(a: TimeComponents, b: TimeComponents) -> core::cmp::Ordering {
    if a.hours != b.hours {
        if a.hours < b.hours {
            core::cmp::Ordering::Less
        } else {
            core::cmp::Ordering::Greater
        }
    } else if a.minutes != b.minutes {
        if a.minutes < b.minutes {
            core::cmp::Ordering::Less
        } else {
            core::cmp::Ordering::Greater
        }
    } else if a.seconds != b.seconds {
        if a.seconds < b.seconds {
            core::cmp::Ordering::Less
        } else {
            core::cmp::Ordering::Greater
        }
    } else if a.nanoseconds != b.nanoseconds {
        if a.nanoseconds < b.nanoseconds {
            core::cmp::Ordering::Less
        } else {
            core::cmp::Ordering::Greater
        }
    } else {
        core::cmp::Ordering::Equal
    }
}

impl PartialOrd for TimeComponents {
    fn partial_cmp(&self, other: &Self) -> (r: Option<core::cmp::Ordering>) {
        if self.hours != other.hours {
            if self.hours < other.hours {
                Some(core::cmp::Ordering::Less)
            } else {
                Some(core::cmp::Ordering::Greater)
            }
        } else if self.minutes != other.minutes {
            if self.minutes < other.minutes {
                Some(core::cmp::Ordering::Less)
            } else {
                Some(core::cmp::Ordering::Greater)
            }
        } else if self.seconds != other.seconds {
            if self.seconds < other.seconds {
                Some(core::cmp::Ordering::Less)
            } else {
                Some(core::cmp::Ordering::Greater)
            }
        } else if self.nanoseconds != other.nanoseconds {
            if self.nanoseconds < other.nanoseconds {
                Some(core::cmp::Ordering::Less)
            } else {
                Some(core::cmp::Ordering::Greater)
            }
        } else {
            Some(core::cmp::Ordering::Equal)
        }
    }
}

impl vstd::std_specs::cmp::PartialOrdSpecImpl for TimeComponents {
    open spec fn obeys_partial_cmp_spec() -> bool {
        true
    }

    open spec fn partial_cmp_spec(&self, other: &Self) -> Option<core::cmp::Ordering> {
        Some(components_cmp(*self, *other))
    }
}

// TimeRangeError --------------------------------------------------------------------------- /

#[derive(Debug, Clone, Copy, PartialEq, Eq, Structural)]
pub enum TimeRangeError {
    HoursLow,
    HoursHigh,
    MintuesLow,
    MintuesHigh,
    SecondsLow,
    SecondsHigh,
    NanosecondsLow,
    NanosecondsHigh,
}

// TimeBounds --------------------------------------------------------------------------- /

/// Inclusive lower bound of the hours range of a base.
pub open spec fn hours_lo(kind: TimeKind) -> int {
    match kind {
        TimeKind::Base10 => 0,
        TimeKind::Base12(_) => 1,
        TimeKind::Base24 => 0,
    }
}

/// Exclusive upper bound of the hours range of a base.
pub open spec fn hours_hi(kind: TimeKind) -> int {
    match kind {
        TimeKind::Base10 => 10,
        TimeKind::Base12(_) => 13,
        TimeKind::Base24 => 24,
    }
}

/// Exclusive upper bound of the minutes range of a base.
pub open spec fn minutes_hi(kind: TimeKind) -> int {
    match kind {
        TimeKind::Base10 => 100,
        TimeKind::Base12(_) => 60,
        TimeKind::Base24 => 60,
    }
}

/// Exclusive upper bound of the seconds range of a base.
pub open spec fn seconds_hi(kind: TimeKind) -> int {
    match kind {
        TimeKind::Base10 => 100,
        TimeKind::Base12(_) => 60,
        TimeKind::Base24 => 60,
    }
}

/// Whether every field of `c` lies within the bounds table of `kind`.
pub open spec fn components_in_bounds(c: TimeComponents, kind: TimeKind) -> bool {
    &&& hours_lo(kind) <= c.hours < hours_hi(kind)
    &&& c.minutes < minutes_hi(kind)
    &&& c.seconds < seconds_hi(kind)
    &&& c.nanoseconds < NS_PER_SEC
}

/// Relies on the std `Clone` impl for `Range`, which clones the two
/// endpoints; needed by the derived `Clone` of [`TimeBounds`].
pub assume_specification<Idx: Clone>[ <core::ops::Range<Idx> as Clone>::clone ](
    r: &core::ops::Range<Idx>,
) -> core::ops::Range<Idx>;

/// Valid ranges for time components in one time base.
///
/// Each range is half-open; a component is in range when it is at least the
/// range's start and strictly below its end.
#[derive(Debug, Clone)]
pub struct TimeBounds {
    pub hours: core::ops::Range<u8>,
    pub minutes: core::ops::Range<u8>,
    pub seconds: core::ops::Range<u8>,
    pub nanoseconds: core::ops::Range<u32>,
}

/// The outcome of checking components against explicit bounds, testing the
/// fields in the fixed order hours, minutes, seconds, nanoseconds and
/// reporting the first failure as its low/high variant.
pub open spec fn spec_check(
    bounds: TimeBounds,
    c: TimeComponents,
) -> Result<TimeComponents, TimeRangeError> {
    if c.hours < bounds.hours.start {
        Err(TimeRangeError::HoursLow)
    } else if c.hours >= bounds.hours.end {
        Err(TimeRangeError::HoursHigh)
    } else if c.minutes < bounds.minutes.start {
        Err(TimeRangeError::MintuesLow)
    } else if c.minutes >= bounds.minutes.end {
        Err(TimeRangeError::MintuesHigh)
    } else if c.seconds < bounds.seconds.start {
        Err(TimeRangeError::SecondsLow)
    } else if c.seconds >= bounds.seconds.end {
        Err(TimeRangeError::SecondsHigh)
    } else if c.nanoseconds < bounds.nanoseconds.start {
        Err(TimeRangeError::NanosecondsLow)
    } else if c.nanoseconds >= bounds.nanoseconds.end {
        Err(TimeRangeError::NanosecondsHigh)
    } else {
        Ok(c)
    }
}

impl TimeBounds {
    /// Creates the bounds table of one time base.
    pub fn new(kind: TimeKind) -> (r: Self)
        ensures
            r.hours.start == hours_lo(kind),
            r.hours.end == hours_hi(kind),
            r.minutes.start == 0,
            r.minutes.end == minutes_hi(kind),
            r.seconds.start == 0,
            r.seconds.end == seconds_hi(kind),
            r.nanoseconds.start == 0,
            r.nanoseconds.end == NS_PER_SEC,
    {
        match kind {
            TimeKind::Base10 => Self {
                hours: 0u8..10u8,
                minutes: 0u8..100u8,
                seconds: 0u8..100u8,
                nanoseconds: 0u32..NS_PER_SEC,
            },
            TimeKind::Base12(_) => Self {
                hours: 1u8..13u8,
                minutes: 0u8..60u8,
                seconds: 0u8..60u8,
                nanoseconds: 0u32..NS_PER_SEC,
            },
            TimeKind::Base24 => Self {
                hours: 0u8..24u8,
                minutes: 0u8..60u8,
                seconds: 0u8..60u8,
                nanoseconds: 0u32..NS_PER_SEC,
            },
        }
    }

    /// Validates components against these bounds, field by field in the order
    /// hours, minutes, seconds, nanoseconds, and reports the first field out
    /// of range as that field's low or high error.
    pub fn check(&self, components: TimeComponents) -> (r: Result<TimeComponents, TimeRangeError>)
        ensures
            r == spec_check(*self, components),
    {
        if components.hours < self.hours.start {
            return Err(TimeRangeError::HoursLow);
        }
        if components.hours >= self.hours.end {
            return Err(TimeRangeError::HoursHigh);
        }
        if components.minutes < self.minutes.start {
            return Err(TimeRangeError::MintuesLow);
        }
        if components.minutes >= self.minutes.end {
            return Err(TimeRangeError::MintuesHigh);
        }
        if components.seconds < self.seconds.start {
            return Err(TimeRangeError::SecondsLow);
        }
        if components.seconds >= self.seconds.end {
            return Err(TimeRangeError::SecondsHigh);
        }
        if components.nanoseconds < self.nanoseconds.start {
            return Err(TimeRangeError::NanosecondsLow);
        }
        if components.nanoseconds >= self.nanoseconds.end {
            return Err(TimeRangeError::NanosecondsHigh);
        }
        Ok(components)
    }
}

/// For every kind and components, a bounds table as built by
/// [`TimeBounds::new`] accepts the components if and only if every field lies
/// in the kind's range; otherwise it reports the lowest-ordered failing
/// field's low or high variant. The minutes, seconds and nanoseconds ranges
/// start at zero, so their low variants can never occur.
pub proof fn lemma_check_is_exact(kind: TimeKind, b: TimeBounds, c: TimeComponents)
    requires
        b.hours.start == hours_lo(kind),
        b.hours.end == hours_hi(kind),
        b.minutes.start == 0,
        b.minutes.end == minutes_hi(kind),
        b.seconds.start == 0,
        b.seconds.end == seconds_hi(kind),
        b.nanoseconds.start == 0,
        b.nanoseconds.end == NS_PER_SEC,
    ensures
        ({
            let r = spec_check(b, c);
            &&& (r == Ok::<TimeComponents, TimeRangeError>(c)) <==> components_in_bounds(c, kind)
            &&& r.is_ok() <==> components_in_bounds(c, kind)
            &&& (r == Err::<TimeComponents, TimeRangeError>(TimeRangeError::HoursLow)) <==> c.hours
                < hours_lo(kind)
            &&& (r == Err::<TimeComponents, TimeRangeError>(TimeRangeError::HoursHigh)) <==> c.hours
                >= hours_hi(kind)
            &&& r != Err::<TimeComponents, TimeRangeError>(TimeRangeError::MintuesLow)
            &&& (r == Err::<TimeComponents, TimeRangeError>(TimeRangeError::MintuesHigh)) <==> (
            hours_lo(kind) <= c.hours < hours_hi(kind) && c.minutes >= minutes_hi(kind))
            &&& r != Err::<TimeComponents, TimeRangeError>(TimeRangeError::SecondsLow)
            &&& (r == Err::<TimeComponents, TimeRangeError>(TimeRangeError::SecondsHigh)) <==> (
            hours_lo(kind) <= c.hours < hours_hi(kind) && c.minutes < minutes_hi(kind) && c.seconds
                >= seconds_hi(kind))
            &&& r != Err::<TimeComponents, TimeRangeError>(TimeRangeError::NanosecondsLow)
            &&& (r == Err::<TimeComponents, TimeRangeError>(TimeRangeError::NanosecondsHigh)) <==> (
            hours_lo(kind) <= c.hours < hours_hi(kind) && c.minutes < minutes_hi(kind) && c.seconds
                < seconds_hi(kind) && c.nanoseconds >= NS_PER_SEC)
        }),
{
}

// TimeRotationComponents --------------------------------------------------------------------------- /

/// Width of the hours range of a base (the number of hour values on the dial).
pub open spec fn hours_span(kind: TimeKind) -> int {
    hours_hi(kind) - hours_lo(kind)
}

/// Nanoseconds hand angle, in `1 / DEGREE_SCALE` degree steps: the fraction
/// of a second completed, times a full circle.
pub open spec fn nanoseconds_angle(c: TimeComponents) -> int {
    c.nanoseconds * ((FULL_CIRCLE_DEGREES * DEGREE_SCALE) as int / (NS_PER_SEC as int))
}

/// Seconds hand angle: the seconds fraction of a minute times a full circle,
/// plus one hundredth of the nanoseconds angle as a fractional carry.
pub open spec fn seconds_angle(c: TimeComponents, kind: TimeKind) -> int {
    c.seconds * ((FULL_CIRCLE_DEGREES * DEGREE_SCALE) as int / seconds_hi(kind))
        + nanoseconds_angle(c) / 100
}

/// Minutes hand angle: the minutes fraction of an hour times a full circle,
/// plus one hundredth of the seconds angle as a fractional carry.
pub open spec fn minutes_angle(c: TimeComponents, kind: TimeKind) -> int {
    c.minutes * ((FULL_CIRCLE_DEGREES * DEGREE_SCALE) as int / minutes_hi(kind))
        + seconds_angle(c, kind) / 100
}

/// Hours hand angle: the hours fraction of the dial times a full circle, plus
/// one hundredth of the minutes angle as a fractional carry.
pub open spec fn hours_angle(c: TimeComponents, kind: TimeKind) -> int {
    c.hours * ((FULL_CIRCLE_DEGREES * DEGREE_SCALE) as int / hours_span(kind))
        + minutes_angle(c, kind) / 100
}

/// Rotational angles for the four clock hands, as exact fixed-point degrees.
///
/// Each angle is stored in `1 / DEGREE_SCALE` degree steps; dividing by
/// [`DEGREE_SCALE`] gives degrees, normally in `[0, 360)`. One caveat: the
/// 12-hour dial reads hours from 1 to 12, so at twelve o'clock the hours
/// hand stands at a full 360 degrees (plus carry) rather than wrapping to
/// zero. The carries cascade: the nanosecond fraction feeds the seconds
/// angle, the seconds fraction feeds the minutes angle, and the minutes
/// fraction feeds the hours angle, each scaled by one hundredth, so hands
/// move continuously.
#[derive(Debug, Clone, Copy, PartialEq, Eq, Structural)]
pub struct TimeRotationComponents {
    hours: u64,
    minutes: u64,
    seconds: u64,
    nanoseconds: u64,
}

impl TimeRotationComponents {
    pub closed spec fn spec_hours(self) -> int {
        self.hours as int
    }

    pub closed spec fn spec_minutes(self) -> int {
        self.minutes as int
    }

    pub closed spec fn spec_seconds(self) -> int {
        self.seconds as int
    }

    pub closed spec fn spec_nanoseconds(self) -> int {
        self.nanoseconds as int
    }

    /// Derives the hand angles of components read on the given dial.
    pub fn new(components: TimeComponents, kind: TimeKind) -> (r: Self)
        requires
            components_in_bounds(components, kind),
        ensures
            r.spec_hours() == hours_angle(components, kind),
            r.spec_minutes() == minutes_angle(components, kind),
            r.spec_seconds() == seconds_angle(components, kind),
            r.spec_nanoseconds() == nanoseconds_angle(components),
    {
        let full: u64 = FULL_CIRCLE_DEGREES * DEGREE_SCALE;
        let hours_unit: u64 = match kind {
            TimeKind::Base10 => full / 10,
            TimeKind::Base12(_) => full / 12,
            TimeKind::Base24 => full / 24,
        };
        let minutes_unit: u64 = match kind {
            TimeKind::Base10 => full / 100,
            _ => full / 60,
        };
        let seconds_unit: u64 = minutes_unit;
        let nanoseconds_unit: u64 = full / (NS_PER_SEC as u64);
        proof {
            assert(nanoseconds_unit == 3_600_000_000);
            assert(hours_unit <= 360_000_000_000_000_000);
            assert(minutes_unit <= 60_000_000_000_000_000);
            assert((components.hours as u64) * hours_unit <= 23 * 360_000_000_000_000_000)
                by (nonlinear_arith)
                requires
                    components.hours <= 23,
                    hours_unit <= 360_000_000_000_000_000,
            ;
            assert((components.minutes as u64) * minutes_unit <= 99 * 60_000_000_000_000_000)
                by (nonlinear_arith)
                requires
                    components.minutes <= 99,
                    minutes_unit <= 60_000_000_000_000_000,
            ;
            assert((components.seconds as u64) * seconds_unit <= 99 * 60_000_000_000_000_000)
                by (nonlinear_arith)
                requires
                    components.seconds <= 99,
                    seconds_unit <= 60_000_000_000_000_000,
            ;
        }
        let nanoseconds: u64 = (components.nanoseconds as u64) * nanoseconds_unit;
        let seconds: u64 = (components.seconds as u64) * seconds_unit + nanoseconds / 100;
        let minutes: u64 = (components.minutes as u64) * minutes_unit + seconds / 100;
        let hours: u64 = (components.hours as u64) * hours_unit + minutes / 100;
        Self { hours, minutes, seconds, nanoseconds }
    }

    /// The hours hand angle, in `1 / DEGREE_SCALE` degree steps.
    pub fn hours(&self) -> (r: u64)
        ensures
            r == self.spec_hours(),
    {
        self.hours
    }

    /// The minutes hand angle, in `1 / DEGREE_SCALE` degree steps.
    pub fn minutes(&self) -> (r: u64)
        ensures
            r == self.spec_minutes(),
    {
        self.minutes
    }

    /// The seconds hand angle, in `1 / DEGREE_SCALE` degree steps.
    pub fn seconds(&self) -> (r: u64)
        ensures
            r == self.spec_seconds(),
    {
        self.seconds
    }

    /// The nanoseconds hand angle, in `1 / DEGREE_SCALE` degree steps.
    pub fn nanoseconds(&self) -> (r: u64)
        ensures
            r == self.spec_nanoseconds(),
    {
        self.nanoseconds
    }
}

// TimeConversionTrait --------------------------------------------------------------------------- /

/// Conversion of a value into another time base.
///
/// The two spec methods let each implementation state exactly which
/// conversions it accepts and what the converted value is.
pub trait TimeConversionTrait: Sized {
    /// Which target kinds the value may be converted to.
    spec fn to_req(&self, kind: TimeKind) -> bool;

    /// What the converted value is.
    spec fn to_ens(&self, kind: TimeKind, r: Self) -> bool;

    /// Converts the value to the given time base.
    fn to(&self, kind: TimeKind) -> (r: Self)
        requires
            self.to_req(kind),
        ensures
            self.to_ens(kind, r),
    ;
}

} // verus!
