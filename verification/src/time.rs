//! The validated, ordered [`Time`] value type.
//!
//! A `Time` bundles components with the base they are expressed in; its
//! stored components always satisfy the bounds of its stored kind, enforced
//! once at construction and never re-checked after. It can be converted to
//! any base while preserving the instant represented, derive clock-hand
//! rotations, and be compared with other values.

use chrono::Timelike;
use vstd::prelude::*;

use crate::constants::{NS_PER_DAY_METRIC, NS_PER_SEC};
use crate::conversion_utils::{
    base10_to_base24, base12_to_base24, base24_to_base10, base24_to_base12,
    lemma_base10_to_base24_in_bounds, lemma_base12_to_base24_in_bounds,
    lemma_base24_to_base10_in_bounds, lemma_base24_to_base12_in_bounds, spec_base10_to_base24,
    spec_base12_to_base24, spec_base24_period, spec_base24_to_base12, spec_base24_to_base10,
    spec_ns_since_midnight,
};
use crate::time_lib::{
    components_cmp, components_in_bounds, hours_hi, hours_lo, minutes_hi, seconds_hi,
    Period, TimeBounds, TimeComponents, TimeConversionTrait, TimeKind,
    TimeRangeError, TimeRotationComponents,
};

verus! {

// Validation ----------------------------------------------------------------------- /

/// The outcome of validating components for a base: the first field out of
/// the base's range decides the error, in the order hours, minutes, seconds,
/// nanoseconds. The minutes, seconds and nanoseconds ranges start at zero, so
/// only their high variants can occur.
pub open spec fn spec_validate(c: TimeComponents, kind: TimeKind) -> Result<
    TimeComponents,
    TimeRangeError,
> {
    if c.hours < hours_lo(kind) {
        Err(TimeRangeError::HoursLow)
    } else if c.hours >= hours_hi(kind) {
        Err(TimeRangeError::HoursHigh)
    } else if c.minutes >= minutes_hi(kind) {
        Err(TimeRangeError::MintuesHigh)
    } else if c.seconds >= seconds_hi(kind) {
        Err(TimeRangeError::SecondsHigh)
    } else if c.nanoseconds >= NS_PER_SEC {
        Err(TimeRangeError::NanosecondsHigh)
    } else {
        Ok(c)
    }
}

// Time --------------------------------------------------------------------------- /

/// A point-in-time value in one of the three bases.
///
/// Immutable and copyable; ordering and equality are structural on
/// `(components, kind)`. Comparing values of different kinds compares raw
/// component tuples, which is numerically meaningful only after converting
/// both to a common base — callers are expected to convert before comparing.
#[derive(Debug, Clone, Copy, PartialEq, Eq, Structural)]
pub struct Time {
    components: TimeComponents,
    kind: TimeKind,
}

/// The last metric instant of the day: the one in-range metric value whose
/// 24-hour conversion would round up to a full day and so has no in-range
/// 24-hour reading.
pub open spec fn last_metric_instant() -> TimeComponents {
    TimeComponents { hours: 9, minutes: 99, seconds: 99, nanoseconds: 999_999_999 }
}

impl Time {
    /// A stored value always satisfies the bounds of its stored kind.
    #[verifier::type_invariant]
    pub closed spec fn wf(self) -> bool {
        components_in_bounds(self.components, self.kind)
    }

    pub closed spec fn spec_components(self) -> TimeComponents {
        self.components
    }

    pub closed spec fn spec_kind(self) -> TimeKind {
        self.kind
    }

    /// Creates a time from components read in the given base, validating the
    /// components against the base's bounds first.
    pub fn new(components: TimeComponents, kind: TimeKind) -> (r: Result<Self, TimeRangeError>)
        ensures
            r.is_ok() <==> components_in_bounds(components, kind),
            r matches Ok(t) ==> t.spec_components() == components && t.spec_kind() == kind,
            r matches Err(e) ==> spec_validate(components, kind) == Err::<
                TimeComponents,
                TimeRangeError,
            >(e),
    {
        match TimeBounds::new(kind).check(components) {
            Ok(components) => Ok(Self { components, kind }),
            Err(err) => Err(err),
        }
    }

    /// Creates a metric (decimal) time.
    pub fn base10(components: TimeComponents) -> (r: Result<Self, TimeRangeError>)
        ensures
            r.is_ok() <==> components_in_bounds(components, TimeKind::Base10),
            r matches Ok(t) ==> t.spec_components() == components && t.spec_kind()
                == TimeKind::Base10,
            r matches Err(e) ==> spec_validate(components, TimeKind::Base10) == Err::<
                TimeComponents,
                TimeRangeError,
            >(e),
    {
        Self::new(components, TimeKind::Base10)
    }

    /// Creates a 12-hour time in the given period.
    pub fn base12(components: TimeComponents, period: Period) -> (r: Result<Self, TimeRangeError>)
        ensures
            r.is_ok() <==> components_in_bounds(components, TimeKind::Base12(period)),
            r matches Ok(t) ==> t.spec_components() == components && t.spec_kind()
                == TimeKind::Base12(period),
            r matches Err(e) ==> spec_validate(components, TimeKind::Base12(period)) == Err::<
                TimeComponents,
                TimeRangeError,
            >(e),
    {
        Self::new(components, TimeKind::Base12(period))
    }

    /// Creates a 24-hour time.
    pub fn base24(components: TimeComponents) -> (r: Result<Self, TimeRangeError>)
        ensures
            r.is_ok() <==> components_in_bounds(components, TimeKind::Base24),
            r matches Ok(t) ==> t.spec_components() == components && t.spec_kind()
                == TimeKind::Base24,
            r matches Err(e) ==> spec_validate(components, TimeKind::Base24) == Err::<
                TimeComponents,
                TimeRangeError,
            >(e),
    {
        Self::new(components, TimeKind::Base24)
    }

    /// Reads the host's local wall-clock time of day as a 24-hour time.
    ///
    /// The host clock always yields in-range values; a leap-second reading,
    /// which the host represents with an overlong nanosecond field, is folded
    /// into the last nanosecond of the ordinary range.
    pub fn now() -> (r: Self)
        ensures
            r.spec_kind() == TimeKind::Base24,
    {
        let (h, m, s, ns) = local_time_parts();
        let nanoseconds: u32 = if ns >= NS_PER_SEC {
            NS_PER_SEC - 1
        } else {
            ns
        };
        let components = TimeComponents {
            hours: h as u8,
            minutes: m as u8,
            seconds: s as u8,
            nanoseconds,
        };
        Self { components, kind: TimeKind::Base24 }
    }

    // -------------------------------------------- /

    /// The time components of this value.
    pub fn components(&self) -> (r: TimeComponents)
        ensures
            r == self.spec_components(),
    {
        self.components
    }

    /// The base this value is expressed in.
    pub fn kind(&self) -> (r: TimeKind)
        ensures
            r == self.spec_kind(),
    {
        self.kind
    }

    // -------------------------------------------- /

    /// The hours component.
    pub fn hours(&self) -> (r: u8)
        ensures
            r == self.spec_components().hours,
    {
        self.components.hours
    }

    /// The minutes component.
    pub fn minutes(&self) -> (r: u8)
        ensures
            r == self.spec_components().minutes,
    {
        self.components.minutes
    }

    /// The seconds component.
    pub fn seconds(&self) -> (r: u8)
        ensures
            r == self.spec_components().seconds,
    {
        self.components.seconds
    }

    /// The nanoseconds component.
    pub fn nanoseconds(&self) -> (r: u32)
        ensures
            r == self.spec_components().nanoseconds,
    {
        self.components.nanoseconds
    }

    // -------------------------------------------- /

    /// The clock-hand rotation angles of this value on its own dial.
    pub fn rotations(&self) -> (r: TimeRotationComponents)
        ensures
            r.spec_hours() == crate::time_lib::hours_angle(
                self.spec_components(),
                self.spec_kind(),
            ),
            r.spec_minutes() == crate::time_lib::minutes_angle(
                self.spec_components(),
                self.spec_kind(),
            ),
            r.spec_seconds() == crate::time_lib::seconds_angle(
                self.spec_components(),
                self.spec_kind(),
            ),
            r.spec_nanoseconds() == crate::time_lib::nanoseconds_angle(self.spec_components()),
    {
        proof {
            use_type_invariant(self);
        }
        TimeRotationComponents::new(self.components, self.kind)
    }
}

// Wall clock ----------------------------------------------------------------------- /

/// Relies on chrono's `Local::now().time()` and the `Timelike` accessors of
/// the returned time of day: `hour` is below 24, `minute` and `second` are
/// below 60, and `nanosecond` is below two thousand million (the range above
/// the ordinary one billion represents a leap second).
#[verifier::external_body]
fn local_time_parts() -> (r: (u32, u32, u32, u32))
    ensures
        r.0 < 24,
        r.1 < 60,
        r.2 < 60,
        r.3 < 2_000_000_000,
{
    let t = chrono::Local::now().time();
    (t.hour(), t.minute(), t.second(), t.nanosecond())
}

// Conversion ----------------------------------------------------------------------- /

impl TimeConversionTrait for Time {
    /// Every conversion is accepted except moving the last metric instant of
    /// the day to the 24-hour base: its count rounds up to a full standard
    /// day, whose hour field has no in-range 24-hour reading.
    open spec fn to_req(&self, kind: TimeKind) -> bool {
        !(self.spec_kind() == TimeKind::Base10 && kind == TimeKind::Base24
            && self.spec_components() == last_metric_instant())
    }

    /// The converted value: the identity on the source's own base, the hour
    /// remapping between the 12-hour and 24-hour bases, the rescaled
    /// decomposition between the standard and metric lines, and their
    /// composition through the 24-hour base between the 12-hour and metric
    /// bases. A conversion to the 12-hour base derives the period from the
    /// 24-hour reading; the period of the requested kind is ignored.
    open spec fn to_ens(&self, kind: TimeKind, r: Self) -> bool {
        match (self.spec_kind(), kind) {
            (TimeKind::Base10, TimeKind::Base10) => r == *self,
            (TimeKind::Base10, TimeKind::Base12(_)) => {
                let c24 = spec_base10_to_base24(self.spec_components());
                r.spec_components() == spec_base24_to_base12(c24) && r.spec_kind()
                    == TimeKind::Base12(spec_base24_period(c24))
            },
            (TimeKind::Base10, TimeKind::Base24) => r.spec_components() == spec_base10_to_base24(
                self.spec_components(),
            ) && r.spec_kind() == TimeKind::Base24,
            (TimeKind::Base12(period), TimeKind::Base10) => r.spec_components()
                == spec_base24_to_base10(spec_base12_to_base24(self.spec_components(), period))
                && r.spec_kind() == TimeKind::Base10,
            (TimeKind::Base12(_), TimeKind::Base12(_)) => r == *self,
            (TimeKind::Base12(period), TimeKind::Base24) => r.spec_components()
                == spec_base12_to_base24(self.spec_components(), period) && r.spec_kind()
                == TimeKind::Base24,
            (TimeKind::Base24, TimeKind::Base10) => r.spec_components() == spec_base24_to_base10(
                self.spec_components(),
            ) && r.spec_kind() == TimeKind::Base10,
            (TimeKind::Base24, TimeKind::Base12(_)) => r.spec_components()
                == spec_base24_to_base12(self.spec_components()) && r.spec_kind()
                == TimeKind::Base12(spec_base24_period(self.spec_components())),
            (TimeKind::Base24, TimeKind::Base24) => r == *self,
        }
    }

    /// Converts this time to the given base, preserving the instant
    /// represented.
    fn to(&self, kind: TimeKind) -> (r: Self) {
        proof {
            use_type_invariant(self);
        }
        match self.kind {
            TimeKind::Base10 => match kind {
                TimeKind::Base10 => *self,
                TimeKind::Base12(_) => {
                    proof {
                        lemma_valid_metric_count(self.components);
                        lemma_base10_to_base24_in_bounds_or_day(self.components);
                    }
                    let components_24 = base10_to_base24(&self.components);
                    let (components, period) = base24_to_base12(&components_24);
                    proof {
                        lemma_base24_to_base12_in_bounds_or_day(components_24);
                    }
                    Self { components, kind: TimeKind::Base12(period) }
                },
                TimeKind::Base24 => {
                    proof {
                        lemma_valid_metric_count(self.components);
                        lemma_base10_to_base24_in_bounds(self.components);
                    }
                    let components = base10_to_base24(&self.components);
                    Self { components, kind: TimeKind::Base24 }
                },
            },
            TimeKind::Base12(period) => match kind {
                TimeKind::Base10 => {
                    proof {
                        lemma_base12_to_base24_in_bounds(self.components, period);
                        lemma_base24_to_base10_in_bounds(
                            spec_base12_to_base24(self.components, period),
                        );
                    }
                    let components_24 = base12_to_base24(&self.components, &period);
                    let components = base24_to_base10(&components_24);
                    Self { components, kind: TimeKind::Base10 }
                },
                TimeKind::Base12(_) => *self,
                TimeKind::Base24 => {
                    proof {
                        lemma_base12_to_base24_in_bounds(self.components, period);
                    }
                    let components = base12_to_base24(&self.components, &period);
                    Self { components, kind: TimeKind::Base24 }
                },
            },
            TimeKind::Base24 => match kind {
                TimeKind::Base10 => {
                    proof {
                        lemma_base24_to_base10_in_bounds(self.components);
                    }
                    let components = base24_to_base10(&self.components);
                    Self { components, kind: TimeKind::Base10 }
                },
                TimeKind::Base12(_) => {
                    proof {
                        lemma_base24_to_base12_in_bounds(self.components);
                    }
                    let (components, period) = base24_to_base12(&self.components);
                    Self { components, kind: TimeKind::Base12(period) }
                },
                TimeKind::Base24 => *self,
            },
        }
    }
}

// Ordering ----------------------------------------------------------------------- /

/// Rank of a kind in the structural order of time values:
/// metric first, then 12-hour AM, 12-hour PM, and 24-hour.
pub open spec fn kind_rank(kind: TimeKind) -> int {
    match kind {
        TimeKind::Base10 => 0,
        TimeKind::Base12(Period::AM) => 1,
        TimeKind::Base12(Period::PM) => 2,
        TimeKind::Base24 => 3,
    }
}

/// Structural comparison of time values: lexicographic on the component
/// tuple first, then on the kind's rank.
pub open spec fn time_cmp(a: Time, b: Time) -> core::cmp::Ordering {
    if components_cmp(a.spec_components(), b.spec_components()) != core::cmp::Ordering::Equal {
        components_cmp(a.spec_components(), b.spec_components())
    } else if kind_rank(a.spec_kind()) < kind_rank(b.spec_kind()) {
        core::cmp::Ordering::Less
    } else if kind_rank(a.spec_kind()) > kind_rank(b.spec_kind()) {
        core::cmp::Ordering::Greater
    } else {
        core::cmp::Ordering::Equal
    }
}

impl PartialOrd for Time {
    fn partial_cmp(&self, other: &Self) -> (r: Option<core::cmp::Ordering>) {
        let c = self.components.partial_cmp(&other.components);
        match c {
            Some(core::cmp::Ordering::Equal) => {
                let ra = rank_of(&self.kind);
                let rb = rank_of(&other.kind);
                if ra < rb {
                    Some(core::cmp::Ordering::Less)
                } else if ra > rb {
                    Some(core::cmp::Ordering::Greater)
                } else {
                    Some(core::cmp::Ordering::Equal)
                }
            },
            _ => c,
        }
    }
}

impl vstd::std_specs::cmp::PartialOrdSpecImpl for Time {
    open spec fn obeys_partial_cmp_spec() -> bool {
        true
    }

    open spec fn partial_cmp_spec(&self, other: &Self) -> Option<core::cmp::Ordering> {
        Some(time_cmp(*self, *other))
    }
}

/// Exec counterpart of [`kind_rank`].
fn rank_of(kind: &TimeKind) -> (r: u8)
    ensures
        r == kind_rank(*kind),
{
    match kind {
        TimeKind::Base10 => 0,
        TimeKind::Base12(Period::AM) => 1,
        TimeKind::Base12(Period::PM) => 2,
        TimeKind::Base24 => 3,
    }
}

/// Two time values of the same kind compare exactly as their component
/// tuples compare lexicographically, in the order hours, minutes, seconds,
/// nanoseconds; in particular `a < b` holds if and only if `a`'s tuple is
/// lexicographically smaller.
pub proof fn lemma_same_kind_order_is_lexicographic(a: Time, b: Time)
    requires
        a.spec_kind() == b.spec_kind(),
    ensures
        vstd::std_specs::cmp::PartialOrdSpec::partial_cmp_spec(&a, &b) == Some(
            components_cmp(a.spec_components(), b.spec_components()),
        ),
{
}

/// An in-range metric value's count stays below a metric day, and reaches the
/// last count of the day only for the last metric instant.
proof fn lemma_valid_metric_count(c: TimeComponents)
    requires
        components_in_bounds(c, TimeKind::Base10),
    ensures
        spec_ns_since_midnight(c, TimeKind::Base10) < NS_PER_DAY_METRIC,
        spec_ns_since_midnight(c, TimeKind::Base10) == NS_PER_DAY_METRIC - 1 <==> c
            == last_metric_instant(),
{
}

/// A 12-hour reading derived from in-range or exactly-one-day 24-hour
/// components is in range: the hour field 24 of a full day reads as 12 PM.
proof fn lemma_base24_to_base12_in_bounds_or_day(c: TimeComponents)
    requires
        components_in_bounds(c, TimeKind::Base24) || c == (TimeComponents {
            hours: 24,
            minutes: 0,
            seconds: 0,
            nanoseconds: 0,
        }),
    ensures
        components_in_bounds(
            spec_base24_to_base12(c),
            TimeKind::Base12(spec_base24_period(c)),
        ),
{
}

/// The 24-hour decomposition of an in-range metric value is in range, except
/// for the last metric instant, which decomposes to exactly one day.
proof fn lemma_base10_to_base24_in_bounds_or_day(c: TimeComponents)
    requires
        components_in_bounds(c, TimeKind::Base10),
    ensures
        components_in_bounds(spec_base10_to_base24(c), TimeKind::Base24) || spec_base10_to_base24(
            c,
        ) == (TimeComponents { hours: 24, minutes: 0, seconds: 0, nanoseconds: 0 }),
{
    lemma_valid_metric_count(c);
    if spec_ns_since_midnight(c, TimeKind::Base10) == NS_PER_DAY_METRIC - 1 {
        assert(spec_base10_to_base24(c) == (TimeComponents {
            hours: 24,
            minutes: 0,
            seconds: 0,
            nanoseconds: 0,
        }));
    } else {
        lemma_base10_to_base24_in_bounds(c);
    }
}

} // verus!
