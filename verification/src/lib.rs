//! Metric time: representation and conversion of time-of-day values across
//! three time bases — 24-hour, 12-hour AM/PM, and decimal ("metric") — with a
//! periodic emission subsystem that pushes the current time to subscribers.
//!
//! The conversion engine preserves the exact instant represented while
//! round-tripping between bases whose hour/minute/second cardinalities
//! differ, down to nanosecond precision, and derives exact clock-hand
//! rotation angles.

pub use time_lib::{
    Period, TimeBounds, TimeComponents, TimeConversionTrait, TimeKind, TimeRangeError,
    TimeRotationComponents,
};

pub use time_conversions::{Converter, TimeConversions};

pub use conversion_utils::{
    base10_to_base24, base12_to_base24, base24_to_base10, base24_to_base12,
    calc_ns_since_midnight,
};

pub use builder::Builder;
pub use clock::Clock;
pub use clock_lib::{ClockError, ClockSettings};
pub use time::Time;
pub use time_emitter::{Context, MessageType, Settings, Subscription, TickStep, TimeEmitter};

mod builder;
mod clock;
mod clock_lib;
mod constants;
mod conversion_laws;
mod conversion_utils;
mod text;
mod time;
mod time_conversions;
mod time_emitter;
mod time_lib;
