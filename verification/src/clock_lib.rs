//! Clock configuration and lifecycle errors.

use vstd::prelude::*;

use crate::time_lib::TimeKind;

verus! {

// ClockSettings ----------------------------------------------------------------------- /

/// Configuration of a clock: the time base it reports in and the pause
/// between its ticks.
#[derive(Debug, Clone, Copy)]
pub struct ClockSettings {
    pub kind: TimeKind,
    pub interval: core::time::Duration,
}

impl ClockSettings {
    /// The default settings: the 24-hour base, one second between ticks.
    pub fn defaults() -> (r: Self)
        ensures
            r.kind == TimeKind::Base24,
    {
        Self { kind: TimeKind::Base24, interval: core::time::Duration::from_secs(1) }
    }

    /// Fresh settings with the default values.
    pub fn new() -> (r: Self)
        ensures
            r.kind == TimeKind::Base24,
    {
        Self::defaults()
    }

    /// Sets the time base.
    pub fn set_kind(self, kind: TimeKind) -> (r: Self)
        ensures
            r == (ClockSettings { kind, ..self }),
    {
        ClockSettings { kind, ..self }
    }

    /// Sets the pause between ticks.
    pub fn set_interval(self, interval: core::time::Duration) -> (r: Self)
        ensures
            r == (ClockSettings { interval, ..self }),
    {
        ClockSettings { interval, ..self }
    }
}

// ClockError ----------------------------------------------------------------------- /

/// Lifecycle failures of a clock, synthesized from lock or channel failures
/// in the shared-state plumbing: they mean the clock could not be controlled,
/// and the caller decides whether to recreate it.
#[derive(Debug, Clone, Copy, PartialEq, Eq, Structural)]
pub enum ClockError {
    NoTimeSet,
    CouldNotSetTime,
    CouldNotSetTimeEmitter,
    CouldNotUnsubscribe,
}

} // verus!
