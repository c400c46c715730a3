//! A clock: cached state over a periodic time emission.
//!
//! A [`Clock`] owns shared, lock-guarded cells for the last emitted time, a
//! running tick counter, the current subscription and the current emitter.
//! The cells are independent, so readers of different cells are not mutually
//! atomic; each read is individually consistent. Read accessors are lenient:
//! a failed lock reads as absence of data rather than an error.
//!
//! The producer thread itself runs outside this library. It is wired up from
//! the pieces here: [`Clock::prepare_start`] builds and installs the emitter,
//! [`Clock::record_tick`] is what the wrapper callback calls after the
//! caller's own callback, and [`Clock::install_subscription`] stores the
//! running emission's subscription, which [`Clock::stop`] later signals.

use std::sync::{Arc, Mutex};
use vstd::prelude::*;

use crate::clock_lib::{ClockError, ClockSettings};
use crate::time::Time;
use crate::time_emitter::{Settings, Subscription, TimeEmitter};
use crate::time_lib::TimeKind;

verus! {

#[verifier::external_type_specification]
#[verifier::external_body]
#[verifier::reject_recursive_types(T)]
pub struct ExMutex<T: ?Sized>(Mutex<T>);

// Shared cells ----------------------------------------------------------------------- /

/// Relies on std's `Arc::new` and `Mutex::new` to build a fresh shared cell
/// holding the given value.
#[verifier::external_body]
fn new_cell<T>(value: T) -> Arc<Mutex<T>> {
    Arc::new(Mutex::new(value))
}

/// Relies on std's `Mutex::lock`: a clone of the cell's value, or nothing
/// when the lock is poisoned.
#[verifier::external_body]
fn read_cell<T: Clone>(cell: &Arc<Mutex<T>>) -> Option<T> {
    match cell.lock() {
        Ok(guard) => Some((*guard).clone()),
        Err(_) => None,
    }
}

/// Relies on std's `Mutex::lock` to replace the cell's value; reports whether
/// the lock could be taken.
#[verifier::external_body]
fn write_cell<T>(cell: &Arc<Mutex<T>>, value: T) -> bool {
    match cell.lock() {
        Ok(mut guard) => {
            *guard = value;
            true
        },
        Err(_) => false,
    }
}

// Clock --------------------------------------------------------------------------- /

/// A clock that emits time values at a fixed interval and caches the most
/// recently emitted one together with a running tick count.
///
/// Cloning a clock shares its cells: every clone observes the same last time,
/// count and subscription.
#[derive(Debug, Clone)]
pub struct Clock {
    emitter_ref: Arc<Mutex<Option<TimeEmitter>>>,
    time_ref: Arc<Mutex<Option<Time>>>,
    subscription_ref: Arc<Mutex<Option<Subscription>>>,
    counter_ref: Arc<Mutex<u128>>,
    settings: ClockSettings,
}

impl Clock {
    pub closed spec fn spec_settings(self) -> ClockSettings {
        self.settings
    }

    /// A fresh clock with the default settings, an empty time cache, no
    /// subscription and a zero tick count.
    pub fn new() -> (r: Self)
        ensures
            r.spec_settings().kind == TimeKind::Base24,
    {
        let emitter_ref = new_cell(None);
        let time_ref = new_cell(None);
        let subscription_ref = new_cell(None);
        let counter_ref = new_cell(0u128);
        let settings = ClockSettings::defaults();
        Self { emitter_ref, time_ref, subscription_ref, counter_ref, settings }
    }

    // ------------------------------------------------------------ /

    /// Replaces the clock's settings.
    pub fn setup(self, settings: ClockSettings) -> (r: Self)
        ensures
            r.spec_settings() == settings,
    {
        Self { settings, ..self }
    }

    /// Sets the time base the clock reports in.
    pub fn set_kind(self, kind: TimeKind) -> (r: Self)
        ensures
            r.spec_settings().kind == kind,
            r.spec_settings().interval == self.spec_settings().interval,
    {
        let settings = self.settings.set_kind(kind);
        Self { settings, ..self }
    }

    /// Sets the pause between ticks.
    pub fn set_interval(self, interval: core::time::Duration) -> (r: Self)
        ensures
            r.spec_settings().interval == interval,
            r.spec_settings().kind == self.spec_settings().kind,
    {
        let settings = self.settings.set_interval(interval);
        Self { settings, ..self }
    }

    // ------------------------------------------------------------ /

    /// The most recently emitted time, if any tick has landed; a failed lock
    /// reads as no value.
    pub fn time(&self) -> Option<Time> {
        match read_cell(&self.time_ref) {
            Some(time) => time,
            None => None,
        }
    }

    /// The time base the clock reports in.
    pub fn kind(&self) -> (r: TimeKind)
        ensures
            r == self.spec_settings().kind,
    {
        self.settings.kind
    }

    /// The pause between ticks.
    pub fn interval(&self) -> (r: core::time::Duration)
        ensures
            r == self.spec_settings().interval,
    {
        self.settings.interval
    }

    /// The number of ticks that have landed; a failed lock reads as zero.
    pub fn count(&self) -> u128 {
        match read_cell(&self.counter_ref) {
            Some(counter) => counter,
            None => 0u128,
        }
    }

    // ------------------------------------------------------------ /

    /// Builds a fresh emitter from the clock's settings and installs it as
    /// the current one. The emitter samples in the clock's base at the
    /// clock's interval, with no event cap.
    pub fn prepare_start(&self) -> (r: Result<TimeEmitter, ClockError>)
        ensures
            r matches Ok(emitter) ==> emitter.settings.kind == self.spec_settings().kind
                && emitter.settings.interval == self.spec_settings().interval
                && emitter.settings.max_events == None::<u64>,
            r matches Err(e) ==> e == ClockError::CouldNotSetTimeEmitter,
    {
        let emitter_settings = Settings::new().set_kind(self.settings.kind).set_interval(
            self.settings.interval,
        );
        let new_emitter = TimeEmitter::new().setup(emitter_settings);
        if write_cell(&self.emitter_ref, Some(new_emitter)) {
            Ok(new_emitter)
        } else {
            Err(ClockError::CouldNotSetTimeEmitter)
        }
    }

    /// Records one landed tick: caches the emitted time, and when that
    /// succeeds, advances the tick counter. A failed lock on either cell
    /// leaves that cell as it was.
    pub fn record_tick(&self, time: Time) {
        if write_cell(&self.time_ref, Some(time)) {
            match read_cell(&self.counter_ref) {
                Some(count) => {
                    if count < u128::MAX {
                        let _ = write_cell(&self.counter_ref, count + 1);
                    }
                },
                None => (),
            }
        }
    }

    /// Stores the running emission's subscription. When the cell cannot be
    /// written, the emission is stopped again on a best effort and the error
    /// reports that the clock could not take it.
    pub fn install_subscription(&self, subscription: Subscription) -> (r: Result<
        Subscription,
        ClockError,
    >)
        ensures
            r matches Ok(s) ==> s == subscription,
            r matches Err(e) ==> e == ClockError::CouldNotSetTime,
    {
        if write_cell(&self.subscription_ref, Some(subscription.clone())) {
            Ok(subscription)
        } else {
            let _ = subscription.unsubscribe();
            Err(ClockError::CouldNotSetTime)
        }
    }

    /// Stops the clock: signals the stored subscription to unsubscribe and
    /// returns the last cached time, or a freshly sampled one when no tick
    /// had landed yet. Fails when no subscription is stored, its cell cannot
    /// be read, or the producer is already gone; every failure reports that
    /// the clock could not unsubscribe.
    pub fn stop(&self) -> (r: Result<Time, ClockError>)
        ensures
            r matches Err(e) ==> e == ClockError::CouldNotUnsubscribe,
    {
        match read_cell(&self.subscription_ref) {
            Some(stored) => match stored {
                Some(subscription) => match subscription.unsubscribe() {
                    Ok(_) => match self.time() {
                        Some(time) => Ok(time),
                        None => Ok(Time::now()),
                    },
                    Err(_) => Err(ClockError::CouldNotUnsubscribe),
                },
                None => Err(ClockError::CouldNotUnsubscribe),
            },
            None => Err(ClockError::CouldNotUnsubscribe),
        }
    }
}

} // verus!
