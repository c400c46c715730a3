//! Periodic time emission: settings, the subscription control protocol, and
//! the per-tick decision of the producer loop.
//!
//! The producer loop itself needs a spawned thread and a sleeping wait, which
//! live outside this library; the loop's decisions — when a tick emits and
//! when the producer stops — are [`TimeEmitter::tick_decision`], and the value
//! a tick emits is [`TimeEmitter::sample`]. A [`Subscription`] carries the
//! sending half of the control channel and can stop the producer from any
//! thread.

use vstd::prelude::*;

use crate::time_lib::{TimeConversionTrait, TimeKind};
use crate::time::Time;

verus! {

// Control channel ----------------------------------------------------------------- /

#[verifier::external_type_specification]
#[verifier::external_body]
#[verifier::reject_recursive_types(T)]
pub struct ExSender<T>(std::sync::mpsc::Sender<T>);

#[verifier::external_type_specification]
#[verifier::external_body]
#[verifier::reject_recursive_types(T)]
pub struct ExSendError<T>(std::sync::mpsc::SendError<T>);

pub assume_specification[ core::time::Duration::from_secs ](secs: u64) -> core::time::Duration;

/// Relies on the std `Clone` impl for an mpsc `Sender`, which yields another
/// sending half of the same channel; needed by the derived `Clone` of
/// [`Subscription`].
pub assume_specification<T>[ <std::sync::mpsc::Sender<T> as Clone>::clone ](
    sender: &std::sync::mpsc::Sender<T>,
) -> std::sync::mpsc::Sender<T>;

/// Relies on mpsc's `Sender::send`: the message is delivered unless the
/// receiving half was dropped, in which case it comes back inside the error.
#[verifier::external_body]
fn send_message(sender: &std::sync::mpsc::Sender<MessageType>, message: MessageType) -> Result<
    (),
    std::sync::mpsc::SendError<MessageType>,
> {
    sender.send(message)
}

// Context ----------------------------------------------------------------------- /

/// What a tick hands the callback besides the time: the zero-based tick index
/// and a copy of the emitter's settings.
#[derive(Debug, Clone, Copy, PartialEq, Eq)]
pub struct Context {
    pub index: u64,
    pub settings: Settings,
}

// Settings ----------------------------------------------------------------------- /

/// Configuration of an emission: an optional cap on the number of ticks, the
/// pause between ticks, and the time base the emitted values are sampled in.
#[derive(Debug, Clone, Copy, PartialEq, Eq)]
pub struct Settings {
    pub max_events: Option<u64>,
    pub interval: core::time::Duration,
    pub kind: TimeKind,
}

impl Settings {
    /// Fresh settings with the default values.
    pub fn new() -> (r: Self)
        ensures
            r.max_events == None::<u64>,
            r.kind == TimeKind::Base24,
    {
        Self::defaults()
    }

    /// The default settings: no tick cap, one second between ticks, and the
    /// 24-hour base.
    pub fn defaults() -> (r: Self)
        ensures
            r.max_events == None::<u64>,
            r.kind == TimeKind::Base24,
    {
        Settings {
            max_events: None,
            interval: core::time::Duration::from_secs(1),
            kind: TimeKind::Base24,
        }
    }

    /// Caps the number of ticks.
    pub fn set_max_events(self, max_events: u64) -> (r: Self)
        ensures
            r == (Settings { max_events: Some(max_events), ..self }),
    {
        Settings { max_events: Some(max_events), ..self }
    }

    /// Removes the tick cap.
    pub fn clear_max_events(self) -> (r: Self)
        ensures
            r == (Settings { max_events: None::<u64>, ..self }),
    {
        Settings { max_events: None, ..self }
    }

    /// Sets the pause between ticks.
    pub fn set_interval(self, interval: core::time::Duration) -> (r: Self)
        ensures
            r == (Settings { interval, ..self }),
    {
        Settings { interval, ..self }
    }

    /// Sets the time base the emitted values are sampled in.
    pub fn set_kind(self, kind: TimeKind) -> (r: Self)
        ensures
            r == (Settings { kind, ..self }),
    {
        Settings { kind, ..self }
    }
}

// MessageType ----------------------------------------------------------------------- /

/// The signals of the control channel: `Start` begins the first iteration,
/// `Continue` drives each next one, and `Unsubscribe` ends the emission.
#[derive(Debug, Clone, Copy, PartialEq, Eq, Structural)]
pub enum MessageType {
    Start,
    Continue,
    Unsubscribe,
}

// Subscription ----------------------------------------------------------------------- /

/// A caller-held handle on a running emission: the sending half of the
/// producer's control channel.
#[derive(Debug, Clone)]
pub struct Subscription {
    tx: std::sync::mpsc::Sender<MessageType>,
}

impl Subscription {
    pub closed spec fn spec_sender(self) -> std::sync::mpsc::Sender<MessageType> {
        self.tx
    }

    /// Wraps the sending half of a control channel.
    pub fn new(sender: std::sync::mpsc::Sender<MessageType>) -> (r: Self)
        ensures
            r.spec_sender() == sender,
    {
        Self { tx: sender }
    }

    /// Sends the producer an unsubscribe signal. The send fails only when the
    /// receiving half was already dropped, that is, when the producer has
    /// already stopped.
    pub fn unsubscribe(&self) -> Result<(), std::sync::mpsc::SendError<MessageType>> {
        send_message(&self.tx, MessageType::Unsubscribe)
    }
}

// TimeEmitter ----------------------------------------------------------------------- /

/// What the producer loop does with one received signal.
#[derive(Debug, Clone, Copy, PartialEq, Eq, Structural)]
pub enum TickStep {
    /// Sample a time, deliver it to the callback, sleep, and drive the next
    /// iteration with a `Continue` signal.
    Emit,
    /// Leave the loop; the emission is over.
    Stop,
}

/// Whether two kinds name the same time base, disregarding the period of the
/// 12-hour base.
pub open spec fn same_base(a: TimeKind, b: TimeKind) -> bool {
    match (a, b) {
        (TimeKind::Base10, TimeKind::Base10) => true,
        (TimeKind::Base12(_), TimeKind::Base12(_)) => true,
        (TimeKind::Base24, TimeKind::Base24) => true,
        _ => false,
    }
}

/// A periodic producer of time values, configured by its settings.
///
/// The producer loop runs on a dedicated thread outside this library: each
/// iteration receives a signal from the control channel, asks
/// [`TimeEmitter::tick_decision`] whether to go on, and on `Emit` delivers
/// [`TimeEmitter::sample`] to the callback, sleeps one interval, and sends
/// itself `Continue`.
#[derive(Debug, Clone, Copy, PartialEq, Eq)]
pub struct TimeEmitter {
    pub settings: Settings,
}

impl TimeEmitter {
    /// A fresh emitter with the default settings.
    pub fn new() -> (r: Self)
        ensures
            r.settings.max_events == None::<u64>,
            r.settings.kind == TimeKind::Base24,
    {
        Self { settings: Settings::defaults() }
    }

    /// Replaces the emitter's settings.
    pub fn setup(self, settings: Settings) -> (r: Self)
        ensures
            r.settings == settings,
    {
        Self { settings }
    }

    /// Decides one iteration of the producer loop from the received signal
    /// and the current tick index: the loop stops on an unsubscribe signal or
    /// once the tick index has reached the optional event cap, and emits
    /// otherwise — on `Start`, `Continue`, or an empty or broken channel.
    pub fn tick_decision(message: Option<MessageType>, index: u64, settings: &Settings) -> (r:
        TickStep)
        ensures
            r == TickStep::Stop <==> (message == Some(MessageType::Unsubscribe) || (
            settings.max_events matches Some(max) && index >= max)),
    {
        if let Some(MessageType::Unsubscribe) = message {
            return TickStep::Stop;
        }
        if let Some(max_events) = settings.max_events {
            if index >= max_events {
                return TickStep::Stop;
            }
        }
        TickStep::Emit
    }

    /// Samples the current wall-clock time converted to the configured base.
    pub fn sample(&self) -> (r: Time)
        ensures
            same_base(r.spec_kind(), self.settings.kind),
    {
        Time::now().to(self.settings.kind)
    }
}

} // verus!
