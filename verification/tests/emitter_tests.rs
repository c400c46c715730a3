//! Emitter settings and the producer loop's decisions.

use std::time::Duration;

use metric_time::{MessageType, Settings, Subscription, TickStep, TimeEmitter, TimeKind};

#[test]
fn test_settings_defaults() {
    let settings = Settings::defaults();
    assert_eq!(settings.max_events, None);
    assert_eq!(settings.interval, Duration::from_secs(1));
}

#[test]
fn test_settings_modifications() {
    let settings = Settings::new()
        .set_max_events(10)
        .set_interval(Duration::from_millis(500))
        .set_kind(TimeKind::Base10);

    assert_eq!(settings.max_events, Some(10));
    assert_eq!(settings.interval, Duration::from_millis(500));
    assert_eq!(settings.kind, TimeKind::Base10);

    let cleared_settings = settings.clear_max_events();
    assert_eq!(cleared_settings.max_events, None);
}

#[test]
fn test_time_emitter_creation() {
    let emitter = TimeEmitter::new();
    assert_eq!(emitter.settings.max_events, None);
    assert_eq!(emitter.settings.interval, Duration::from_secs(1));
}

#[test]
fn test_time_emitter_custom_settings() {
    let custom_settings = Settings::new()
        .set_max_events(5)
        .set_interval(Duration::from_millis(100))
        .set_kind(TimeKind::Base10);

    let emitter = TimeEmitter::new().setup(custom_settings);
    assert_eq!(emitter.settings.max_events, Some(5));
    assert_eq!(emitter.settings.interval, Duration::from_millis(100));
    assert_eq!(emitter.settings.kind, TimeKind::Base10);
}

#[test]
fn tick_decision_stops_on_unsubscribe() {
    let settings = Settings::new();
    assert_eq!(
        TimeEmitter::tick_decision(Some(MessageType::Unsubscribe), 0, &settings),
        TickStep::Stop,
    );
}

#[test]
fn tick_decision_stops_at_the_event_cap() {
    let settings = Settings::new().set_max_events(3);
    assert_eq!(
        TimeEmitter::tick_decision(Some(MessageType::Continue), 2, &settings),
        TickStep::Emit,
    );
    assert_eq!(
        TimeEmitter::tick_decision(Some(MessageType::Continue), 3, &settings),
        TickStep::Stop,
    );
    assert_eq!(
        TimeEmitter::tick_decision(Some(MessageType::Continue), 4, &settings),
        TickStep::Stop,
    );
}

#[test]
fn tick_decision_emits_on_start_continue_or_empty_channel() {
    let settings = Settings::new();
    assert_eq!(
        TimeEmitter::tick_decision(Some(MessageType::Start), 0, &settings),
        TickStep::Emit,
    );
    assert_eq!(
        TimeEmitter::tick_decision(Some(MessageType::Continue), 7, &settings),
        TickStep::Emit,
    );
    assert_eq!(TimeEmitter::tick_decision(None, 7, &settings), TickStep::Emit);
}

#[test]
fn sample_uses_the_configured_base() {
    let emitter = TimeEmitter::new().setup(Settings::new().set_kind(TimeKind::Base10));
    assert_eq!(emitter.sample().kind(), TimeKind::Base10);
    let emitter = TimeEmitter::new();
    assert_eq!(emitter.sample().kind(), TimeKind::Base24);
}

#[test]
fn subscription_send_fails_once_the_receiver_is_gone() {
    let (tx, rx) = std::sync::mpsc::channel::<MessageType>();
    let subscription = Subscription::new(tx);
    assert!(subscription.unsubscribe().is_ok());
    assert_eq!(rx.recv(), Ok(MessageType::Unsubscribe));
    drop(rx);
    assert!(subscription.unsubscribe().is_err());
}
