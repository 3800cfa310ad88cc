use dynisland_core::runtime::{CleanupEvent, RuntimeAction, RuntimeLifecycle, RuntimePhase};
use dynisland_core::scrolling_label::{parse_fade_size, FadeSize, ScrollingLabel};

#[test]
fn shutdown_waits_for_every_acknowledgment() {
    let mut rt = RuntimeLifecycle::new();
    assert_eq!(rt.phase(), RuntimePhase::Running);
    assert_eq!(rt.begin_shutdown(3), RuntimeAction::BroadcastCleanup);
    assert_eq!(rt.broadcast_sent(true), RuntimeAction::AwaitAcknowledgment);
    assert_eq!(rt.cleanup_event(CleanupEvent::Acknowledged), RuntimeAction::AwaitAcknowledgment);
    assert_eq!(rt.cleanup_event(CleanupEvent::Acknowledged), RuntimeAction::AwaitAcknowledgment);
    assert_eq!(rt.phase(), RuntimePhase::AwaitingCleanup);
    assert_eq!(rt.cleanup_event(CleanupEvent::Acknowledged), RuntimeAction::SendStop);
    assert_eq!(rt.phase(), RuntimePhase::Stopping);
    assert_eq!(rt.stop_sent(), RuntimeAction::Finished);
    assert_eq!(rt.phase(), RuntimePhase::Stopped);
}

#[test]
fn shutdown_stops_waiting_when_senders_are_gone() {
    let mut rt = RuntimeLifecycle::new();
    rt.begin_shutdown(4);
    assert_eq!(rt.broadcast_sent(true), RuntimeAction::AwaitAcknowledgment);
    assert_eq!(rt.cleanup_event(CleanupEvent::Acknowledged), RuntimeAction::AwaitAcknowledgment);
    assert_eq!(rt.cleanup_event(CleanupEvent::Disconnected), RuntimeAction::SendStop);
    assert_eq!(rt.stop_sent(), RuntimeAction::Finished);
}

#[test]
fn shutdown_without_subscribers_stops_at_once() {
    let mut rt = RuntimeLifecycle::new();
    assert_eq!(rt.begin_shutdown(0), RuntimeAction::BroadcastCleanup);
    assert_eq!(rt.broadcast_sent(false), RuntimeAction::SendStop);
    assert_eq!(rt.stop_sent(), RuntimeAction::Finished);
    let mut rt2 = RuntimeLifecycle::new();
    rt2.begin_shutdown(0);
    assert_eq!(rt2.broadcast_sent(true), RuntimeAction::SendStop);
}

#[test]
fn reset_twice_keeps_one_fresh_context() {
    let mut rt = RuntimeLifecycle::new();
    assert_eq!(rt.context(), 0);
    assert_eq!(rt.reset(), RuntimeAction::StartContext);
    assert_eq!(rt.reset(), RuntimeAction::StartContext);
    assert_eq!(rt.context(), 2);
    assert_eq!(rt.phase(), RuntimePhase::Running);
    rt.begin_shutdown(1);
    assert_eq!(rt.reset(), RuntimeAction::StartContext);
    assert_eq!(rt.phase(), RuntimePhase::Running);
    assert_eq!(rt.context(), 3);
}

#[test]
fn fade_size_settings() {
    assert_eq!(parse_fade_size("5%"), Some(FadeSize::Percent(5)));
    assert_eq!(parse_fade_size("5px"), Some(FadeSize::Pixels(5)));
    assert_eq!(parse_fade_size("5"), Some(FadeSize::Pixels(5)));
    assert_eq!(parse_fade_size("120px"), Some(FadeSize::Pixels(120)));
    assert_eq!(parse_fade_size("4294967295"), Some(FadeSize::Pixels(4294967295)));
    assert_eq!(parse_fade_size("4294967296"), None);
    assert_eq!(parse_fade_size(""), None);
    assert_eq!(parse_fade_size("%"), None);
    assert_eq!(parse_fade_size("px"), None);
    assert_eq!(parse_fade_size("5 px"), None);
    assert_eq!(parse_fade_size("abc"), None);
}

#[test]
fn scrolling_label_activity() {
    let mut l = ScrollingLabel::new();
    assert_eq!(l.text(), "");
    assert_eq!(l.max_width(), -1);
    assert_eq!(l.fade_size(), None);
    l.set_text("a long title".to_string());
    l.set_text_width(300);
    assert!(!l.active());
    l.set_max_width(200);
    assert!(l.active());
    l.set_max_width(300);
    assert!(!l.active());
    assert!(l.set_config_fade_size("10%"));
    assert_eq!(l.fade_size(), Some(FadeSize::Percent(10)));
    assert!(!l.set_config_fade_size("ten"));
    assert_eq!(l.fade_size(), Some(FadeSize::Percent(10)));
}
