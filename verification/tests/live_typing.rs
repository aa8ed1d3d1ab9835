use handy::live_typing::{should_stop_recording, KeyEvent, GRACE_PERIOD_MS};
use handy_keys::{Key, Modifiers};
use std::time::Duration;

fn make_event(is_key_down: bool, key: Option<Key>) -> KeyEvent {
    KeyEvent {
        modifiers: Modifiers::empty(),
        key,
        is_key_down,
        changed_modifier: None,
    }
}

#[test]
fn ignores_key_up() {
    let event = make_event(false, Some(Key::A));
    assert!(!should_stop_recording(&event, Duration::from_secs(1).as_millis()));
}

#[test]
fn ignores_modifier_only() {
    let event = make_event(true, None);
    assert!(!should_stop_recording(&event, Duration::from_secs(1).as_millis()));
}

#[test]
fn ignores_during_grace_period() {
    let event = make_event(true, Some(Key::A));
    assert!(!should_stop_recording(&event, Duration::from_millis(200).as_millis()));
}

#[test]
fn triggers_on_physical_key_down_after_grace() {
    let event = make_event(true, Some(Key::A));
    assert!(should_stop_recording(&event, Duration::from_secs(1).as_millis()));
}

#[test]
fn triggers_exactly_at_grace_boundary() {
    let event = make_event(true, Some(Key::Escape));
    assert!(should_stop_recording(&event, Duration::from_millis(GRACE_PERIOD_MS).as_millis()));
}

#[test]
fn ignores_modifier_change_event() {
    // Modifier-change events have no key and name the changed modifier.
    let event = KeyEvent {
        modifiers: Modifiers::SHIFT,
        key: None,
        is_key_down: true,
        changed_modifier: Some(Modifiers::SHIFT),
    };
    assert!(!should_stop_recording(&event, Duration::from_secs(1).as_millis()));
}

#[test]
fn ignores_key_just_before_grace_ends() {
    let event = make_event(true, Some(Key::A));
    assert!(!should_stop_recording(&event, Duration::from_micros(499_999).as_millis()));
}
