use doorcam::events::DoorcamEvent;
use doorcam::keyboard::{key_action, key_event, keeps_listening, Key, KeyAction, SIMULATED_MOTION_AREA_BITS};
use std::time::SystemTime;

#[test]
fn keys_map_to_actions() {
    assert_eq!(key_action(Key::Char(' '), true), KeyAction::TriggerMotion);
    assert_eq!(key_action(Key::Char('q'), true), KeyAction::Shutdown);
    assert_eq!(key_action(Key::Char('Q'), true), KeyAction::Shutdown);
    assert_eq!(key_action(Key::Esc, true), KeyAction::Shutdown);
    assert_eq!(key_action(Key::Char('x'), true), KeyAction::Ignore);
    assert_eq!(key_action(Key::Other, true), KeyAction::Ignore);
    assert_eq!(key_action(Key::Char(' '), false), KeyAction::Ignore);
}

#[test]
fn actions_publish_events() {
    let now = SystemTime::now();
    match key_event(KeyAction::TriggerMotion, now) {
        Some(DoorcamEvent::MotionDetected { contour_area_bits, .. }) => {
            assert_eq!(f64::from_bits(contour_area_bits), 5000.0);
            assert_eq!(contour_area_bits, SIMULATED_MOTION_AREA_BITS);
        }
        _ => panic!("expected a motion event"),
    }
    match key_event(KeyAction::Shutdown, now) {
        Some(DoorcamEvent::ShutdownRequested { reason, .. }) => assert_eq!(reason, "User requested via keyboard"),
        _ => panic!("expected a shutdown request"),
    }
    assert!(key_event(KeyAction::Ignore, now).is_none());
    assert!(!keeps_listening(KeyAction::Shutdown));
    assert!(keeps_listening(KeyAction::TriggerMotion));
}
