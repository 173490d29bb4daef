use stt_groq_rust::keyboard::{DoubleTapDetector, KeyEvent, DOUBLE_TAP_WINDOW_NS};

const MS: u64 = 1_000_000;

#[test]
fn first_alt_press_is_no_double_tap() {
    let mut detector = DoubleTapDetector::new();
    assert!(!detector.on_key_event(true, KeyEvent::AltPress, 1_000 * MS));
}

#[test]
fn quick_second_press_is_double_tap() {
    let mut detector = DoubleTapDetector::new();
    assert!(!detector.on_key_event(true, KeyEvent::AltPress, 1_000 * MS));
    assert!(detector.on_key_event(true, KeyEvent::AltPress, 1_499 * MS));
}

#[test]
fn slow_second_press_is_no_double_tap() {
    let mut detector = DoubleTapDetector::new();
    assert!(!detector.on_key_event(true, KeyEvent::AltPress, 1_000 * MS));
    assert!(!detector.on_key_event(true, KeyEvent::AltPress, 1_000 * MS + DOUBLE_TAP_WINDOW_NS));
}

#[test]
fn triple_tap_fires_twice() {
    let mut detector = DoubleTapDetector::new();
    assert!(!detector.on_key_event(true, KeyEvent::AltPress, 0));
    assert!(detector.on_key_event(true, KeyEvent::AltPress, 200 * MS));
    assert!(detector.on_key_event(true, KeyEvent::AltPress, 400 * MS));
}

#[test]
fn other_keys_and_stopped_listener_are_ignored() {
    let mut detector = DoubleTapDetector::new();
    assert!(!detector.on_key_event(true, KeyEvent::AltPress, 0));
    assert!(!detector.on_key_event(true, KeyEvent::Other, 100 * MS));
    assert!(!detector.on_key_event(false, KeyEvent::AltPress, 200 * MS));
    // The press seen while stopped did not count: the last press is still at 0.
    assert!(!detector.on_key_event(true, KeyEvent::AltPress, 600 * MS));
}
