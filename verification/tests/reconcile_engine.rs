use ruscii::keyboard::{Key, KeyEvent};
use ruscii::reconcile::{Reconciler, DEFAULT_WINDOW_MS};

#[test]
fn an_unconfirmed_press_never_reaches_the_consumer() {
    let mut reconciler = Reconciler::new(DEFAULT_WINDOW_MS);
    reconciler.observe_device_event(KeyEvent::Pressed(Key::A), 100);
    assert!(reconciler.sweep(101).is_empty());
    assert!(reconciler.sweep(110).is_empty());
    // Once the signal outlives the window it is dropped silently: a focus
    // confirmation arriving later no longer resurrects it.
    assert!(reconciler.sweep(121).is_empty());
    reconciler.note_focus(122);
    assert!(reconciler.sweep(123).is_empty());
}

#[test]
fn a_confirmed_press_is_delivered_exactly_once() {
    let mut reconciler = Reconciler::new(DEFAULT_WINDOW_MS);
    reconciler.note_focus(95);
    reconciler.observe_device_event(KeyEvent::Pressed(Key::A), 100);
    let accepted = reconciler.sweep(101);
    assert_eq!(accepted, vec![KeyEvent::Pressed(Key::A)]);
    // The signal left the pending list: the next sweep forwards nothing.
    assert!(reconciler.sweep(102).is_empty());
}

#[test]
fn the_confirmation_may_arrive_after_the_press() {
    let mut reconciler = Reconciler::new(DEFAULT_WINDOW_MS);
    reconciler.observe_device_event(KeyEvent::Pressed(Key::B), 100);
    assert!(reconciler.sweep(101).is_empty());
    reconciler.note_focus(110);
    assert_eq!(reconciler.sweep(111), vec![KeyEvent::Pressed(Key::B)]);
}

#[test]
fn the_window_boundary_is_inclusive_on_either_side() {
    let mut before = Reconciler::new(DEFAULT_WINDOW_MS);
    before.note_focus(80);
    before.observe_device_event(KeyEvent::Pressed(Key::A), 100);
    assert_eq!(before.sweep(100), vec![KeyEvent::Pressed(Key::A)]);

    let mut after = Reconciler::new(DEFAULT_WINDOW_MS);
    after.note_focus(120);
    after.observe_device_event(KeyEvent::Pressed(Key::A), 100);
    assert_eq!(after.sweep(100), vec![KeyEvent::Pressed(Key::A)]);

    let mut outside = Reconciler::new(DEFAULT_WINDOW_MS);
    outside.note_focus(79);
    outside.observe_device_event(KeyEvent::Pressed(Key::A), 100);
    assert!(outside.sweep(100).is_empty());
}

#[test]
fn accepted_signals_keep_their_pending_order() {
    let mut reconciler = Reconciler::new(DEFAULT_WINDOW_MS);
    reconciler.note_focus(100);
    reconciler.observe_device_event(KeyEvent::Pressed(Key::A), 100);
    reconciler.observe_device_event(KeyEvent::Released(Key::A), 105);
    reconciler.observe_device_event(KeyEvent::Pressed(Key::B), 110);
    assert_eq!(
        reconciler.sweep(111),
        vec![
            KeyEvent::Pressed(Key::A),
            KeyEvent::Released(Key::A),
            KeyEvent::Pressed(Key::B),
        ]
    );
}

#[test]
fn uncorroborated_signals_stay_pending_until_they_expire() {
    let mut reconciler = Reconciler::new(DEFAULT_WINDOW_MS);
    reconciler.observe_device_event(KeyEvent::Pressed(Key::A), 100);
    assert!(reconciler.sweep(105).is_empty());
    // Still within the window: a confirmation now still releases it.
    reconciler.note_focus(112);
    assert_eq!(reconciler.sweep(113), vec![KeyEvent::Pressed(Key::A)]);
}

#[test]
fn the_window_is_tunable() {
    let mut reconciler = Reconciler::new(5);
    reconciler.note_focus(90);
    reconciler.observe_device_event(KeyEvent::Pressed(Key::A), 100);
    // Ten milliseconds apart: outside a 5 ms window.
    assert!(reconciler.sweep(100).is_empty());

    let mut wide = Reconciler::new(50);
    wide.note_focus(90);
    wide.observe_device_event(KeyEvent::Pressed(Key::A), 100);
    assert_eq!(wide.sweep(100), vec![KeyEvent::Pressed(Key::A)]);
}
