use std::sync::mpsc;

use ruscii::keyboard::{
    pressed_transitions, released_transitions, keys_contain, Key, KeyEvent, Keyboard,
};

fn keyboard_with_events(events: &[KeyEvent]) -> Keyboard {
    let (sender, receiver) = mpsc::channel();
    for event in events {
        sender.send(*event).unwrap();
    }
    let mut keyboard = Keyboard::new(receiver);
    keyboard.consume_key_events();
    keyboard
}

#[test]
fn pressing_three_keys_holds_them_in_order() {
    let keyboard = keyboard_with_events(&[
        KeyEvent::Pressed(Key::A),
        KeyEvent::Pressed(Key::B),
        KeyEvent::Pressed(Key::C),
    ]);
    assert_eq!(keyboard.get_keys_down(), vec![Key::A, Key::B, Key::C]);
}

#[test]
fn releasing_the_middle_key_keeps_the_others_in_order() {
    let (sender, receiver) = mpsc::channel();
    let mut keyboard = Keyboard::new(receiver);
    sender.send(KeyEvent::Pressed(Key::A)).unwrap();
    sender.send(KeyEvent::Pressed(Key::B)).unwrap();
    sender.send(KeyEvent::Pressed(Key::C)).unwrap();
    keyboard.consume_key_events();
    assert_eq!(keyboard.get_keys_down(), vec![Key::A, Key::B, Key::C]);

    sender.send(KeyEvent::Released(Key::B)).unwrap();
    keyboard.consume_key_events();
    assert_eq!(keyboard.get_keys_down(), vec![Key::A, Key::C]);
}

#[test]
fn consuming_twice_with_nothing_new_returns_an_empty_batch() {
    let (sender, receiver) = mpsc::channel();
    let mut keyboard = Keyboard::new(receiver);
    sender.send(KeyEvent::Pressed(Key::Q)).unwrap();
    let first = keyboard.consume_key_events().clone();
    assert_eq!(first, vec![KeyEvent::Pressed(Key::Q)]);
    let second = keyboard.consume_key_events().clone();
    assert!(second.is_empty());
    assert_eq!(keyboard.get_keys_down(), vec![Key::Q]);
}

#[test]
fn a_press_of_a_held_key_is_suppressed() {
    let keyboard = keyboard_with_events(&[
        KeyEvent::Pressed(Key::A),
        KeyEvent::Pressed(Key::A),
    ]);
    assert_eq!(keyboard.last_key_events(), &vec![KeyEvent::Pressed(Key::A)]);
    assert_eq!(keyboard.get_keys_down(), vec![Key::A]);
}

#[test]
fn a_release_of_a_key_not_down_is_ignored() {
    let keyboard = keyboard_with_events(&[KeyEvent::Released(Key::A)]);
    assert!(keyboard.last_key_events().is_empty());
    assert!(keyboard.get_keys_down().is_empty());
}

#[test]
fn a_press_and_release_in_one_frame_stays_discrete_and_ordered() {
    let keyboard = keyboard_with_events(&[
        KeyEvent::Released(Key::A),
        KeyEvent::Pressed(Key::A),
    ]);
    assert_eq!(
        keyboard.last_key_events(),
        &vec![KeyEvent::Pressed(Key::A), KeyEvent::Released(Key::A)]
    );
    assert!(keyboard.get_keys_down().is_empty());
}

#[test]
fn pressed_and_released_expose_their_key() {
    assert_eq!(KeyEvent::Pressed(Key::F5).pressed(), Some(Key::F5));
    assert_eq!(KeyEvent::Pressed(Key::F5).released(), None);
    assert_eq!(KeyEvent::Released(Key::Esc).released(), Some(Key::Esc));
    assert_eq!(KeyEvent::Released(Key::Esc).pressed(), None);
}

#[test]
fn pressed_transitions_reports_newly_held_keys() {
    let last = vec![Key::A, Key::B];
    let new = vec![Key::B, Key::C, Key::D];
    let events = pressed_transitions(&new, &last);
    assert_eq!(events, vec![KeyEvent::Pressed(Key::C), KeyEvent::Pressed(Key::D)]);
}

#[test]
fn released_transitions_reports_no_longer_held_keys() {
    let last = vec![Key::A, Key::B, Key::C];
    let new = vec![Key::B];
    let events = released_transitions(&new, &last);
    assert_eq!(events, vec![KeyEvent::Released(Key::A), KeyEvent::Released(Key::C)]);
}

#[test]
fn unmapped_keys_surface_as_unknown_rather_than_being_dropped() {
    // Policy on unidentified keys is the caller's: a sample gaining or
    // losing an unmapped key still yields its transition.
    let pressed = pressed_transitions(&vec![Key::Unknown], &Vec::new());
    assert_eq!(pressed, vec![KeyEvent::Pressed(Key::Unknown)]);
    let released = released_transitions(&Vec::new(), &vec![Key::Unknown]);
    assert_eq!(released, vec![KeyEvent::Released(Key::Unknown)]);
}

#[test]
fn keys_contain_finds_only_present_keys() {
    let keys = vec![Key::Up, Key::Down];
    assert!(keys_contain(&keys, Key::Up));
    assert!(keys_contain(&keys, Key::Down));
    assert!(!keys_contain(&keys, Key::Left));
    assert!(!keys_contain(&Vec::new(), Key::Left));
}
