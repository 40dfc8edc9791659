use soundboard::hotkey::{HotKeyEvent, HotKeyListener};
use soundboard::keys::Key;

#[test]
fn new_listener_is_empty() {
    let listener = HotKeyListener::new(3);
    assert_eq!(listener.max_size(), 3);
    assert!(listener.recent_keys().is_empty());
}

#[test]
fn alt_then_m_is_mute() {
    let mut listener = HotKeyListener::new(3);
    assert_eq!(listener.input_key(Key::Alt), None);
    assert_eq!(listener.input_key(Key::KeyM), Some(HotKeyEvent::Mute));
}

#[test]
fn alt_then_j_is_volume_down_and_k_is_volume_up() {
    let mut listener = HotKeyListener::new(3);
    assert_eq!(listener.input_key(Key::Alt), None);
    assert_eq!(listener.input_key(Key::KeyJ), Some(HotKeyEvent::VolumeDown));
    assert_eq!(listener.input_key(Key::Alt), None);
    assert_eq!(listener.input_key(Key::KeyK), Some(HotKeyEvent::VolumeUp));
}

#[test]
fn hotkey_letter_without_alt_does_nothing() {
    let mut listener = HotKeyListener::new(3);
    assert_eq!(listener.input_key(Key::KeyM), None);
    assert_eq!(listener.input_key(Key::KeyJ), None);
    assert_eq!(listener.input_key(Key::KeyK), None);
}

#[test]
fn other_key_between_alt_and_letter_breaks_the_hotkey() {
    let mut listener = HotKeyListener::new(3);
    assert_eq!(listener.input_key(Key::Alt), None);
    assert_eq!(listener.input_key(Key::KeyA), None);
    assert_eq!(listener.input_key(Key::KeyM), None);
}

#[test]
fn alt_then_other_key_reports_nothing() {
    let mut listener = HotKeyListener::new(3);
    assert_eq!(listener.input_key(Key::Alt), None);
    assert_eq!(listener.input_key(Key::KeyQ), None);
}

#[test]
fn repeated_alt_keeps_the_leader() {
    let mut listener = HotKeyListener::new(3);
    assert_eq!(listener.input_key(Key::Alt), None);
    assert_eq!(listener.input_key(Key::Alt), None);
    assert_eq!(listener.input_key(Key::Alt), None);
    assert_eq!(listener.input_key(Key::KeyM), Some(HotKeyEvent::Mute));
}

#[test]
fn hotkey_fires_once_per_alt() {
    let mut listener = HotKeyListener::new(3);
    listener.input_key(Key::Alt);
    assert_eq!(listener.input_key(Key::KeyK), Some(HotKeyEvent::VolumeUp));
    assert_eq!(listener.input_key(Key::KeyK), None);
}

#[test]
fn window_keeps_the_most_recent_keys() {
    let mut listener = HotKeyListener::new(3);
    for key in [Key::KeyA, Key::KeyB, Key::KeyC, Key::KeyD, Key::KeyE] {
        listener.input_key(key);
    }
    assert_eq!(listener.recent_keys(), vec![Key::KeyC, Key::KeyD, Key::KeyE]);
}

#[test]
fn window_grows_up_to_its_bound() {
    let mut listener = HotKeyListener::new(3);
    listener.input_key(Key::Num1);
    listener.input_key(Key::Num2);
    assert_eq!(listener.recent_keys(), vec![Key::Num1, Key::Num2]);
}

#[test]
fn zero_bound_still_keeps_the_last_key() {
    let mut listener = HotKeyListener::new(0);
    listener.input_key(Key::Alt);
    assert_eq!(listener.recent_keys(), vec![Key::Alt]);
    assert_eq!(listener.input_key(Key::KeyM), Some(HotKeyEvent::Mute));
    assert_eq!(listener.recent_keys(), vec![Key::KeyM]);
}

#[test]
fn unknown_keys_are_remembered_by_code() {
    let mut listener = HotKeyListener::new(2);
    listener.input_key(Key::Unknown(7));
    listener.input_key(Key::Unknown(9));
    assert_eq!(listener.recent_keys(), vec![Key::Unknown(7), Key::Unknown(9)]);
}
