use soundboard::hotkey::HotKeyEvent;
use soundboard::keys::Key;
use soundboard::soundboard::{InputEvent, Reaction, SoundBoard, SoundKind};

fn press(key: Key) -> InputEvent {
    InputEvent::KeyPress(key)
}

fn release(key: Key) -> InputEvent {
    InputEvent::KeyRelease(key)
}

fn nothing() -> Reaction {
    Reaction { hotkey: None, sound: None }
}

#[test]
fn new_board_is_unmuted_and_holds_nothing() {
    let board = SoundBoard::new();
    assert!(!board.is_muted());
    assert_eq!(board.held_key(), None);
}

#[test]
fn press_and_release_play_their_sounds() {
    let mut board = SoundBoard::new();
    assert_eq!(board.handle_event(press(Key::KeyA)), Reaction { hotkey: None, sound: Some(SoundKind::Press) });
    assert_eq!(board.held_key(), Some(Key::KeyA));
    assert_eq!(board.handle_event(release(Key::KeyA)), Reaction { hotkey: None, sound: Some(SoundKind::Release) });
    assert_eq!(board.held_key(), None);
}

#[test]
fn space_bar_has_its_own_sounds() {
    let mut board = SoundBoard::new();
    assert_eq!(board.handle_event(press(Key::Space)).sound, Some(SoundKind::SpacebarPress));
    assert_eq!(board.handle_event(release(Key::Space)).sound, Some(SoundKind::SpacebarRelease));
}

#[test]
fn auto_repeat_is_ignored() {
    let mut board = SoundBoard::new();
    assert_eq!(board.handle_event(press(Key::KeyA)).sound, Some(SoundKind::Press));
    assert_eq!(board.handle_event(press(Key::KeyA)), nothing());
    assert_eq!(board.handle_event(press(Key::KeyA)), nothing());
    assert_eq!(board.handle_event(release(Key::KeyA)).sound, Some(SoundKind::Release));
    assert_eq!(board.handle_event(press(Key::KeyA)).sound, Some(SoundKind::Press));
}

#[test]
fn alt_m_mutes_and_unmutes() {
    let mut board = SoundBoard::new();
    assert_eq!(board.handle_event(press(Key::Alt)).sound, Some(SoundKind::Press));
    let reaction = board.handle_event(press(Key::KeyM));
    assert_eq!(reaction, Reaction { hotkey: Some(HotKeyEvent::Mute), sound: None });
    assert!(board.is_muted());
    assert_eq!(board.handle_event(release(Key::KeyM)), nothing());
    assert_eq!(board.handle_event(release(Key::Alt)), nothing());
    assert_eq!(board.handle_event(press(Key::KeyA)), nothing());
    assert_eq!(board.handle_event(press(Key::Alt)), nothing());
    let reaction = board.handle_event(press(Key::KeyM));
    assert_eq!(reaction, Reaction { hotkey: Some(HotKeyEvent::Mute), sound: Some(SoundKind::Press) });
    assert!(!board.is_muted());
}

#[test]
fn alt_held_then_letter_is_a_hotkey() {
    let mut board = SoundBoard::new();
    board.handle_event(press(Key::Alt));
    assert_eq!(board.handle_event(press(Key::Alt)), nothing());
    let reaction = board.handle_event(press(Key::KeyK));
    assert_eq!(reaction.hotkey, Some(HotKeyEvent::VolumeUp));
    assert_eq!(reaction.sound, Some(SoundKind::Press));
}

#[test]
fn volume_hotkeys_are_reported_even_when_muted() {
    let mut board = SoundBoard::new();
    board.handle_event(press(Key::Alt));
    board.handle_event(press(Key::KeyM));
    assert!(board.is_muted());
    board.handle_event(press(Key::Alt));
    assert_eq!(board.handle_event(press(Key::KeyJ)), Reaction { hotkey: Some(HotKeyEvent::VolumeDown), sound: None });
    assert!(board.is_muted());
}

#[test]
fn other_events_are_ignored() {
    let mut board = SoundBoard::new();
    board.handle_event(press(Key::KeyA));
    assert_eq!(board.handle_event(InputEvent::Other), nothing());
    assert_eq!(board.held_key(), Some(Key::KeyA));
}

#[test]
fn release_of_another_key_rearms_the_held_key() {
    let mut board = SoundBoard::new();
    board.handle_event(press(Key::KeyA));
    assert_eq!(board.handle_event(release(Key::KeyB)).sound, Some(SoundKind::Release));
    assert_eq!(board.handle_event(press(Key::KeyA)).sound, Some(SoundKind::Press));
}
