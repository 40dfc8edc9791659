//! The sound board's decisions: what a key event does to the board's state
//! and which sound, if any, it plays.
//!
//! Playing and the volume itself (a gain) are left to the caller; the board
//! reports the hotkey it saw so that the caller can adjust the gain.

use vstd::prelude::*;

use crate::hotkey::{hotkey_of, HotKeyEvent, HotKeyListener, ListenerModel};
use crate::keys::Key;

verus! {

/// How many recent keys the board's hotkey listener remembers.
pub const HOTKEY_WINDOW: usize = 3;

/// A keyboard event as the input hook reports it.
#[derive(Clone, Copy, Debug, PartialEq, Eq, Structural)]
pub enum InputEvent {
    KeyPress(Key),
    KeyRelease(Key),
    /// Any other event (mouse buttons, motion, wheel): the board ignores it.
    Other,
}

/// Which pool of recorded sounds to play from.
#[derive(Clone, Copy, Debug, PartialEq, Eq, Structural)]
pub enum SoundKind {
    Press,
    Release,
    SpacebarPress,
    SpacebarRelease,
}

/// What the board asks its caller to do after an event.
#[derive(Clone, Copy, Debug, PartialEq, Eq, Structural)]
pub struct Reaction {
    /// The hotkey that the event completed, if any.
    pub hotkey: Option<HotKeyEvent>,
    /// The sound to play, if any.
    pub sound: Option<SoundKind>,
}

/// The reaction that does nothing.
pub open spec fn no_reaction() -> Reaction {
    Reaction { hotkey: None, sound: None }
}

/// The sound of pressing `key`: the space bar has its own.
pub open spec fn press_sound(key: Key) -> SoundKind {
    if key == Key::Space {
        SoundKind::SpacebarPress
    } else {
        SoundKind::Press
    }
}

/// The sound of releasing `key`: the space bar has its own.
pub open spec fn release_sound(key: Key) -> SoundKind {
    if key == Key::Space {
        SoundKind::SpacebarRelease
    } else {
        SoundKind::Release
    }
}

/// The abstract state of a [`SoundBoard`].
pub struct BoardModel {
    pub muted: bool,
    /// The key pressed last and not released since; a second press of it is
    /// the keyboard's auto-repeat and is ignored.
    pub last_key: Option<Key>,
    pub listener: ListenerModel,
}

impl BoardModel {
    /// The board's invariant: the listener is well formed, and a held key is
    /// the newest key the listener has seen.
    pub open spec fn wf(self) -> bool {
        &&& self.listener.wf()
        &&& (self.last_key matches Some(k) ==> self.listener.keys.len() > 0
            && self.listener.keys.last() == k)
    }

    /// The state after `event` and the reaction to it.
    ///
    /// A press of the held key does nothing. Any other press is held, goes to
    /// the hotkey listener (a completed Mute hotkey flips `muted`), and plays
    /// its press sound unless the board is now muted. A release forgets the
    /// held key and plays its release sound unless the board is muted.
    pub open spec fn step(self, event: InputEvent) -> (BoardModel, Reaction) {
        match event {
            InputEvent::KeyPress(key) => {
                if self.last_key == Some(key) {
                    (self, no_reaction())
                } else {
                    let hotkey = self.listener.event_for(key);
                    let muted = if hotkey == Some(HotKeyEvent::Mute) {
                        !self.muted
                    } else {
                        self.muted
                    };
                    let next = BoardModel {
                        muted,
                        last_key: Some(key),
                        listener: self.listener.after_key(key),
                    };
                    let sound = if muted {
                        None
                    } else {
                        Some(press_sound(key))
                    };
                    (next, Reaction { hotkey, sound })
                }
            },
            InputEvent::KeyRelease(key) => {
                let sound = if self.muted {
                    None
                } else {
                    Some(release_sound(key))
                };
                (BoardModel { last_key: None, ..self }, Reaction { hotkey: None, sound })
            },
            InputEvent::Other => (self, no_reaction()),
        }
    }
}

/// The decision state of the sound board.
pub struct SoundBoard {
    is_muted: bool,
    hot_key_listener: HotKeyListener,
    last_key: Option<Key>,
}

impl View for SoundBoard {
    type V = BoardModel;

    closed spec fn view(&self) -> BoardModel {
        BoardModel { muted: self.is_muted, last_key: self.last_key, listener: self.hot_key_listener@ }
    }
}

impl SoundBoard {
    /// A board that is not muted, holds no key, and listens for hotkeys over
    /// a window of [`HOTKEY_WINDOW`] keys.
    pub fn new() -> (board: Self)
        ensures
            board@ == (BoardModel {
                muted: false,
                last_key: None,
                listener: ListenerModel { max_size: HOTKEY_WINDOW as nat, leader: false, keys: Seq::empty() },
            }),
            board@.wf(),
    {
        SoundBoard { is_muted: false, hot_key_listener: HotKeyListener::new(HOTKEY_WINDOW), last_key: None }
    }

    /// Whether the board is muted.
    pub fn is_muted(&self) -> (muted: bool)
        ensures
            muted == self@.muted,
    {
        self.is_muted
    }

    /// The key held down since its last press, if any.
    pub fn held_key(&self) -> (key: Option<Key>)
        ensures
            key == self@.last_key,
    {
        self.last_key
    }

    /// Handles one input event and says what to do about it.
    pub fn handle_event(&mut self, event: InputEvent) -> (reaction: Reaction)
        ensures
            (final(self)@, reaction) == old(self)@.step(event),
            old(self)@.wf() ==> final(self)@.wf(),
    {
        match event {
            InputEvent::KeyPress(key) => {
                if self.last_key == Some(key) {
                    return Reaction { hotkey: None, sound: None };
                }
                self.last_key = Some(key);
                let hotkey = self.hot_key_listener.input_key(key);
                if hotkey == Some(HotKeyEvent::Mute) {
                    self.is_muted = !self.is_muted;
                }
                if self.is_muted {
                    return Reaction { hotkey, sound: None };
                }
                let sound = if key == Key::Space {
                    SoundKind::SpacebarPress
                } else {
                    SoundKind::Press
                };
                Reaction { hotkey, sound: Some(sound) }
            },
            InputEvent::KeyRelease(key) => {
                self.last_key = None;
                if self.is_muted {
                    return Reaction { hotkey: None, sound: None };
                }
                let sound = if key == Key::Space {
                    SoundKind::SpacebarRelease
                } else {
                    SoundKind::Release
                };
                Reaction { hotkey: None, sound: Some(sound) }
            },
            InputEvent::Other => Reaction { hotkey: None, sound: None },
        }
    }
}

/// Auto-repeat is ignored: pressing a key again before releasing it leaves
/// the board as it is and does nothing.
pub proof fn law_repeated_press_is_ignored(board: BoardModel, key: Key)
    ensures
        board.step(InputEvent::KeyPress(key)).0.step(InputEvent::KeyPress(key)) == (
        board.step(InputEvent::KeyPress(key)).0,
        no_reaction(),
        ),
{
}

/// A muted board is silent: whenever an event plays a sound, the board is
/// not muted after it.
pub proof fn law_sound_only_when_unmuted(board: BoardModel, event: InputEvent)
    ensures
        board.step(event).1.sound is Some ==> !board.step(event).0.muted,
{
}

/// Only the Mute hotkey changes whether the board is muted, and it flips it.
pub proof fn law_only_mute_hotkey_toggles(board: BoardModel, event: InputEvent)
    ensures
        board.step(event).0.muted == (if board.step(event).1.hotkey == Some(HotKeyEvent::Mute) {
            !board.muted
        } else {
            board.muted
        }),
{
}

/// Pressing Alt and then another key reports the hotkey that the key names
/// (M: Mute, J: VolumeDown, K: VolumeUp) from any reachable state, and the
/// board ends muted exactly when it was not muted before and the key was M,
/// or it was muted and the key was not M.
pub proof fn law_alt_then_key_is_hotkey(board: BoardModel, key: Key)
    requires
        board.wf(),
        key != Key::Alt,
    ensures
        ({
            let after_alt = board.step(InputEvent::KeyPress(Key::Alt)).0;
            let (after, reaction) = after_alt.step(InputEvent::KeyPress(key));
            &&& reaction.hotkey == (if key == Key::KeyM {
                    Some(HotKeyEvent::Mute)
                } else if key == Key::KeyJ {
                    Some(HotKeyEvent::VolumeDown)
                } else if key == Key::KeyK {
                    Some(HotKeyEvent::VolumeUp)
                } else {
                    None
                })
            &&& after.muted == (if key == Key::KeyM {
                !board.muted
            } else {
                board.muted
            })
        }),
{
}

/// Alt, its release, then M is still the Mute hotkey: a release leaves the
/// hotkey listener as it was, so the Alt leader stays armed until the next
/// press. From any reachable state, press Alt, release Alt, press M reports
/// Mute and flips whether the board is muted.
pub proof fn law_alt_release_then_m_mutes(board: BoardModel)
    requires
        board.wf(),
    ensures
        ({
            let after_alt = board.step(InputEvent::KeyPress(Key::Alt)).0;
            let after_release = after_alt.step(InputEvent::KeyRelease(Key::Alt)).0;
            let (after, reaction) = after_release.step(InputEvent::KeyPress(Key::KeyM));
            &&& reaction.hotkey == Some(HotKeyEvent::Mute)
            &&& after.muted == !board.muted
            &&& reaction.sound == (if board.muted {
                Some(SoundKind::Press)
            } else {
                None::<SoundKind>
            })
        }),
{
}

/// A release touches nothing but the held key: the hotkey listener and the
/// mute state stay as they were, no hotkey is reported, and on an unmuted
/// board every release plays the release sound (the space bar's own for the
/// space bar), whether or not any key was held; a muted board plays nothing.
pub proof fn law_release_plays_release_sound(board: BoardModel, key: Key)
    ensures
        ({
            let (after, reaction) = board.step(InputEvent::KeyRelease(key));
            &&& after.listener == board.listener
            &&& after.muted == board.muted
            &&& after.last_key is None
            &&& reaction.hotkey is None
            &&& reaction.sound == (if board.muted {
                None
            } else if key == Key::Space {
                Some(SoundKind::SpacebarRelease)
            } else {
                Some(SoundKind::Release)
            })
        }),
{
}

/// A fresh press (not the auto-repeat of the held key) plays the press sound
/// of that key, the space bar's own for the space bar, whatever key was held
/// before, unless the board is muted after it; then it plays nothing.
pub proof fn law_fresh_press_plays_press_sound(board: BoardModel, key: Key)
    requires
        board.last_key != Some(key),
    ensures
        ({
            let (after, reaction) = board.step(InputEvent::KeyPress(key));
            &&& after.last_key == Some(key)
            &&& reaction.sound == (if after.muted {
                None
            } else if key == Key::Space {
                Some(SoundKind::SpacebarPress)
            } else {
                Some(SoundKind::Press)
            })
        }),
{
}

/// A board reports a hotkey only for a fresh press that directly follows
/// Alt in the stream of presses, and then exactly the one the key names: M
/// mutes, J lowers the volume, K raises it, any other key none. Releases,
/// other events and auto-repeats report none.
pub proof fn law_hotkey_only_after_alt(board: BoardModel, event: InputEvent)
    requires
        board.wf(),
    ensures
        board.step(event).1.hotkey == (match event {
            InputEvent::KeyPress(key) => {
                if board.last_key != Some(key) && board.listener.keys.len() > 0
                    && board.listener.keys.last() == Key::Alt {
                    if key == Key::KeyM {
                        Some(HotKeyEvent::Mute)
                    } else if key == Key::KeyJ {
                        Some(HotKeyEvent::VolumeDown)
                    } else if key == Key::KeyK {
                        Some(HotKeyEvent::VolumeUp)
                    } else {
                        None
                    }
                } else {
                    None
                }
            },
            _ => None,
        }),
{
}

/// Hotkeys are handled before the mute check: whether the board is muted
/// changes nothing about which hotkey an event reports.
pub proof fn law_hotkeys_heard_while_muted(board: BoardModel, event: InputEvent)
    ensures
        board.step(event).1.hotkey == (BoardModel { muted: !board.muted, ..board }).step(event).1.hotkey,
{
}

/// Releasing a key re-arms it: the next press of it is handled as a fresh
/// press and reaches the hotkey listener.
pub proof fn law_release_rearms_key(board: BoardModel, key: Key)
    ensures
        board.step(InputEvent::KeyRelease(key)).0.last_key is None,
        board.step(InputEvent::KeyRelease(key)).0.step(InputEvent::KeyPress(key)).0.last_key == Some(key),
        board.step(InputEvent::KeyRelease(key)).0.step(InputEvent::KeyPress(key)).0.listener
            == board.listener.after_key(key),
{
}

} // verus!
