//! The hotkey listener: Alt followed by M, J or K is a hotkey.
//!
//! The listener keeps a bounded window of the most recent keys and a
//! "leader" flag that is set while the last key was Alt.

use std::collections::VecDeque;
use vstd::prelude::*;

use crate::keys::Key;

verus! {

/// What a hotkey asks the sound board to do.
#[derive(Clone, Copy, Debug, PartialEq, Eq, Structural)]
pub enum HotKeyEvent {
    Mute,
    VolumeUp,
    VolumeDown,
}

/// The hotkey that a key names when it follows Alt: M mutes, J lowers the
/// volume, K raises it; every other key names none.
pub open spec fn hotkey_of(key: Key) -> Option<HotKeyEvent> {
    match key {
        Key::KeyM => Some(HotKeyEvent::Mute),
        Key::KeyJ => Some(HotKeyEvent::VolumeDown),
        Key::KeyK => Some(HotKeyEvent::VolumeUp),
        _ => None,
    }
}

/// The last `min(s.len(), cap)` elements of `s`, in order.
pub open spec fn recent(s: Seq<Key>, cap: nat) -> Seq<Key> {
    if s.len() <= cap {
        s
    } else {
        s.subrange(s.len() - cap, s.len() as int)
    }
}

/// The abstract state of a [`HotKeyListener`].
pub struct ListenerModel {
    /// The bound the listener was made with.
    pub max_size: nat,
    /// Set exactly while the last key seen was Alt.
    pub leader: bool,
    /// The remembered keys, oldest first.
    pub keys: Seq<Key>,
}

impl ListenerModel {
    /// How many keys the listener remembers: `max_size`, but at least the
    /// key just seen.
    pub open spec fn capacity(self) -> nat {
        if self.max_size == 0 {
            1
        } else {
            self.max_size
        }
    }

    /// The listener's invariant: the window is within its capacity, and the
    /// leader flag says whether the newest remembered key is Alt.
    pub open spec fn wf(self) -> bool {
        &&& self.keys.len() <= self.capacity()
        &&& (self.leader <==> (self.keys.len() > 0 && self.keys.last() == Key::Alt))
    }

    /// The remembered keys after `key`: the oldest one is dropped when the
    /// window already holds `max_size` keys, then `key` is appended.
    pub open spec fn keys_after(self, key: Key) -> Seq<Key> {
        if self.keys.len() >= self.max_size && self.keys.len() > 0 {
            self.keys.drop_first().push(key)
        } else {
            self.keys.push(key)
        }
    }

    /// The state after `key`.
    pub open spec fn after_key(self, key: Key) -> ListenerModel {
        ListenerModel { max_size: self.max_size, leader: key == Key::Alt, keys: self.keys_after(key) }
    }

    /// The hotkey that `key` completes: one exactly when the previous key
    /// was Alt (the leader flag is set) and `key` names a hotkey.
    pub open spec fn event_for(self, key: Key) -> Option<HotKeyEvent> {
        if key == Key::Alt || !self.leader {
            None
        } else {
            hotkey_of(key)
        }
    }
}

/// Watches the stream of pressed keys for hotkeys.
pub struct HotKeyListener {
    max_size: usize,
    leader: bool,
    buffer: VecDeque<Key>,
}

impl View for HotKeyListener {
    type V = ListenerModel;

    closed spec fn view(&self) -> ListenerModel {
        ListenerModel { max_size: self.max_size as nat, leader: self.leader, keys: self.buffer@ }
    }
}

impl HotKeyListener {
    /// A listener that remembers up to `max_size` keys, with no key seen yet.
    pub fn new(max_size: usize) -> (listener: Self)
        ensures
            listener@ == (ListenerModel { max_size: max_size as nat, leader: false, keys: Seq::empty() }),
            listener@.wf(),
    {
        HotKeyListener { max_size, leader: false, buffer: VecDeque::new() }
    }

    /// The bound the listener was made with.
    pub fn max_size(&self) -> (n: usize)
        ensures
            n == self@.max_size,
    {
        self.max_size
    }

    /// The remembered keys, oldest first.
    pub fn recent_keys(&self) -> (keys: Vec<Key>)
        ensures
            keys@ == self@.keys,
    {
        proof {
            broadcast use vstd::std_specs::vecdeque::group_vec_dequeue_axioms;
        }
        let mut keys: Vec<Key> = Vec::new();
        let mut i: usize = 0;
        while i < self.buffer.len()
            invariant
                i <= self.buffer@.len(),
                keys@ == self.buffer@.subrange(0, i as int),
            decreases self.buffer@.len() - i,
        {
            keys.push(self.buffer[i]);
            i = i + 1;
        }
        keys
    }

    /// Records a pressed key and returns the hotkey it completes, if any.
    pub fn input_key(&mut self, key: Key) -> (event: Option<HotKeyEvent>)
        ensures
            final(self)@ == old(self)@.after_key(key),
            event == old(self)@.event_for(key),
            old(self)@.wf() ==> final(self)@.wf(),
    {
        proof {
            broadcast use vstd::std_specs::vecdeque::group_vec_dequeue_axioms;
        }
        if self.buffer.len() >= self.max_size {
            self.buffer.pop_front();
        }
        self.buffer.push_back(key);
        self.check_combinations()
    }

    /// Looks at the newest key: Alt arms the leader flag; any other key
    /// disarms it and, if it was armed, yields the hotkey that the key names.
    fn check_combinations(&mut self) -> (event: Option<HotKeyEvent>)
        requires
            old(self)@.keys.len() > 0,
        ensures
            final(self)@.max_size == old(self)@.max_size,
            final(self)@.keys == old(self)@.keys,
            final(self)@.leader == (old(self)@.keys.last() == Key::Alt),
            event == (if old(self)@.keys.last() == Key::Alt || !old(self)@.leader {
                None
            } else {
                hotkey_of(old(self)@.keys.last())
            }),
    {
        proof {
            broadcast use vstd::std_specs::vecdeque::group_vec_dequeue_axioms;
        }
        let last_key = self.buffer[self.buffer.len() - 1];
        if last_key == Key::Alt {
            self.leader = true;
            return None;
        }
        if !self.leader {
            return None;
        }
        self.leader = false;
        match last_key {
            Key::KeyM => Some(HotKeyEvent::Mute),
            Key::KeyJ => Some(HotKeyEvent::VolumeDown),
            Key::KeyK => Some(HotKeyEvent::VolumeUp),
            _ => None,
        }
    }
}

/// The state of a listener made with `max_size` after it has seen `keys`
/// in order.
pub open spec fn listener_after(max_size: nat, keys: Seq<Key>) -> ListenerModel
    decreases keys.len(),
{
    if keys.len() == 0 {
        ListenerModel { max_size, leader: false, keys: Seq::empty() }
    } else {
        listener_after(max_size, keys.drop_last()).after_key(keys.last())
    }
}

/// Appending a key to the kept window and keeping the window again is the
/// same as keeping the window of the whole history with the key appended.
proof fn lemma_recent_push(s: Seq<Key>, key: Key, cap: nat)
    requires
        cap > 0,
    ensures
        recent(recent(s, cap).push(key), cap) == recent(s.push(key), cap),
{
    assert(recent(recent(s, cap).push(key), cap) =~= recent(s.push(key), cap));
}

/// In a well-formed state, one step of the listener keeps exactly the most
/// recent `capacity()` keys of the window extended by the new key.
pub proof fn lemma_keys_after_is_window(model: ListenerModel, key: Key)
    requires
        model.wf(),
    ensures
        model.keys_after(key) == recent(model.keys.push(key), model.capacity()),
        model.after_key(key).wf(),
{
    assert(model.keys_after(key) =~= recent(model.keys.push(key), model.capacity()));
}

/// Whatever keys a new listener has seen, it remembers exactly the most
/// recent `max(max_size, 1)` of them, oldest first, and its leader flag is set
/// exactly when the last of them was Alt.
pub proof fn law_listener_remembers_recent_keys(max_size: nat, keys: Seq<Key>)
    ensures
        listener_after(max_size, keys).wf(),
        listener_after(max_size, keys).max_size == max_size,
        listener_after(max_size, keys).keys == recent(keys, listener_after(max_size, keys).capacity()),
        listener_after(max_size, keys).leader == (keys.len() > 0 && keys.last() == Key::Alt),
    decreases keys.len(),
{
    if keys.len() > 0 {
        let prev = keys.drop_last();
        law_listener_remembers_recent_keys(max_size, prev);
        let m = listener_after(max_size, prev);
        lemma_keys_after_is_window(m, keys.last());
        lemma_recent_push(prev, keys.last(), m.capacity());
        assert(prev.push(keys.last()) =~= keys);
    }
}

/// Alt followed by a key completes the hotkey that the key names, whatever
/// came before: M mutes, J lowers the volume, K raises it, and every other
/// key (Tab, say) completes none.
pub proof fn law_alt_then_key_fires(model: ListenerModel, key: Key)
    ensures
        model.after_key(Key::Alt).event_for(key) == (if key == Key::KeyM {
                Some(HotKeyEvent::Mute)
            } else if key == Key::KeyJ {
                Some(HotKeyEvent::VolumeDown)
            } else if key == Key::KeyK {
                Some(HotKeyEvent::VolumeUp)
            } else {
                None
            }),
{
}

/// Only M, J and K ever complete a hotkey, and each always names the same
/// one; a key completes one only when the newest key before it was Alt.
pub proof fn law_only_m_j_k_are_hotkeys(model: ListenerModel, key: Key)
    requires
        model.wf(),
    ensures
        model.event_for(key) == (if model.keys.len() > 0 && model.keys.last() == Key::Alt {
            (if key == Key::KeyM {
                    Some(HotKeyEvent::Mute)
                } else if key == Key::KeyJ {
                    Some(HotKeyEvent::VolumeDown)
                } else if key == Key::KeyK {
                    Some(HotKeyEvent::VolumeUp)
                } else {
                    None
                })
        } else {
            None
        }),
{
}

/// A hotkey is only ever reported right after Alt: in a well-formed state,
/// a key completes a hotkey only when the newest remembered key is Alt.
pub proof fn law_hotkey_needs_alt(model: ListenerModel, key: Key)
    requires
        model.wf(),
        model.event_for(key) is Some,
    ensures
        model.keys.len() > 0,
        model.keys.last() == Key::Alt,
{
}

} // verus!
