//! The set of keys that are currently held down.
//!
//! The event thread edits the set on every keyboard event; the render
//! thread reads it once per frame. The set keeps the order in which the
//! keys went down and never holds a key twice.

use vstd::prelude::*;

verus! {

/// A key of the keyboard.
///
/// The keys that the renderer gives a meaning to have a variant of their
/// own; every other key is told apart by its platform code.
#[derive(Clone, Copy, Debug, PartialEq, Eq, Structural)]
pub enum Key {
    Left,
    Right,
    Up,
    Down,
    W,
    A,
    S,
    D,
    LShift,
    Space,
    Escape,
    Q,
    Other(u32),
}

/// Whether a keyboard event reports a key going down or coming up.
#[derive(Clone, Copy, Debug, PartialEq, Eq, Structural)]
pub enum KeyState {
    Pressed,
    Released,
}

/// One keyboard event: a key and what happened to it.
#[derive(Clone, Copy, Debug, PartialEq, Eq, Structural)]
pub struct KeyEvent {
    pub state: KeyState,
    pub key: Key,
}

/// The held keys after `key` went down: appended, unless already held.
pub open spec fn pressed(held: Seq<Key>, key: Key) -> Seq<Key> {
    if held.contains(key) {
        held
    } else {
        held.push(key)
    }
}

/// The held keys after `key` came up: its entry is gone, the rest keep
/// their order.
pub open spec fn released(held: Seq<Key>, key: Key) -> Seq<Key> {
    held.remove_value(key)
}

/// The held keys after one keyboard event.
pub open spec fn after_event(held: Seq<Key>, event: KeyEvent) -> Seq<Key> {
    match event.state {
        KeyState::Pressed => pressed(held, event.key),
        KeyState::Released => released(held, event.key),
    }
}

/// The held keys after a run of keyboard events, oldest first.
pub open spec fn replay(held: Seq<Key>, events: Seq<KeyEvent>) -> Seq<Key>
    decreases events.len(),
{
    if events.len() == 0 {
        held
    } else {
        after_event(replay(held, events.drop_last()), events.last())
    }
}

/// Whether `key` is down after a run of events, going by the events alone:
/// the latest event that names the key decides, and where none does, the
/// key is as it was before.
pub open spec fn held_after(before: bool, events: Seq<KeyEvent>, key: Key) -> bool
    decreases events.len(),
{
    if events.len() == 0 {
        before
    } else if events.last().key == key {
        events.last().state == KeyState::Pressed
    } else {
        held_after(before, events.drop_last(), key)
    }
}

/// The keys that are held down, in the order in which they went down.
pub struct PressedKeys {
    keys: Vec<Key>,
}

impl PressedKeys {
    /// The held keys, oldest first.
    pub closed spec fn view(&self) -> Seq<Key> {
        self.keys@
    }

    /// No key is held twice. Every set starts out so and every operation
    /// keeps it so.
    pub open spec fn wf(&self) -> bool {
        self@.no_duplicates()
    }

    /// No key is held.
    pub fn new() -> (set: PressedKeys)
        ensures
            set.wf(),
            set@ == Seq::<Key>::empty(),
    {
        PressedKeys { keys: Vec::new() }
    }

    /// The number of held keys.
    pub fn len(&self) -> (n: usize)
        ensures
            n == self@.len(),
    {
        self.keys.len()
    }

    /// Whether no key is held.
    pub fn is_empty(&self) -> (empty: bool)
        ensures
            empty == (self@.len() == 0),
    {
        self.keys.len() == 0
    }

    /// Where `key` stands among the held keys, if it is held.
    pub fn position(&self, key: Key) -> (at: Option<usize>)
        ensures
            match at {
                Some(i) => i < self@.len() && self@[i as int] == key && self@.index_of_first(key) == Some(
                    i as int,
                ),
                None => self@.index_of_first(key) is None,
            },
            (at is Some) == self@.contains(key),
    {
        let mut i: usize = 0;
        while i < self.keys.len()
            invariant
                i <= self.keys@.len(),
                forall|j: int| 0 <= j < i ==> self.keys@[j] != key,
            decreases self.keys@.len() - i,
        {
            if self.keys[i] == key {
                proof {
                    self.keys@.index_of_first_ensures(key);
                }
                return Some(i);
            }
            i += 1;
        }
        proof {
            self.keys@.index_of_first_ensures(key);
        }
        None
    }

    /// Whether `key` is held.
    pub fn contains(&self, key: Key) -> (held: bool)
        ensures
            held == self@.contains(key),
    {
        self.position(key).is_some()
    }

    /// The held keys, oldest first.
    pub fn as_slice(&self) -> (keys: &[Key])
        ensures
            keys@ == self@,
    {
        self.keys.as_slice()
    }

    /// The held keys, oldest first, as a vector of their own.
    pub fn snapshot(&self) -> (keys: Vec<Key>)
        ensures
            keys@ == self@,
    {
        let mut keys: Vec<Key> = Vec::new();
        let mut i: usize = 0;
        while i < self.keys.len()
            invariant
                i <= self.keys@.len(),
                keys@ == self.keys@.take(i as int),
            decreases self.keys@.len() - i,
        {
            keys.push(self.keys[i]);
            proof {
                assert(self.keys@.take(i + 1) == self.keys@.take(i as int).push(self.keys@[i as int]));
            }
            i += 1;
        }
        proof {
            assert(self.keys@.take(self.keys@.len() as int) == self.keys@);
        }
        keys
    }

    /// `key` went down. A key that is already held stays where it is.
    pub fn press(&mut self, key: Key)
        ensures
            final(self)@ == pressed(old(self)@, key),
            old(self).wf() ==> final(self).wf(),
    {
        proof {
            if self.wf() {
                lemma_pressed_distinct(self.keys@, key);
            }
        }
        if !self.contains(key) {
            self.keys.push(key);
        }
    }

    /// `key` came up. A key that is not held leaves the set as it is.
    pub fn release(&mut self, key: Key)
        ensures
            final(self)@ == released(old(self)@, key),
            old(self).wf() ==> final(self).wf(),
    {
        proof {
            if self.wf() {
                lemma_released_distinct(self.keys@, key);
            }
        }
        match self.position(key) {
            Some(i) => {
                self.keys.remove(i);
            },
            None => {},
        }
    }

    /// Takes one keyboard event into the set.
    pub fn apply(&mut self, event: KeyEvent)
        ensures
            final(self)@ == after_event(old(self)@, event),
            old(self).wf() ==> final(self).wf(),
    {
        match event.state {
            KeyState::Pressed => self.press(event.key),
            KeyState::Released => self.release(event.key),
        }
    }
}

/// Releasing a key keeps the held keys distinct, drops exactly that key
/// and shortens the set by one where the key was held.
pub proof fn lemma_released_distinct(held: Seq<Key>, key: Key)
    requires
        held.no_duplicates(),
    ensures
        released(held, key).no_duplicates(),
        !released(held, key).contains(key),
        forall|other: Key| other != key ==> released(held, key).contains(other) == held.contains(other),
        released(held, key).len() == held.len() - if held.contains(key) { 1int } else { 0int },
{
    held.index_of_first_ensures(key);
    let after = released(held, key);
    match held.index_of_first(key) {
        Some(at) => {
            assert(after == held.remove(at));
            assert forall|i: int, j: int| 0 <= i < after.len() && 0 <= j < after.len() && i != j implies after[i] != after[j] by {
                let si = if i < at { i } else { i + 1 };
                let sj = if j < at { j } else { j + 1 };
                assert(after[i] == held[si]);
                assert(after[j] == held[sj]);
            }
            assert(!after.contains(key)) by {
                if after.contains(key) {
                    let i = choose|i: int| 0 <= i < after.len() && after[i] == key;
                    let si = if i < at { i } else { i + 1 };
                    assert(after[i] == held[si]);
                    assert(held[si] == held[at]);
                }
            }
            assert forall|other: Key| other != key implies after.contains(other) == held.contains(other) by {
                if after.contains(other) {
                    let i = choose|i: int| 0 <= i < after.len() && after[i] == other;
                    let si = if i < at { i } else { i + 1 };
                    assert(held[si] == other);
                }
                if held.contains(other) {
                    let s = choose|s: int| 0 <= s < held.len() && held[s] == other;
                    let i = if s < at { s } else { s - 1 };
                    assert(after[i] == other);
                }
            }
        },
        None => {},
    }
}

/// Pressing a key keeps the held keys distinct, holds that key afterwards
/// and leaves every other key as it was.
pub proof fn lemma_pressed_distinct(held: Seq<Key>, key: Key)
    requires
        held.no_duplicates(),
    ensures
        pressed(held, key).no_duplicates(),
        pressed(held, key).contains(key),
        forall|other: Key| other != key ==> pressed(held, key).contains(other) == held.contains(other),
        pressed(held, key).len() == held.len() + if held.contains(key) { 0int } else { 1int },
{
    let after = pressed(held, key);
    if !held.contains(key) {
        assert(after[held.len() as int] == key);
        assert forall|other: Key| other != key implies after.contains(other) == held.contains(other) by {
            if after.contains(other) {
                let i = choose|i: int| 0 <= i < after.len() && after[i] == other;
                assert(held[i] == other);
            }
            if held.contains(other) {
                let i = choose|i: int| 0 <= i < held.len() && held[i] == other;
                assert(after[i] == other);
            }
        }
    }
}

/// A run of keyboard events never makes a key appear twice.
pub proof fn lemma_replay_distinct(held: Seq<Key>, events: Seq<KeyEvent>)
    requires
        held.no_duplicates(),
    ensures
        replay(held, events).no_duplicates(),
    decreases events.len(),
{
    if events.len() > 0 {
        lemma_replay_distinct(held, events.drop_last());
        let before = replay(held, events.drop_last());
        lemma_pressed_distinct(before, events.last().key);
        lemma_released_distinct(before, events.last().key);
    }
}

/// After any run of keyboard events a key is held exactly when the latest
/// event that names it was a press; a key that no event names is held
/// exactly when it was held before.
pub proof fn lemma_latest_event_decides(held: Seq<Key>, events: Seq<KeyEvent>, key: Key)
    requires
        held.no_duplicates(),
    ensures
        replay(held, events).contains(key) == held_after(held.contains(key), events, key),
    decreases events.len(),
{
    if events.len() > 0 {
        let before = replay(held, events.drop_last());
        lemma_replay_distinct(held, events.drop_last());
        lemma_latest_event_decides(held, events.drop_last(), key);
        lemma_pressed_distinct(before, events.last().key);
        lemma_released_distinct(before, events.last().key);
    }
}

/// Pressing a key that is already held changes nothing, so a second press
/// without a release in between leaves the set, and its size, as the
/// first press left them.
pub proof fn lemma_press_idempotent(held: Seq<Key>, key: Key)
    requires
        held.no_duplicates(),
    ensures
        pressed(pressed(held, key), key) == pressed(held, key),
        pressed(pressed(held, key), key).len() == pressed(held, key).len(),
{
    lemma_pressed_distinct(held, key);
}

/// Releasing a key that is not held changes nothing.
pub proof fn lemma_release_absent(held: Seq<Key>, key: Key)
    requires
        !held.contains(key),
    ensures
        released(held, key) == held,
{
    held.index_of_first_ensures(key);
}

/// A press followed by the release of the same key gives back the set
/// from before the press, where the key was not held then.
pub proof fn lemma_press_then_release(held: Seq<Key>, key: Key)
    requires
        held.no_duplicates(),
        !held.contains(key),
    ensures
        released(pressed(held, key), key) == held,
{
    let down = held.push(key);
    down.index_of_first_ensures(key);
    assert(down[held.len() as int] == key);
    match down.index_of_first(key) {
        Some(at) => {
            if at < held.len() {
                assert(held[at] == key);
            }
            assert(down.remove(at) == held);
        },
        None => {},
    }
}

} // verus!
