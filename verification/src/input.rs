//! Keys, button events, and the set of keys that are held down.

use vstd::prelude::*;
use std::collections::HashSet;

verus! {

broadcast use vstd::std_specs::hash::group_hash_axioms;

/// A keyboard key, named by its key code.
#[derive(Clone, Copy, Debug, PartialEq, Eq, Structural)]
pub struct Key {
    pub code: u32,
}

/// The code of the space bar.
pub const KEY_SPACE: u32 = 0x20;

/// The code of the letter A.
pub const KEY_A: u32 = 0x61;

/// The code of the letter D.
pub const KEY_D: u32 = 0x64;

impl Key {
    pub fn new(code: u32) -> (k: Key)
        ensures
            k == (Key { code }),
    {
        Key { code }
    }

    #[verifier::inline]
    pub open spec fn spec_space() -> Key {
        Key { code: KEY_SPACE }
    }

    #[verifier::inline]
    pub open spec fn spec_a() -> Key {
        Key { code: KEY_A }
    }

    #[verifier::inline]
    pub open spec fn spec_d() -> Key {
        Key { code: KEY_D }
    }

    #[verifier::when_used_as_spec(spec_space)]
    pub fn space() -> (k: Key)
        ensures
            k == Key::spec_space(),
    {
        Key { code: KEY_SPACE }
    }

    #[verifier::when_used_as_spec(spec_a)]
    pub fn a() -> (k: Key)
        ensures
            k == Key::spec_a(),
    {
        Key { code: KEY_A }
    }

    #[verifier::when_used_as_spec(spec_d)]
    pub fn d() -> (k: Key)
        ensures
            k == Key::spec_d(),
    {
        Key { code: KEY_D }
    }
}

/// Whether a button went down or came up.
#[derive(Clone, Copy, Debug, PartialEq, Eq, Structural)]
pub enum ButtonState {
    Press,
    Release,
}

/// The button that changed state. Only keyboard keys carry their identity:
/// nothing here reads which mouse or controller button it was.
#[derive(Clone, Copy, Debug, PartialEq, Eq, Structural)]
pub enum Button {
    Keyboard(Key),
    Mouse,
    Controller,
    Hat,
}

/// One press or release of one button.
#[derive(Clone, Copy, Debug, PartialEq, Eq, Structural)]
pub struct ButtonArgs {
    pub state: ButtonState,
    pub button: Button,
}

/// The held keys after `key` was pressed or released.
pub open spec fn after_button(held: Set<Key>, key: Key, state: ButtonState) -> Set<Key> {
    match state {
        ButtonState::Press => held.insert(key),
        ButtonState::Release => held.remove(key),
    }
}

/// The held keys after a button event. Events of other devices change
/// nothing.
pub open spec fn after_event(held: Set<Key>, event: ButtonArgs) -> Set<Key> {
    match event.button {
        Button::Keyboard(key) => after_button(held, key, event.state),
        _ => held,
    }
}

/// Pressing a key that is already held changes nothing, and neither does
/// releasing one that is not.
pub proof fn lemma_repeated_event_is_idempotent(held: Set<Key>, key: Key, state: ButtonState)
    ensures
        after_button(after_button(held, key, state), key, state) == after_button(held, key, state),
        held.contains(key) ==> after_button(held, key, ButtonState::Press) == held,
        !held.contains(key) ==> after_button(held, key, ButtonState::Release) == held,
{
    assert(after_button(after_button(held, key, state), key, state) =~= after_button(
        held,
        key,
        state,
    ));
    if held.contains(key) {
        assert(held.insert(key) =~= held);
    } else {
        assert(held.remove(key) =~= held);
    }
}

/// A button event changes the state of its own key and of no other.
pub proof fn lemma_event_touches_one_key(
    held: Set<Key>,
    key: Key,
    state: ButtonState,
    other: Key,
)
    requires
        other != key,
    ensures
        after_button(held, key, state).contains(key) == (state == ButtonState::Press),
        after_button(held, key, state).contains(other) == held.contains(other),
{
}

/// The set of keys that are currently held down. Membership is all there
/// is: no order, no timing, no repeat.
pub struct InputState {
    held: HashSet<u32>,
}

impl View for InputState {
    type V = Set<Key>;

    closed spec fn view(&self) -> Set<Key> {
        Set::new(|k: Key| self.held@.contains(k.code))
    }
}

impl InputState {
    /// No key is held.
    pub fn new() -> (s: InputState)
        ensures
            s@ == Set::<Key>::empty(),
    {
        let s = InputState { held: HashSet::new() };
        assert(s@ =~= Set::<Key>::empty());
        s
    }

    /// Records that `key` went down or came up.
    pub fn on_button_event(&mut self, key: Key, state: ButtonState)
        ensures
            final(self)@ == after_button(old(self)@, key, state),
    {
        match state {
            ButtonState::Press => {
                self.held.insert(key.code);
            },
            ButtonState::Release => {
                self.held.remove(&key.code);
            },
        }
        assert(self@ =~= after_button(old(self)@, key, state));
    }

    /// Whether `key` is held down.
    pub fn is_held(&self, key: Key) -> (held: bool)
        ensures
            held == self@.contains(key),
    {
        self.held.contains(&key.code)
    }
}

} // verus!
