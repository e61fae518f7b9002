//! The input state: which keys and mouse buttons are held down, and where
//! the pointer was last seen.

use vstd::prelude::*;
use std::collections::HashSet;
use crate::event::Event;
use crate::keycode::{lemma_number_injective as lemma_key_number_injective, KeyCode};
use crate::mousecode::{lemma_number_injective as lemma_button_number_injective, MouseCode};

verus! {

broadcast use vstd::std_specs::hash::group_hash_axioms;

/// The keys and buttons that are down, kept by their numbers, and the last
/// pointer position as two bit patterns.
pub struct Input {
    keys_pressed: HashSet<u32>,
    mouse_pressed: HashSet<u8>,
    mouse_location: (u64, u64),
}

impl Input {
    /// The keys that are down.
    pub closed spec fn keys(&self) -> Set<KeyCode> {
        Set::new(|key: KeyCode| self.keys_pressed@.contains(key.number()))
    }

    /// The mouse buttons that are down.
    pub closed spec fn buttons(&self) -> Set<MouseCode> {
        Set::new(|button: MouseCode| self.mouse_pressed@.contains(button.number()))
    }

    /// The last pointer position.
    pub closed spec fn pointer(&self) -> (u64, u64) {
        self.mouse_location
    }

    /// The keys that are down once `event` has been recorded.
    pub open spec fn keys_after(&self, event: Event) -> Set<KeyCode> {
        match event {
            Event::KeyPress { key } => self.keys().insert(key),
            Event::KeyRelease { key } => self.keys().remove(key),
            _ => self.keys(),
        }
    }

    /// The buttons that are down once `event` has been recorded.
    pub open spec fn buttons_after(&self, event: Event) -> Set<MouseCode> {
        match event {
            Event::MouseButtonPress { mouse_button } => self.buttons().insert(mouse_button),
            Event::MouseButtonRelease { mouse_button } => self.buttons().remove(mouse_button),
            _ => self.buttons(),
        }
    }

    /// The pointer position once `event` has been recorded.
    pub open spec fn pointer_after(&self, event: Event) -> (u64, u64) {
        match event {
            Event::MouseMove { x, y } => (x, y),
            _ => self.pointer(),
        }
    }

    /// The state before any event: nothing is down, the pointer is at the
    /// origin (both bit patterns zero).
    pub fn new() -> (input: Input)
        ensures
            input.keys() == Set::<KeyCode>::empty(),
            input.buttons() == Set::<MouseCode>::empty(),
            input.pointer() == (0u64, 0u64),
    {
        let input = Input {
            keys_pressed: HashSet::new(),
            mouse_pressed: HashSet::new(),
            mouse_location: (0, 0),
        };
        assert(input.keys() =~= Set::<KeyCode>::empty());
        assert(input.buttons() =~= Set::<MouseCode>::empty());
        input
    }

    /// Whether `key` is down.
    pub fn is_key_pressed(&self, key: KeyCode) -> (down: bool)
        ensures
            down == self.keys().contains(key),
    {
        let code: u32 = key.code();
        self.keys_pressed.contains(&code)
    }

    /// Whether `button` is down.
    pub fn is_mouse_pressed(&self, button: MouseCode) -> (down: bool)
        ensures
            down == self.buttons().contains(button),
    {
        let code: u8 = button.code();
        self.mouse_pressed.contains(&code)
    }

    /// The last pointer position, as two bit patterns.
    pub fn mouse_location(&self) -> (at: (u64, u64))
        ensures
            at == self.pointer(),
    {
        self.mouse_location
    }

    /// Records one event: a press adds its key or button, a release takes it
    /// away (and changes nothing where it was not down), a pointer move
    /// replaces the position. Every other event leaves the state as it was.
    pub fn record(&mut self, event: Event)
        ensures
            final(self).keys() == old(self).keys_after(event),
            final(self).buttons() == old(self).buttons_after(event),
            final(self).pointer() == old(self).pointer_after(event),
    {
        match event {
            Event::KeyPress { key } => {
                let code: u32 = key.code();
                self.keys_pressed.insert(code);
                proof {
                    assert forall|k: KeyCode|
                        self.keys().contains(k) == old(self).keys().insert(key).contains(
                            k,
                        ) by {
                        if k.number() == key.number() {
                            lemma_key_number_injective(k, key);
                        }
                    }
                    assert(self.keys() =~= old(self).keys().insert(key));
                }
            },
            Event::KeyRelease { key } => {
                let code: u32 = key.code();
                self.keys_pressed.remove(&code);
                proof {
                    assert forall|k: KeyCode|
                        self.keys().contains(k) == old(self).keys().remove(key).contains(
                            k,
                        ) by {
                        if k.number() == key.number() {
                            lemma_key_number_injective(k, key);
                        }
                    }
                    assert(self.keys() =~= old(self).keys().remove(key));
                }
            },
            Event::MouseButtonPress { mouse_button } => {
                let code: u8 = mouse_button.code();
                self.mouse_pressed.insert(code);
                proof {
                    assert forall|b: MouseCode|
                        self.buttons().contains(b) == old(self).buttons().insert(
                            mouse_button,
                        ).contains(b) by {
                        if b.number() == mouse_button.number() {
                            lemma_button_number_injective(b, mouse_button);
                        }
                    }
                    assert(self.buttons() =~= old(self).buttons().insert(mouse_button));
                }
            },
            Event::MouseButtonRelease { mouse_button } => {
                let code: u8 = mouse_button.code();
                self.mouse_pressed.remove(&code);
                proof {
                    assert forall|b: MouseCode|
                        self.buttons().contains(b) == old(self).buttons().remove(
                            mouse_button,
                        ).contains(b) by {
                        if b.number() == mouse_button.number() {
                            lemma_button_number_injective(b, mouse_button);
                        }
                    }
                    assert(self.buttons() =~= old(self).buttons().remove(mouse_button));
                }
            },
            Event::MouseMove { x, y } => {
                self.mouse_location = (x, y);
            },
            _ => {},
        }
    }
}

/// A key is down after its press, up after its release, and a release of a
/// key that is not down changes nothing.
pub proof fn lemma_press_then_release(input: Input, key: KeyCode)
    ensures
        input.keys_after(Event::KeyPress { key }).contains(key),
        !input.keys_after(Event::KeyRelease { key }).contains(key),
        input.keys_after(Event::KeyPress { key }).remove(key) == input.keys().remove(key),
        !input.keys().contains(key) ==> input.keys_after(Event::KeyRelease { key })
            == input.keys(),
{
    assert(input.keys().insert(key).remove(key) =~= input.keys().remove(key));
    if !input.keys().contains(key) {
        assert(input.keys().remove(key) =~= input.keys());
    }
}

/// A button is down after its press, up after its release, and a release of
/// a button that is not down changes nothing.
pub proof fn lemma_button_press_then_release(input: Input, button: MouseCode)
    ensures
        input.buttons_after(Event::MouseButtonPress { mouse_button: button }).contains(button),
        !input.buttons_after(Event::MouseButtonRelease { mouse_button: button }).contains(
            button,
        ),
        input.buttons_after(Event::MouseButtonPress { mouse_button: button }).remove(button)
            == input.buttons().remove(button),
        !input.buttons().contains(button) ==> input.buttons_after(
            Event::MouseButtonRelease { mouse_button: button },
        ) == input.buttons(),
{
    assert(input.buttons().insert(button).remove(button) =~= input.buttons().remove(button));
    if !input.buttons().contains(button) {
        assert(input.buttons().remove(button) =~= input.buttons());
    }
}

} // verus!
