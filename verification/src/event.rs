//! The notifications that the application handles.

use vstd::prelude::*;
use crate::keycode::{KeyCode, VirtualKeyCode};
use crate::mousecode::{MouseButton, MouseCode};

verus! {

/// One input or window notification. Coordinates and scroll amounts are
/// carried as the bit patterns of 64-bit IEEE 754 numbers: the application
/// hands them on and never computes with them.
#[derive(Debug, Clone, Copy, PartialEq, Eq, Structural)]
pub enum Event {
    WindowClose,
    WindowResize { width: u32, height: u32 },
    KeyPress { key: KeyCode },
    KeyRelease { key: KeyCode },
    MouseButtonPress { mouse_button: MouseCode },
    MouseButtonRelease { mouse_button: MouseCode },
    MouseScroll { x: u64, y: u64 },
    MouseMove { x: u64, y: u64 },
}

/// Whether a key or button went down or came up.
#[derive(Debug, Clone, Copy, PartialEq, Eq, Structural)]
pub enum ElementState {
    Pressed,
    Released,
}

/// What the windowing system reports about the window, in plain values.
/// Scroll amounts and positions are bit patterns, as in [`Event`].
#[derive(Debug, Clone, Copy, PartialEq, Eq, Structural)]
pub enum WindowEvent {
    CloseRequested,
    Resized { width: u32, height: u32 },
    KeyboardInput { state: ElementState, virtual_keycode: Option<VirtualKeyCode> },
    MouseInput { state: ElementState, button: MouseButton },
    MouseWheel { x: u64, y: u64 },
    CursorMoved { x: u64, y: u64 },
    Other,
}

impl Event {
    /// The key that stands for a key report without a key: the keypad's
    /// divide key when it went down, the space bar when it came up.
    pub open spec fn key_or_default(
        state: ElementState,
        virtual_keycode: Option<VirtualKeyCode>,
    ) -> KeyCode {
        match virtual_keycode {
            Some(key) => KeyCode::converted(key),
            None => match state {
                ElementState::Pressed => KeyCode::KPDivide,
                ElementState::Released => KeyCode::Space,
            },
        }
    }

    /// The event that a report of the windowing system becomes, if any.
    pub open spec fn translated(from: WindowEvent) -> Option<Event> {
        match from {
            WindowEvent::CloseRequested => Some(Event::WindowClose),
            WindowEvent::Resized { width, height } => Some(Event::WindowResize { width, height }),
            WindowEvent::KeyboardInput { state, virtual_keycode } => match state {
                ElementState::Pressed => Some(
                    Event::KeyPress { key: Self::key_or_default(state, virtual_keycode) },
                ),
                ElementState::Released => Some(
                    Event::KeyRelease { key: Self::key_or_default(state, virtual_keycode) },
                ),
            },
            WindowEvent::MouseInput { state, button } => match state {
                ElementState::Pressed => Some(
                    Event::MouseButtonPress { mouse_button: MouseCode::converted(button) },
                ),
                ElementState::Released => Some(
                    Event::MouseButtonRelease { mouse_button: MouseCode::converted(button) },
                ),
            },
            WindowEvent::MouseWheel { x, y } => Some(Event::MouseScroll { x, y }),
            WindowEvent::CursorMoved { x, y } => Some(Event::MouseMove { x, y }),
            WindowEvent::Other => None,
        }
    }

    /// Translates a report of the windowing system. Keys and buttons go
    /// through their tables; every report that the application does not
    /// handle gives `None`.
    pub fn translate(from: WindowEvent) -> (event: Option<Event>)
        ensures
            event == Self::translated(from),
    {
        match from {
            WindowEvent::CloseRequested => Some(Event::WindowClose),
            WindowEvent::Resized { width, height } => Some(Event::WindowResize { width, height }),
            WindowEvent::KeyboardInput { state, virtual_keycode } => {
                match state {
                    ElementState::Pressed => {
                        let key = match virtual_keycode {
                            Some(key) => KeyCode::convert(key),
                            None => KeyCode::convert(VirtualKeyCode::NumpadDivide),
                        };
                        Some(Event::KeyPress { key })
                    },
                    ElementState::Released => {
                        let key = match virtual_keycode {
                            Some(key) => KeyCode::convert(key),
                            None => KeyCode::convert(VirtualKeyCode::Space),
                        };
                        Some(Event::KeyRelease { key })
                    },
                }
            },
            WindowEvent::MouseInput { state, button } => {
                let mouse_button = MouseCode::convert(button);
                match state {
                    ElementState::Pressed => Some(Event::MouseButtonPress { mouse_button }),
                    ElementState::Released => Some(Event::MouseButtonRelease { mouse_button }),
                }
            },
            WindowEvent::MouseWheel { x, y } => Some(Event::MouseScroll { x, y }),
            WindowEvent::CursorMoved { x, y } => Some(Event::MouseMove { x, y }),
            WindowEvent::Other => None,
        }
    }

    /// Whether the application hands the event on to the layers: every event
    /// but a closed or resized window.
    pub open spec fn reaches_layers(self) -> bool {
        !(self is WindowClose) && !(self is WindowResize)
    }

    /// What the application offers to the layers when it is given `event`.
    pub open spec fn passed_on(event: Option<Event>) -> Option<Event> {
        match event {
            Some(e) => if e.reaches_layers() {
                Some(e)
            } else {
                None
            },
            None => None,
        }
    }
}

} // verus!
