//! Key identifiers: the keys that the windowing system can report, the keys
//! that the application tracks, and the table that leads from one to the other.

use vstd::prelude::*;

verus! {

/// A key as the windowing system names it.
#[derive(Debug, Clone, Copy, PartialEq, Eq, Hash, Structural)]
pub enum VirtualKeyCode {
    Key1, Key2, Key3, Key4, Key5, Key6, Key7, Key8,
    Key9, Key0, A, B, C, D, E, F,
    G, H, I, J, K, L, M, N,
    O, P, Q, R, S, T, U, V,
    W, X, Y, Z, Escape, F1, F2, F3,
    F4, F5, F6, F7, F8, F9, F10, F11,
    F12, F13, F14, F15, F16, F17, F18, F19,
    F20, F21, F22, F23, F24, Snapshot, Scroll, Pause,
    Insert, Home, Delete, End, PageDown, PageUp, Left, Up,
    Right, Down, Back, Return, Space, Compose, Caret, Numlock,
    Numpad0, Numpad1, Numpad2, Numpad3, Numpad4, Numpad5, Numpad6, Numpad7,
    Numpad8, Numpad9, NumpadAdd, NumpadDivide, NumpadDecimal, NumpadComma, NumpadEnter, NumpadEquals,
    NumpadMultiply, NumpadSubtract, AbntC1, AbntC2, Apostrophe, Apps, Asterisk, At,
    Ax, Backslash, Calculator, Capital, Colon, Comma, Convert, Equals,
    Grave, Kana, Kanji, LAlt, LBracket, LControl, LShift, LWin,
    Mail, MediaSelect, MediaStop, Minus, Mute, MyComputer, NavigateForward, NavigateBackward,
    NextTrack, NoConvert, OEM102, Period, PlayPause, Plus, Power, PrevTrack,
    RAlt, RBracket, RControl, RShift, RWin, Semicolon, Slash, Sleep,
    Stop, Sysrq, Tab, Underline, Unlabeled, VolumeDown, VolumeUp, Wake,
    WebBack, WebFavorites, WebForward, WebHome, WebRefresh, WebSearch, WebStop, Yen,
    Copy, Paste, Cut,
}

/// A key as the application tracks it. Each key has a stable number, given
/// by [`KeyCode::code`].
#[derive(Debug, Clone, Copy, PartialEq, Eq, Hash, Structural)]
pub enum KeyCode {
    Space, Apostrophe, Comma, Minus, Period, Slash, D0, D1,
    D2, D3, D4, D5, D6, D7, D8, D9,
    Semicolon, Equal, A, B, C, D, E, F,
    G, H, I, J, K, L, M, N,
    O, P, Q, R, S, T, U, V,
    W, X, Y, Z, LeftBracket, Backslash, RightBracket, GraveAccent,
    World1, World2, Escape, Enter, Tab, Backspace, Insert, Delete,
    Right, Left, Down, Up, PageUp, PageDown, Home, End,
    CapsLock, ScrollLock, NumLock, PrintScreen, Pause, F1, F2, F3,
    F4, F5, F6, F7, F8, F9, F10, F11,
    F12, F13, F14, F15, F16, F17, F18, F19,
    F20, F21, F22, F23, F24, F25, KP0, KP1,
    KP2, KP3, KP4, KP5, KP6, KP7, KP8, KP9,
    KPDecimal, KPDivide, KPMultiply, KPSubtract, KPAdd, KPEnter, KPEqual, LeftShift,
    LeftControl, LeftAlt, LeftSuper, RightShift, RightControl, RightAlt, RightSuper, Menu,
}

impl KeyCode {
    /// The number of a key.
    pub open spec fn number(self) -> u32 {
        match self {
            KeyCode::Space => 32,
            KeyCode::Apostrophe => 39,
            KeyCode::Comma => 44,
            KeyCode::Minus => 45,
            KeyCode::Period => 46,
            KeyCode::Slash => 47,
            KeyCode::D0 => 48,
            KeyCode::D1 => 49,
            KeyCode::D2 => 50,
            KeyCode::D3 => 51,
            KeyCode::D4 => 52,
            KeyCode::D5 => 53,
            KeyCode::D6 => 54,
            KeyCode::D7 => 55,
            KeyCode::D8 => 56,
            KeyCode::D9 => 57,
            KeyCode::Semicolon => 59,
            KeyCode::Equal => 61,
            KeyCode::A => 65,
            KeyCode::B => 66,
            KeyCode::C => 67,
            KeyCode::D => 68,
            KeyCode::E => 69,
            KeyCode::F => 70,
            KeyCode::G => 71,
            KeyCode::H => 72,
            KeyCode::I => 73,
            KeyCode::J => 74,
            KeyCode::K => 75,
            KeyCode::L => 76,
            KeyCode::M => 77,
            KeyCode::N => 78,
            KeyCode::O => 79,
            KeyCode::P => 80,
            KeyCode::Q => 81,
            KeyCode::R => 82,
            KeyCode::S => 83,
            KeyCode::T => 84,
            KeyCode::U => 85,
            KeyCode::V => 86,
            KeyCode::W => 87,
            KeyCode::X => 88,
            KeyCode::Y => 89,
            KeyCode::Z => 90,
            KeyCode::LeftBracket => 91,
            KeyCode::Backslash => 92,
            KeyCode::RightBracket => 93,
            KeyCode::GraveAccent => 96,
            KeyCode::World1 => 161,
            KeyCode::World2 => 162,
            KeyCode::Escape => 256,
            KeyCode::Enter => 257,
            KeyCode::Tab => 258,
            KeyCode::Backspace => 259,
            KeyCode::Insert => 260,
            KeyCode::Delete => 261,
            KeyCode::Right => 262,
            KeyCode::Left => 263,
            KeyCode::Down => 264,
            KeyCode::Up => 265,
            KeyCode::PageUp => 266,
            KeyCode::PageDown => 267,
            KeyCode::Home => 268,
            KeyCode::End => 269,
            KeyCode::CapsLock => 280,
            KeyCode::ScrollLock => 281,
            KeyCode::NumLock => 282,
            KeyCode::PrintScreen => 283,
            KeyCode::Pause => 284,
            KeyCode::F1 => 290,
            KeyCode::F2 => 291,
            KeyCode::F3 => 292,
            KeyCode::F4 => 293,
            KeyCode::F5 => 294,
            KeyCode::F6 => 295,
            KeyCode::F7 => 296,
            KeyCode::F8 => 297,
            KeyCode::F9 => 298,
            KeyCode::F10 => 299,
            KeyCode::F11 => 300,
            KeyCode::F12 => 301,
            KeyCode::F13 => 302,
            KeyCode::F14 => 303,
            KeyCode::F15 => 304,
            KeyCode::F16 => 305,
            KeyCode::F17 => 306,
            KeyCode::F18 => 307,
            KeyCode::F19 => 308,
            KeyCode::F20 => 309,
            KeyCode::F21 => 310,
            KeyCode::F22 => 311,
            KeyCode::F23 => 312,
            KeyCode::F24 => 313,
            KeyCode::F25 => 314,
            KeyCode::KP0 => 320,
            KeyCode::KP1 => 321,
            KeyCode::KP2 => 322,
            KeyCode::KP3 => 323,
            KeyCode::KP4 => 324,
            KeyCode::KP5 => 325,
            KeyCode::KP6 => 326,
            KeyCode::KP7 => 327,
            KeyCode::KP8 => 328,
            KeyCode::KP9 => 329,
            KeyCode::KPDecimal => 330,
            KeyCode::KPDivide => 331,
            KeyCode::KPMultiply => 332,
            KeyCode::KPSubtract => 333,
            KeyCode::KPAdd => 334,
            KeyCode::KPEnter => 335,
            KeyCode::KPEqual => 336,
            KeyCode::LeftShift => 340,
            KeyCode::LeftControl => 341,
            KeyCode::LeftAlt => 342,
            KeyCode::LeftSuper => 343,
            KeyCode::RightShift => 344,
            KeyCode::RightControl => 345,
            KeyCode::RightAlt => 346,
            KeyCode::RightSuper => 347,
            KeyCode::Menu => 348,
        }
    }

    /// The key that the table gives for `from`, if the table names one.
    pub open spec fn named(from: VirtualKeyCode) -> Option<KeyCode> {
        match from {
            VirtualKeyCode::Space => Some(KeyCode::Space),
            VirtualKeyCode::Apostrophe => Some(KeyCode::Apostrophe),
            VirtualKeyCode::Comma => Some(KeyCode::Comma),
            VirtualKeyCode::Minus => Some(KeyCode::Minus),
            VirtualKeyCode::Period => Some(KeyCode::Period),
            VirtualKeyCode::Slash => Some(KeyCode::Slash),
            VirtualKeyCode::Key0 => Some(KeyCode::D0),
            VirtualKeyCode::Key1 => Some(KeyCode::D1),
            VirtualKeyCode::Key2 => Some(KeyCode::D2),
            VirtualKeyCode::Key3 => Some(KeyCode::D3),
            VirtualKeyCode::Key4 => Some(KeyCode::D4),
            VirtualKeyCode::Key5 => Some(KeyCode::D5),
            VirtualKeyCode::Key6 => Some(KeyCode::D6),
            VirtualKeyCode::Key7 => Some(KeyCode::D7),
            VirtualKeyCode::Key8 => Some(KeyCode::D8),
            VirtualKeyCode::Key9 => Some(KeyCode::D9),
            VirtualKeyCode::Semicolon => Some(KeyCode::Semicolon),
            VirtualKeyCode::Equals => Some(KeyCode::Equal),
            VirtualKeyCode::A => Some(KeyCode::A),
            VirtualKeyCode::B => Some(KeyCode::B),
            VirtualKeyCode::C => Some(KeyCode::C),
            VirtualKeyCode::D => Some(KeyCode::D),
            VirtualKeyCode::E => Some(KeyCode::E),
            VirtualKeyCode::F => Some(KeyCode::F),
            VirtualKeyCode::G => Some(KeyCode::G),
            VirtualKeyCode::H => Some(KeyCode::H),
            VirtualKeyCode::I => Some(KeyCode::I),
            VirtualKeyCode::J => Some(KeyCode::J),
            VirtualKeyCode::K => Some(KeyCode::K),
            VirtualKeyCode::L => Some(KeyCode::L),
            VirtualKeyCode::M => Some(KeyCode::M),
            VirtualKeyCode::N => Some(KeyCode::N),
            VirtualKeyCode::O => Some(KeyCode::O),
            VirtualKeyCode::P => Some(KeyCode::P),
            VirtualKeyCode::Q => Some(KeyCode::Q),
            VirtualKeyCode::R => Some(KeyCode::R),
            VirtualKeyCode::S => Some(KeyCode::S),
            VirtualKeyCode::T => Some(KeyCode::T),
            VirtualKeyCode::U => Some(KeyCode::U),
            VirtualKeyCode::V => Some(KeyCode::V),
            VirtualKeyCode::W => Some(KeyCode::W),
            VirtualKeyCode::X => Some(KeyCode::X),
            VirtualKeyCode::Y => Some(KeyCode::Y),
            VirtualKeyCode::Z => Some(KeyCode::Z),
            VirtualKeyCode::LBracket => Some(KeyCode::LeftBracket),
            VirtualKeyCode::Backslash => Some(KeyCode::Backslash),
            VirtualKeyCode::RBracket => Some(KeyCode::RightBracket),
            VirtualKeyCode::Grave => Some(KeyCode::GraveAccent),
            VirtualKeyCode::Escape => Some(KeyCode::Escape),
            VirtualKeyCode::Return => Some(KeyCode::Enter),
            VirtualKeyCode::Tab => Some(KeyCode::Tab),
            VirtualKeyCode::Back => Some(KeyCode::Backspace),
            VirtualKeyCode::Insert => Some(KeyCode::Insert),
            VirtualKeyCode::Delete => Some(KeyCode::Delete),
            VirtualKeyCode::Right => Some(KeyCode::Right),
            VirtualKeyCode::Left => Some(KeyCode::Left),
            VirtualKeyCode::Down => Some(KeyCode::Down),
            VirtualKeyCode::Up => Some(KeyCode::Up),
            VirtualKeyCode::PageUp => Some(KeyCode::PageUp),
            VirtualKeyCode::PageDown => Some(KeyCode::PageDown),
            VirtualKeyCode::Home => Some(KeyCode::Home),
            VirtualKeyCode::End => Some(KeyCode::End),
            VirtualKeyCode::Numlock => Some(KeyCode::NumLock),
            VirtualKeyCode::Pause => Some(KeyCode::Pause),
            VirtualKeyCode::F1 => Some(KeyCode::F1),
            VirtualKeyCode::F2 => Some(KeyCode::F2),
            VirtualKeyCode::F3 => Some(KeyCode::F3),
            VirtualKeyCode::F4 => Some(KeyCode::F4),
            VirtualKeyCode::F5 => Some(KeyCode::F5),
            VirtualKeyCode::F6 => Some(KeyCode::F6),
            VirtualKeyCode::F7 => Some(KeyCode::F7),
            VirtualKeyCode::F8 => Some(KeyCode::F8),
            VirtualKeyCode::F9 => Some(KeyCode::F9),
            VirtualKeyCode::F10 => Some(KeyCode::F10),
            VirtualKeyCode::F11 => Some(KeyCode::F11),
            VirtualKeyCode::F12 => Some(KeyCode::F12),
            VirtualKeyCode::F13 => Some(KeyCode::F13),
            VirtualKeyCode::F14 => Some(KeyCode::F14),
            VirtualKeyCode::F15 => Some(KeyCode::F15),
            VirtualKeyCode::F16 => Some(KeyCode::F16),
            VirtualKeyCode::F17 => Some(KeyCode::F17),
            VirtualKeyCode::F18 => Some(KeyCode::F18),
            VirtualKeyCode::F19 => Some(KeyCode::F19),
            VirtualKeyCode::F20 => Some(KeyCode::F20),
            VirtualKeyCode::F21 => Some(KeyCode::F21),
            VirtualKeyCode::F22 => Some(KeyCode::F22),
            VirtualKeyCode::F23 => Some(KeyCode::F23),
            VirtualKeyCode::F24 => Some(KeyCode::F24),
            VirtualKeyCode::Numpad0 => Some(KeyCode::KP0),
            VirtualKeyCode::Numpad1 => Some(KeyCode::KP1),
            VirtualKeyCode::Numpad2 => Some(KeyCode::KP2),
            VirtualKeyCode::Numpad3 => Some(KeyCode::KP3),
            VirtualKeyCode::Numpad4 => Some(KeyCode::KP4),
            VirtualKeyCode::Numpad5 => Some(KeyCode::KP5),
            VirtualKeyCode::Numpad6 => Some(KeyCode::KP6),
            VirtualKeyCode::Numpad7 => Some(KeyCode::KP7),
            VirtualKeyCode::Numpad8 => Some(KeyCode::KP8),
            VirtualKeyCode::Numpad9 => Some(KeyCode::KP9),
            VirtualKeyCode::NumpadDecimal => Some(KeyCode::KPDecimal),
            VirtualKeyCode::NumpadDivide => Some(KeyCode::KPDivide),
            VirtualKeyCode::NumpadMultiply => Some(KeyCode::KPMultiply),
            VirtualKeyCode::NumpadSubtract => Some(KeyCode::KPSubtract),
            VirtualKeyCode::NumpadAdd => Some(KeyCode::KPAdd),
            VirtualKeyCode::NumpadEnter => Some(KeyCode::KPEnter),
            VirtualKeyCode::NumpadEquals => Some(KeyCode::KPEqual),
            VirtualKeyCode::LShift => Some(KeyCode::LeftShift),
            VirtualKeyCode::LControl => Some(KeyCode::LeftControl),
            VirtualKeyCode::LAlt => Some(KeyCode::LeftAlt),
            VirtualKeyCode::RShift => Some(KeyCode::RightShift),
            VirtualKeyCode::RControl => Some(KeyCode::RightControl),
            VirtualKeyCode::RAlt => Some(KeyCode::RightAlt),
            _ => None,
        }
    }

    /// The key that stands for every key the table does not name.
    pub open spec fn fallback() -> KeyCode {
        KeyCode::KPDivide
    }

    /// What [`KeyCode::convert`] returns: the named key, or the fallback.
    pub open spec fn converted(from: VirtualKeyCode) -> KeyCode {
        match Self::named(from) {
            Some(key) => key,
            None => Self::fallback(),
        }
    }

    /// The number of this key.
    pub fn code(self) -> (c: u32)
        ensures
            c == self.number(),
    {
        match self {
            KeyCode::Space => 32,
            KeyCode::Apostrophe => 39,
            KeyCode::Comma => 44,
            KeyCode::Minus => 45,
            KeyCode::Period => 46,
            KeyCode::Slash => 47,
            KeyCode::D0 => 48,
            KeyCode::D1 => 49,
            KeyCode::D2 => 50,
            KeyCode::D3 => 51,
            KeyCode::D4 => 52,
            KeyCode::D5 => 53,
            KeyCode::D6 => 54,
            KeyCode::D7 => 55,
            KeyCode::D8 => 56,
            KeyCode::D9 => 57,
            KeyCode::Semicolon => 59,
            KeyCode::Equal => 61,
            KeyCode::A => 65,
            KeyCode::B => 66,
            KeyCode::C => 67,
            KeyCode::D => 68,
            KeyCode::E => 69,
            KeyCode::F => 70,
            KeyCode::G => 71,
            KeyCode::H => 72,
            KeyCode::I => 73,
            KeyCode::J => 74,
            KeyCode::K => 75,
            KeyCode::L => 76,
            KeyCode::M => 77,
            KeyCode::N => 78,
            KeyCode::O => 79,
            KeyCode::P => 80,
            KeyCode::Q => 81,
            KeyCode::R => 82,
            KeyCode::S => 83,
            KeyCode::T => 84,
            KeyCode::U => 85,
            KeyCode::V => 86,
            KeyCode::W => 87,
            KeyCode::X => 88,
            KeyCode::Y => 89,
            KeyCode::Z => 90,
            KeyCode::LeftBracket => 91,
            KeyCode::Backslash => 92,
            KeyCode::RightBracket => 93,
            KeyCode::GraveAccent => 96,
            KeyCode::World1 => 161,
            KeyCode::World2 => 162,
            KeyCode::Escape => 256,
            KeyCode::Enter => 257,
            KeyCode::Tab => 258,
            KeyCode::Backspace => 259,
            KeyCode::Insert => 260,
            KeyCode::Delete => 261,
            KeyCode::Right => 262,
            KeyCode::Left => 263,
            KeyCode::Down => 264,
            KeyCode::Up => 265,
            KeyCode::PageUp => 266,
            KeyCode::PageDown => 267,
            KeyCode::Home => 268,
            KeyCode::End => 269,
            KeyCode::CapsLock => 280,
            KeyCode::ScrollLock => 281,
            KeyCode::NumLock => 282,
            KeyCode::PrintScreen => 283,
            KeyCode::Pause => 284,
            KeyCode::F1 => 290,
            KeyCode::F2 => 291,
            KeyCode::F3 => 292,
            KeyCode::F4 => 293,
            KeyCode::F5 => 294,
            KeyCode::F6 => 295,
            KeyCode::F7 => 296,
            KeyCode::F8 => 297,
            KeyCode::F9 => 298,
            KeyCode::F10 => 299,
            KeyCode::F11 => 300,
            KeyCode::F12 => 301,
            KeyCode::F13 => 302,
            KeyCode::F14 => 303,
            KeyCode::F15 => 304,
            KeyCode::F16 => 305,
            KeyCode::F17 => 306,
            KeyCode::F18 => 307,
            KeyCode::F19 => 308,
            KeyCode::F20 => 309,
            KeyCode::F21 => 310,
            KeyCode::F22 => 311,
            KeyCode::F23 => 312,
            KeyCode::F24 => 313,
            KeyCode::F25 => 314,
            KeyCode::KP0 => 320,
            KeyCode::KP1 => 321,
            KeyCode::KP2 => 322,
            KeyCode::KP3 => 323,
            KeyCode::KP4 => 324,
            KeyCode::KP5 => 325,
            KeyCode::KP6 => 326,
            KeyCode::KP7 => 327,
            KeyCode::KP8 => 328,
            KeyCode::KP9 => 329,
            KeyCode::KPDecimal => 330,
            KeyCode::KPDivide => 331,
            KeyCode::KPMultiply => 332,
            KeyCode::KPSubtract => 333,
            KeyCode::KPAdd => 334,
            KeyCode::KPEnter => 335,
            KeyCode::KPEqual => 336,
            KeyCode::LeftShift => 340,
            KeyCode::LeftControl => 341,
            KeyCode::LeftAlt => 342,
            KeyCode::LeftSuper => 343,
            KeyCode::RightShift => 344,
            KeyCode::RightControl => 345,
            KeyCode::RightAlt => 346,
            KeyCode::RightSuper => 347,
            KeyCode::Menu => 348,
        }
    }

    /// Translates a key of the windowing system: the key that the table
    /// names for it, and the keypad's divide key where it names none.
    pub fn convert(from: VirtualKeyCode) -> (key: KeyCode)
        ensures
            key == Self::converted(from),
            Self::named(from) is Some ==> Self::named(from) == Some(key),
            Self::named(from) is None ==> key == KeyCode::KPDivide,
    {
        match from {
            VirtualKeyCode::Space => KeyCode::Space,
            VirtualKeyCode::Apostrophe => KeyCode::Apostrophe,
            VirtualKeyCode::Comma => KeyCode::Comma,
            VirtualKeyCode::Minus => KeyCode::Minus,
            VirtualKeyCode::Period => KeyCode::Period,
            VirtualKeyCode::Slash => KeyCode::Slash,
            VirtualKeyCode::Key0 => KeyCode::D0,
            VirtualKeyCode::Key1 => KeyCode::D1,
            VirtualKeyCode::Key2 => KeyCode::D2,
            VirtualKeyCode::Key3 => KeyCode::D3,
            VirtualKeyCode::Key4 => KeyCode::D4,
            VirtualKeyCode::Key5 => KeyCode::D5,
            VirtualKeyCode::Key6 => KeyCode::D6,
            VirtualKeyCode::Key7 => KeyCode::D7,
            VirtualKeyCode::Key8 => KeyCode::D8,
            VirtualKeyCode::Key9 => KeyCode::D9,
            VirtualKeyCode::Semicolon => KeyCode::Semicolon,
            VirtualKeyCode::Equals => KeyCode::Equal,
            VirtualKeyCode::A => KeyCode::A,
            VirtualKeyCode::B => KeyCode::B,
            VirtualKeyCode::C => KeyCode::C,
            VirtualKeyCode::D => KeyCode::D,
            VirtualKeyCode::E => KeyCode::E,
            VirtualKeyCode::F => KeyCode::F,
            VirtualKeyCode::G => KeyCode::G,
            VirtualKeyCode::H => KeyCode::H,
            VirtualKeyCode::I => KeyCode::I,
            VirtualKeyCode::J => KeyCode::J,
            VirtualKeyCode::K => KeyCode::K,
            VirtualKeyCode::L => KeyCode::L,
            VirtualKeyCode::M => KeyCode::M,
            VirtualKeyCode::N => KeyCode::N,
            VirtualKeyCode::O => KeyCode::O,
            VirtualKeyCode::P => KeyCode::P,
            VirtualKeyCode::Q => KeyCode::Q,
            VirtualKeyCode::R => KeyCode::R,
            VirtualKeyCode::S => KeyCode::S,
            VirtualKeyCode::T => KeyCode::T,
            VirtualKeyCode::U => KeyCode::U,
            VirtualKeyCode::V => KeyCode::V,
            VirtualKeyCode::W => KeyCode::W,
            VirtualKeyCode::X => KeyCode::X,
            VirtualKeyCode::Y => KeyCode::Y,
            VirtualKeyCode::Z => KeyCode::Z,
            VirtualKeyCode::LBracket => KeyCode::LeftBracket,
            VirtualKeyCode::Backslash => KeyCode::Backslash,
            VirtualKeyCode::RBracket => KeyCode::RightBracket,
            VirtualKeyCode::Grave => KeyCode::GraveAccent,
            VirtualKeyCode::Escape => KeyCode::Escape,
            VirtualKeyCode::Return => KeyCode::Enter,
            VirtualKeyCode::Tab => KeyCode::Tab,
            VirtualKeyCode::Back => KeyCode::Backspace,
            VirtualKeyCode::Insert => KeyCode::Insert,
            VirtualKeyCode::Delete => KeyCode::Delete,
            VirtualKeyCode::Right => KeyCode::Right,
            VirtualKeyCode::Left => KeyCode::Left,
            VirtualKeyCode::Down => KeyCode::Down,
            VirtualKeyCode::Up => KeyCode::Up,
            VirtualKeyCode::PageUp => KeyCode::PageUp,
            VirtualKeyCode::PageDown => KeyCode::PageDown,
            VirtualKeyCode::Home => KeyCode::Home,
            VirtualKeyCode::End => KeyCode::End,
            VirtualKeyCode::Numlock => KeyCode::NumLock,
            VirtualKeyCode::Pause => KeyCode::Pause,
            VirtualKeyCode::F1 => KeyCode::F1,
            VirtualKeyCode::F2 => KeyCode::F2,
            VirtualKeyCode::F3 => KeyCode::F3,
            VirtualKeyCode::F4 => KeyCode::F4,
            VirtualKeyCode::F5 => KeyCode::F5,
            VirtualKeyCode::F6 => KeyCode::F6,
            VirtualKeyCode::F7 => KeyCode::F7,
            VirtualKeyCode::F8 => KeyCode::F8,
            VirtualKeyCode::F9 => KeyCode::F9,
            VirtualKeyCode::F10 => KeyCode::F10,
            VirtualKeyCode::F11 => KeyCode::F11,
            VirtualKeyCode::F12 => KeyCode::F12,
            VirtualKeyCode::F13 => KeyCode::F13,
            VirtualKeyCode::F14 => KeyCode::F14,
            VirtualKeyCode::F15 => KeyCode::F15,
            VirtualKeyCode::F16 => KeyCode::F16,
            VirtualKeyCode::F17 => KeyCode::F17,
            VirtualKeyCode::F18 => KeyCode::F18,
            VirtualKeyCode::F19 => KeyCode::F19,
            VirtualKeyCode::F20 => KeyCode::F20,
            VirtualKeyCode::F21 => KeyCode::F21,
            VirtualKeyCode::F22 => KeyCode::F22,
            VirtualKeyCode::F23 => KeyCode::F23,
            VirtualKeyCode::F24 => KeyCode::F24,
            VirtualKeyCode::Numpad0 => KeyCode::KP0,
            VirtualKeyCode::Numpad1 => KeyCode::KP1,
            VirtualKeyCode::Numpad2 => KeyCode::KP2,
            VirtualKeyCode::Numpad3 => KeyCode::KP3,
            VirtualKeyCode::Numpad4 => KeyCode::KP4,
            VirtualKeyCode::Numpad5 => KeyCode::KP5,
            VirtualKeyCode::Numpad6 => KeyCode::KP6,
            VirtualKeyCode::Numpad7 => KeyCode::KP7,
            VirtualKeyCode::Numpad8 => KeyCode::KP8,
            VirtualKeyCode::Numpad9 => KeyCode::KP9,
            VirtualKeyCode::NumpadDecimal => KeyCode::KPDecimal,
            VirtualKeyCode::NumpadDivide => KeyCode::KPDivide,
            VirtualKeyCode::NumpadMultiply => KeyCode::KPMultiply,
            VirtualKeyCode::NumpadSubtract => KeyCode::KPSubtract,
            VirtualKeyCode::NumpadAdd => KeyCode::KPAdd,
            VirtualKeyCode::NumpadEnter => KeyCode::KPEnter,
            VirtualKeyCode::NumpadEquals => KeyCode::KPEqual,
            VirtualKeyCode::LShift => KeyCode::LeftShift,
            VirtualKeyCode::LControl => KeyCode::LeftControl,
            VirtualKeyCode::LAlt => KeyCode::LeftAlt,
            VirtualKeyCode::RShift => KeyCode::RightShift,
            VirtualKeyCode::RControl => KeyCode::RightControl,
            VirtualKeyCode::RAlt => KeyCode::RightAlt,
            _ => KeyCode::KPDivide,
        }
    }
}

/// Two keys with the same number are the same key.
pub proof fn lemma_number_injective(a: KeyCode, b: KeyCode)
    requires
        a.number() == b.number(),
    ensures
        a == b,
{
}

/// The table names no key twice: two keys of the windowing system that it
/// leads to the same key are the same.
pub proof fn lemma_named_injective(a: VirtualKeyCode, b: VirtualKeyCode)
    requires
        KeyCode::named(a) is Some,
        KeyCode::named(a) == KeyCode::named(b),
    ensures
        a == b,
{
}

} // verus!
