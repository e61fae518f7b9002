use sequoia::event::Event;
use sequoia::input::Input;
use sequoia::keycode::{KeyCode, VirtualKeyCode};
use sequoia::mousecode::{MouseButton, MouseCode};

#[test]
fn key_numbers() {
    assert_eq!(KeyCode::Space.code(), 32);
    assert_eq!(KeyCode::D0.code(), 48);
    assert_eq!(KeyCode::A.code(), 65);
    assert_eq!(KeyCode::Z.code(), 90);
    assert_eq!(KeyCode::World2.code(), 162);
    assert_eq!(KeyCode::Escape.code(), 256);
    assert_eq!(KeyCode::F25.code(), 314);
    assert_eq!(KeyCode::KPDivide.code(), 331);
    assert_eq!(KeyCode::Menu.code(), 348);
}

#[test]
fn convert_follows_the_table() {
    assert_eq!(KeyCode::convert(VirtualKeyCode::Space), KeyCode::Space);
    assert_eq!(KeyCode::convert(VirtualKeyCode::Key0), KeyCode::D0);
    assert_eq!(KeyCode::convert(VirtualKeyCode::Key9), KeyCode::D9);
    assert_eq!(KeyCode::convert(VirtualKeyCode::Equals), KeyCode::Equal);
    assert_eq!(KeyCode::convert(VirtualKeyCode::A), KeyCode::A);
    assert_eq!(KeyCode::convert(VirtualKeyCode::LBracket), KeyCode::LeftBracket);
    assert_eq!(KeyCode::convert(VirtualKeyCode::Grave), KeyCode::GraveAccent);
    assert_eq!(KeyCode::convert(VirtualKeyCode::Return), KeyCode::Enter);
    assert_eq!(KeyCode::convert(VirtualKeyCode::Back), KeyCode::Backspace);
    assert_eq!(KeyCode::convert(VirtualKeyCode::Numlock), KeyCode::NumLock);
    assert_eq!(KeyCode::convert(VirtualKeyCode::F24), KeyCode::F24);
    assert_eq!(KeyCode::convert(VirtualKeyCode::Numpad7), KeyCode::KP7);
    assert_eq!(KeyCode::convert(VirtualKeyCode::NumpadDivide), KeyCode::KPDivide);
    assert_eq!(KeyCode::convert(VirtualKeyCode::NumpadEquals), KeyCode::KPEqual);
    assert_eq!(KeyCode::convert(VirtualKeyCode::LShift), KeyCode::LeftShift);
    assert_eq!(KeyCode::convert(VirtualKeyCode::RAlt), KeyCode::RightAlt);
}

#[test]
fn convert_of_an_unnamed_key_is_keypad_divide() {
    assert_eq!(KeyCode::convert(VirtualKeyCode::Snapshot), KeyCode::KPDivide);
    assert_eq!(KeyCode::convert(VirtualKeyCode::LWin), KeyCode::KPDivide);
    assert_eq!(KeyCode::convert(VirtualKeyCode::Capital), KeyCode::KPDivide);
    assert_eq!(KeyCode::convert(VirtualKeyCode::Cut), KeyCode::KPDivide);
}

#[test]
fn mouse_numbers() {
    assert_eq!(MouseCode::Button0.code(), 0);
    assert_eq!(MouseCode::Button3.code(), 3);
    assert_eq!(MouseCode::Button7.code(), 7);
}

#[test]
fn mouse_convert() {
    assert_eq!(MouseCode::convert(MouseButton::Left), MouseCode::Button0);
    assert_eq!(MouseCode::convert(MouseButton::Right), MouseCode::Button1);
    assert_eq!(MouseCode::convert(MouseButton::Middle), MouseCode::Button2);
    assert_eq!(MouseCode::convert(MouseButton::Other(3)), MouseCode::Button3);
    assert_eq!(MouseCode::convert(MouseButton::Other(4)), MouseCode::Button4);
    assert_eq!(MouseCode::convert(MouseButton::Other(5)), MouseCode::Button5);
    assert_eq!(MouseCode::convert(MouseButton::Other(6)), MouseCode::Button6);
    assert_eq!(MouseCode::convert(MouseButton::Other(7)), MouseCode::Button7);
}

#[test]
fn mouse_convert_of_other_buttons_is_the_last() {
    assert_eq!(MouseCode::convert(MouseButton::Other(0)), MouseCode::Button7);
    assert_eq!(MouseCode::convert(MouseButton::Other(2)), MouseCode::Button7);
    assert_eq!(MouseCode::convert(MouseButton::Other(8)), MouseCode::Button7);
    assert_eq!(MouseCode::convert(MouseButton::Other(u16::MAX)), MouseCode::Button7);
}

#[test]
fn input_starts_empty() {
    let input = Input::new();
    assert!(!input.is_key_pressed(KeyCode::A));
    assert!(!input.is_mouse_pressed(MouseCode::Button0));
    assert_eq!(input.mouse_location(), (0, 0));
}

#[test]
fn input_records_presses_and_releases() {
    let mut input = Input::new();
    input.record(Event::KeyPress { key: KeyCode::LeftShift });
    input.record(Event::KeyPress { key: KeyCode::LeftShift });
    input.record(Event::MouseButtonPress { mouse_button: MouseCode::Button2 });
    assert!(input.is_key_pressed(KeyCode::LeftShift));
    assert!(!input.is_key_pressed(KeyCode::RightShift));
    assert!(input.is_mouse_pressed(MouseCode::Button2));
    input.record(Event::KeyRelease { key: KeyCode::LeftShift });
    assert!(!input.is_key_pressed(KeyCode::LeftShift));
    assert!(input.is_mouse_pressed(MouseCode::Button2));
    input.record(Event::MouseButtonRelease { mouse_button: MouseCode::Button2 });
    assert!(!input.is_mouse_pressed(MouseCode::Button2));
}

#[test]
fn input_ignores_window_events_and_scrolling() {
    let mut input = Input::new();
    input.record(Event::KeyPress { key: KeyCode::Q });
    input.record(Event::MouseMove { x: 10, y: 20 });
    input.record(Event::WindowClose);
    input.record(Event::WindowResize { width: 1, height: 2 });
    input.record(Event::MouseScroll { x: 5, y: 6 });
    assert!(input.is_key_pressed(KeyCode::Q));
    assert_eq!(input.mouse_location(), (10, 20));
}
