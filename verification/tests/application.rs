use std::cell::RefCell;
use std::rc::Rc;

use sequoia::application::{Application, Wake, FRAME_INTERVAL_NANOS};
use sequoia::event::{ElementState, Event, WindowEvent};
use sequoia::input::Input;
use sequoia::keycode::{KeyCode, VirtualKeyCode};
use sequoia::layer::{Layer, LayerId};
use sequoia::mousecode::{MouseButton, MouseCode};

type Log = Rc<RefCell<Vec<String>>>;

struct Recorder {
    name: &'static str,
    consumes: bool,
    keys_handled: Rc<RefCell<u32>>,
    log: Log,
}

impl Layer for Recorder {
    type Context = Vec<String>;

    fn on_attach(&mut self) {
        self.log.borrow_mut().push(format!("attach {}", self.name));
    }

    fn on_detach(&mut self) {
        self.log.borrow_mut().push(format!("detach {}", self.name));
    }

    fn on_update(&mut self, input: &Input) {
        let held = input.is_key_pressed(KeyCode::W);
        self.log.borrow_mut().push(format!("update {} {}", self.name, held));
    }

    fn on_event(&mut self, event: &mut Option<Event>) {
        if let Some(Event::KeyPress { .. }) = event {
            *self.keys_handled.borrow_mut() += 1;
        }
        if self.consumes {
            *event = None;
        }
    }

    fn on_egui_render(&mut self, _input: &Input, context: &mut Vec<String>) {
        context.push(format!("render {}", self.name));
    }
}

fn recorder(name: &'static str, consumes: bool, log: &Log) -> (Recorder, Rc<RefCell<u32>>) {
    let keys_handled = Rc::new(RefCell::new(0));
    (Recorder { name, consumes, keys_handled: keys_handled.clone(), log: log.clone() }, keys_handled)
}

#[test]
fn overlay_that_consumes_hides_the_event_from_the_layer() {
    let log = Log::default();
    let mut app = Application::new();
    let (a, a_keys) = recorder("a", false, &log);
    let (b, b_keys) = recorder("b", true, &log);
    app.push_layer(a);
    app.push_overlay(b);
    let offered = app.on_event(Some(Event::KeyPress { key: KeyCode::A }));
    assert_eq!(offered, 1);
    assert_eq!(*a_keys.borrow(), 0);
    assert_eq!(*b_keys.borrow(), 1);
    assert!(app.input().is_key_pressed(KeyCode::A));
}

#[test]
fn overlay_that_passes_lets_the_layer_see_the_event() {
    let log = Log::default();
    let mut app = Application::new();
    let (a, a_keys) = recorder("a", false, &log);
    let (b, b_keys) = recorder("b", false, &log);
    app.push_layer(a);
    app.push_overlay(b);
    assert_eq!(app.on_event(Some(Event::KeyPress { key: KeyCode::A })), 2);
    assert_eq!((*a_keys.borrow(), *b_keys.borrow()), (1, 1));
}

#[test]
fn pop_of_absent_layer_is_a_no_op() {
    let log = Log::default();
    let mut app = Application::new();
    let (a, _) = recorder("a", false, &log);
    let id = app.push_layer(a);
    assert!(app.pop_layer(LayerId { serial: 7 }).is_none());
    assert!(app.pop_overlay(id).is_none());
    assert_eq!(app.layer_stack().len(), 1);
    assert_eq!(app.layer_stack().first_overlay_index(), 1);
    assert_eq!(*log.borrow(), vec!["attach a"]);
}

#[test]
fn push_attaches_and_pop_detaches() {
    let log = Log::default();
    let mut app = Application::new();
    let (a, _) = recorder("a", false, &log);
    let (o, _) = recorder("o", false, &log);
    let a = app.push_layer(a);
    let o = app.push_overlay(o);
    assert!(app.can_push());
    assert_eq!(app.pop_overlay(o).map(|layer| layer.name), Some("o"));
    assert_eq!(app.pop_layer(a).map(|layer| layer.name), Some("a"));
    assert!(app.pop_layer(a).is_none());
    assert_eq!(*log.borrow(), vec!["attach a", "attach o", "detach o", "detach a"]);
    assert_eq!(app.layer_stack().len(), 0);
}

#[test]
fn key_is_down_between_press_and_release() {
    let mut app: Application<Recorder> = Application::new();
    assert!(!app.input().is_key_pressed(KeyCode::K));
    app.on_event(Some(Event::KeyPress { key: KeyCode::K }));
    assert!(app.input().is_key_pressed(KeyCode::K));
    assert!(!app.input().is_key_pressed(KeyCode::L));
    app.on_event(Some(Event::KeyRelease { key: KeyCode::K }));
    assert!(!app.input().is_key_pressed(KeyCode::K));
}

#[test]
fn release_of_an_unpressed_key_is_a_no_op() {
    let mut app: Application<Recorder> = Application::new();
    app.on_event(Some(Event::KeyPress { key: KeyCode::A }));
    app.on_event(Some(Event::KeyRelease { key: KeyCode::B }));
    assert!(app.input().is_key_pressed(KeyCode::A));
    assert!(!app.input().is_key_pressed(KeyCode::B));
}

#[test]
fn button_is_down_between_press_and_release() {
    let mut app: Application<Recorder> = Application::new();
    app.on_event(Some(Event::MouseButtonPress { mouse_button: MouseCode::Button1 }));
    assert!(app.input().is_mouse_pressed(MouseCode::Button1));
    assert!(!app.input().is_mouse_pressed(MouseCode::Button0));
    app.on_event(Some(Event::MouseButtonRelease { mouse_button: MouseCode::Button0 }));
    assert!(app.input().is_mouse_pressed(MouseCode::Button1));
    app.on_event(Some(Event::MouseButtonRelease { mouse_button: MouseCode::Button1 }));
    assert!(!app.input().is_mouse_pressed(MouseCode::Button1));
}

#[test]
fn mouse_move_overwrites_the_position() {
    let mut app: Application<Recorder> = Application::new();
    assert_eq!(app.input().mouse_location(), (0, 0));
    assert_eq!(f64::from_bits(app.input().mouse_location().0), 0.0);
    app.on_event(Some(Event::MouseMove { x: 3.25f64.to_bits(), y: (-1.5f64).to_bits() }));
    let (x, y) = app.input().mouse_location();
    assert_eq!((f64::from_bits(x), f64::from_bits(y)), (3.25, -1.5));
    app.on_event(Some(Event::MouseScroll { x: 9.0f64.to_bits(), y: 9.0f64.to_bits() }));
    assert_eq!(app.input().mouse_location(), (x, y));
}

#[test]
fn close_marks_for_exit_and_reaches_no_layer() {
    let log = Log::default();
    let mut app = Application::new();
    let (a, a_keys) = recorder("a", true, &log);
    app.push_layer(a);
    assert!(!app.exit_requested());
    assert_eq!(app.on_event(Some(Event::WindowClose)), 0);
    assert!(app.exit_requested());
    assert_eq!(*a_keys.borrow(), 0);
    assert_eq!(app.next_wake(Some(Wake::Poll)), Wake::Exit);
}

#[test]
fn resize_is_noted_and_reaches_no_layer() {
    let log = Log::default();
    let mut app = Application::new();
    let (a, _) = recorder("a", false, &log);
    app.push_layer(a);
    assert_eq!(app.window_size(), None);
    assert_eq!(app.on_event(Some(Event::WindowResize { width: 800, height: 450 })), 0);
    assert_eq!(app.window_size(), Some((800, 450)));
    assert!(!app.exit_requested());
}

#[test]
fn absent_event_does_nothing() {
    let log = Log::default();
    let mut app = Application::new();
    let (a, _) = recorder("a", false, &log);
    app.push_layer(a);
    assert_eq!(app.on_event(None), 0);
    assert_eq!(app.window_size(), None);
    assert!(!app.exit_requested());
}

#[test]
fn frame_updates_every_layer_then_renders_every_layer() {
    let log = Log::default();
    let mut app = Application::new();
    let (o, _) = recorder("o", false, &log);
    let (a, _) = recorder("a", false, &log);
    app.push_overlay(o);
    app.push_layer(a);
    app.on_event(Some(Event::KeyPress { key: KeyCode::W }));
    let mut drawn = Vec::new();
    app.frame(&mut drawn);
    assert_eq!(*log.borrow(), vec!["attach o", "attach a", "update a true", "update o true"]);
    assert_eq!(drawn, vec!["render a", "render o"]);
}

#[test]
fn next_wake_defaults_to_one_frame_interval() {
    let app: Application<Recorder> = Application::new();
    assert_eq!(FRAME_INTERVAL_NANOS, 16_666_667);
    assert_eq!(app.next_wake(None), Wake::After { nanos: 16_666_667 });
    assert_eq!(app.next_wake(Some(Wake::Wait)), Wake::Wait);
    assert_eq!(app.next_wake(Some(Wake::After { nanos: 5 })), Wake::After { nanos: 5 });
}

#[test]
fn handle_event_translates_and_dispatches() {
    let log = Log::default();
    let mut app = Application::new();
    let (a, a_keys) = recorder("a", false, &log);
    app.push_layer(a);
    let offered = app.handle_event(WindowEvent::KeyboardInput {
        state: ElementState::Pressed,
        virtual_keycode: Some(VirtualKeyCode::W),
    });
    assert_eq!(offered, 1);
    assert_eq!(*a_keys.borrow(), 1);
    assert!(app.input().is_key_pressed(KeyCode::W));
    assert_eq!(app.handle_event(WindowEvent::Other), 0);
    assert_eq!(app.handle_event(WindowEvent::CloseRequested), 0);
    assert!(app.exit_requested());
}

#[test]
fn translate_covers_every_report() {
    assert_eq!(Event::translate(WindowEvent::CloseRequested), Some(Event::WindowClose));
    assert_eq!(
        Event::translate(WindowEvent::Resized { width: 4, height: 3 }),
        Some(Event::WindowResize { width: 4, height: 3 })
    );
    assert_eq!(
        Event::translate(WindowEvent::KeyboardInput {
            state: ElementState::Released,
            virtual_keycode: Some(VirtualKeyCode::Return),
        }),
        Some(Event::KeyRelease { key: KeyCode::Enter })
    );
    assert_eq!(
        Event::translate(WindowEvent::MouseInput {
            state: ElementState::Pressed,
            button: MouseButton::Middle,
        }),
        Some(Event::MouseButtonPress { mouse_button: MouseCode::Button2 })
    );
    assert_eq!(
        Event::translate(WindowEvent::MouseInput {
            state: ElementState::Released,
            button: MouseButton::Other(5),
        }),
        Some(Event::MouseButtonRelease { mouse_button: MouseCode::Button5 })
    );
    assert_eq!(
        Event::translate(WindowEvent::MouseWheel { x: 1, y: 2 }),
        Some(Event::MouseScroll { x: 1, y: 2 })
    );
    assert_eq!(
        Event::translate(WindowEvent::CursorMoved { x: 7, y: 8 }),
        Some(Event::MouseMove { x: 7, y: 8 })
    );
    assert_eq!(Event::translate(WindowEvent::Other), None);
}

#[test]
fn key_report_without_a_key_gets_a_default() {
    assert_eq!(
        Event::translate(WindowEvent::KeyboardInput {
            state: ElementState::Pressed,
            virtual_keycode: None,
        }),
        Some(Event::KeyPress { key: KeyCode::KPDivide })
    );
    assert_eq!(
        Event::translate(WindowEvent::KeyboardInput {
            state: ElementState::Released,
            virtual_keycode: None,
        }),
        Some(Event::KeyRelease { key: KeyCode::Space })
    );
}
