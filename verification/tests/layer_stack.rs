use std::cell::RefCell;
use std::rc::Rc;

use sequoia::event::Event;
use sequoia::input::Input;
use sequoia::keycode::KeyCode;
use sequoia::layer::{cmp, Layer, LayerId, LayerStack};

type Log = Rc<RefCell<Vec<String>>>;

struct Probe {
    name: &'static str,
    consumes: bool,
    log: Log,
}

impl Probe {
    fn boxed(name: &'static str, consumes: bool, log: &Log) -> Probe {
        Probe { name, consumes, log: log.clone() }
    }
}

impl Layer for Probe {
    type Context = Vec<String>;

    fn on_attach(&mut self) {}

    fn on_detach(&mut self) {}

    fn on_update(&mut self, _input: &Input) {
        self.log.borrow_mut().push(format!("update {}", self.name));
    }

    fn on_event(&mut self, event: &mut Option<Event>) {
        self.log.borrow_mut().push(format!("event {}", self.name));
        if self.consumes {
            *event = None;
        }
    }

    fn on_egui_render(&mut self, _input: &Input, context: &mut Vec<String>) {
        context.push(format!("render {}", self.name));
    }
}

fn serials(ids: &[LayerId]) -> Vec<u64> {
    ids.iter().map(|id| id.serial).collect()
}

#[test]
fn new_stack_is_empty() {
    let stack: LayerStack<Probe> = LayerStack::new();
    assert_eq!(stack.len(), 0);
    assert_eq!(stack.first_overlay_index(), 0);
    assert!(stack.can_push());
    assert!(stack.update_order().is_empty());
    assert!(stack.event_order().is_empty());
}

#[test]
fn handles_count_the_pushes() {
    let log = Log::default();
    let mut stack = LayerStack::new();
    let a = stack.push_layer(Probe::boxed("a", false, &log));
    let b = stack.push_overlay(Probe::boxed("b", false, &log));
    let c = stack.push_layer(Probe::boxed("c", false, &log));
    assert_eq!((a.serial, b.serial, c.serial), (0, 1, 2));
    assert!(cmp(&a, &LayerId { serial: 0 }));
    assert!(!cmp(&a, &b));
}

#[test]
fn boundary_is_the_number_of_regular_layers() {
    let log = Log::default();
    let mut stack = LayerStack::new();
    let a = stack.push_layer(Probe::boxed("a", false, &log));
    assert_eq!(stack.first_overlay_index(), 1);
    let o = stack.push_overlay(Probe::boxed("o", false, &log));
    assert_eq!(stack.first_overlay_index(), 1);
    let b = stack.push_layer(Probe::boxed("b", false, &log));
    assert_eq!(stack.first_overlay_index(), 2);
    assert_eq!(stack.len(), 3);
    assert!(stack.pop_overlay(o).is_some());
    assert_eq!(stack.first_overlay_index(), 2);
    assert!(stack.pop_layer(a).is_some());
    assert_eq!(stack.first_overlay_index(), 1);
    assert!(stack.pop_layer(b).is_some());
    assert_eq!(stack.first_overlay_index(), 0);
    assert_eq!(stack.len(), 0);
}

#[test]
fn push_layer_goes_before_the_overlays() {
    let log = Log::default();
    let mut stack = LayerStack::new();
    let o1 = stack.push_overlay(Probe::boxed("o1", false, &log));
    let a = stack.push_layer(Probe::boxed("a", false, &log));
    let o2 = stack.push_overlay(Probe::boxed("o2", false, &log));
    let b = stack.push_layer(Probe::boxed("b", false, &log));
    assert_eq!(serials(&stack.update_order()), serials(&[a, b, o1, o2]));
    assert_eq!(serials(&stack.event_order()), serials(&[o2, o1, b, a]));
}

#[test]
fn update_visits_regular_layers_then_overlays() {
    let log = Log::default();
    let mut stack = LayerStack::new();
    stack.push_overlay(Probe::boxed("o1", false, &log));
    stack.push_layer(Probe::boxed("a", false, &log));
    stack.push_overlay(Probe::boxed("o2", false, &log));
    stack.push_layer(Probe::boxed("b", false, &log));
    stack.update(&Input::new());
    assert_eq!(*log.borrow(), vec!["update a", "update b", "update o1", "update o2"]);
}

#[test]
fn render_visits_in_update_order() {
    let log = Log::default();
    let mut stack = LayerStack::new();
    stack.push_overlay(Probe::boxed("o", false, &log));
    stack.push_layer(Probe::boxed("a", false, &log));
    let mut drawn = Vec::new();
    stack.render(&Input::new(), &mut drawn);
    assert_eq!(drawn, vec!["render a", "render o"]);
}

#[test]
fn event_visits_overlays_first() {
    let log = Log::default();
    let mut stack = LayerStack::new();
    stack.push_layer(Probe::boxed("a", false, &log));
    stack.push_overlay(Probe::boxed("o1", false, &log));
    stack.push_layer(Probe::boxed("b", false, &log));
    stack.push_overlay(Probe::boxed("o2", false, &log));
    let mut event = Some(Event::KeyPress { key: KeyCode::A });
    let offered = stack.dispatch_event(&mut event);
    assert_eq!(offered, 4);
    assert_eq!(event, Some(Event::KeyPress { key: KeyCode::A }));
    assert_eq!(*log.borrow(), vec!["event o2", "event o1", "event b", "event a"]);
}

#[test]
fn consumed_event_goes_no_further() {
    let log = Log::default();
    let mut stack = LayerStack::new();
    stack.push_layer(Probe::boxed("a", false, &log));
    stack.push_layer(Probe::boxed("b", true, &log));
    stack.push_overlay(Probe::boxed("o", false, &log));
    let mut event = Some(Event::WindowClose);
    let offered = stack.dispatch_event(&mut event);
    assert_eq!(offered, 2);
    assert_eq!(event, None);
    assert_eq!(*log.borrow(), vec!["event o", "event b"]);
}

#[test]
fn absent_event_reaches_nobody() {
    let log = Log::default();
    let mut stack = LayerStack::new();
    stack.push_layer(Probe::boxed("a", false, &log));
    let mut event = None;
    assert_eq!(stack.dispatch_event(&mut event), 0);
    assert_eq!(event, None);
    assert!(log.borrow().is_empty());
}

#[test]
fn event_on_empty_stack_stays() {
    let mut stack: LayerStack<Probe> = LayerStack::new();
    let mut event = Some(Event::MouseMove { x: 1.5f64.to_bits(), y: 2.5f64.to_bits() });
    assert_eq!(stack.dispatch_event(&mut event), 0);
    assert_eq!(event, Some(Event::MouseMove { x: 1.5f64.to_bits(), y: 2.5f64.to_bits() }));
}

#[test]
fn pop_returns_the_layer() {
    let log = Log::default();
    let mut stack = LayerStack::new();
    let a = stack.push_layer(Probe::boxed("a", false, &log));
    let b = stack.push_layer(Probe::boxed("b", false, &log));
    let removed = stack.pop_layer(a);
    assert_eq!(removed.map(|layer| layer.name), Some("a"));
    assert_eq!(serials(&stack.update_order()), serials(&[b]));
    assert_eq!(stack.first_overlay_index(), 1);
}

#[test]
fn pop_of_absent_layer_changes_nothing() {
    let log = Log::default();
    let mut stack = LayerStack::new();
    let a = stack.push_layer(Probe::boxed("a", false, &log));
    let o = stack.push_overlay(Probe::boxed("o", false, &log));
    assert!(stack.pop_layer(LayerId { serial: 99 }).is_none());
    assert!(stack.pop_overlay(LayerId { serial: 99 }).is_none());
    assert_eq!(stack.len(), 2);
    assert_eq!(stack.first_overlay_index(), 1);
    assert_eq!(serials(&stack.update_order()), serials(&[a, o]));
}

#[test]
fn pop_never_crosses_the_boundary() {
    let log = Log::default();
    let mut stack = LayerStack::new();
    let a = stack.push_layer(Probe::boxed("a", false, &log));
    let o = stack.push_overlay(Probe::boxed("o", false, &log));
    assert!(stack.pop_layer(o).is_none());
    assert!(stack.pop_overlay(a).is_none());
    assert_eq!(serials(&stack.update_order()), serials(&[a, o]));
    assert!(stack.pop_overlay(o).is_some());
    assert!(stack.pop_overlay(o).is_none());
    assert_eq!(serials(&stack.update_order()), serials(&[a]));
}
