//! The application: the input state, the layer stack, and what happens to
//! them on an event and in a frame.

use vstd::prelude::*;
use crate::event::{Event, WindowEvent};
use crate::input::Input;
use crate::layer::{Layer, LayerId, LayerStack};

verus! {

/// The time between two frames where nobody asks for another, in nanoseconds.
pub const FRAME_INTERVAL_NANOS: u64 = 16_666_667;

/// When the event loop is to run next.
#[derive(Debug, Clone, Copy, PartialEq, Eq, Structural)]
pub enum Wake {
    /// At once.
    Poll,
    /// With the next event, however long it takes.
    Wait,
    /// After so many nanoseconds, or with the next event.
    After { nanos: u64 },
    /// Never: the loop ends.
    Exit,
}

/// The owner of the input state and the layer stack.
pub struct Application<L> {
    layer_stack: LayerStack<L>,
    input: Input,
    exit_requested: bool,
    window_size: Option<(u32, u32)>,
}

impl<L: Layer> Application<L> {
    /// The layer stack.
    pub closed spec fn stack(&self) -> LayerStack<L> {
        self.layer_stack
    }

    /// The input state.
    pub closed spec fn inputs(&self) -> Input {
        self.input
    }

    /// Whether the window was asked to close.
    pub closed spec fn closing(&self) -> bool {
        self.exit_requested
    }

    /// The size of the last resize, if there was one.
    pub closed spec fn resized(&self) -> Option<(u32, u32)> {
        self.window_size
    }

    /// The invariant of an application: that of its stack.
    pub open spec fn wf(&self) -> bool {
        self.stack().wf()
    }

    /// Whether `other` differs at most in its layer stack.
    pub open spec fn same_inputs(&self, other: &Self) -> bool {
        &&& self.inputs().keys() == other.inputs().keys()
        &&& self.inputs().buttons() == other.inputs().buttons()
        &&& self.inputs().pointer() == other.inputs().pointer()
        &&& self.closing() == other.closing()
        &&& self.resized() == other.resized()
    }

    /// What `event` leaves of the flags and the input state of `before`: a
    /// close request sets the flag, a resize is noted, every other event is
    /// recorded in the input state.
    pub open spec fn noted(&self, before: &Self, event: Event) -> bool {
        &&& self.closing() == (before.closing() || event is WindowClose)
        &&& self.resized() == match event {
            Event::WindowResize { width, height } => Some((width, height)),
            _ => before.resized(),
        }
        &&& self.inputs().keys() == before.inputs().keys_after(event)
        &&& self.inputs().buttons() == before.inputs().buttons_after(event)
        &&& self.inputs().pointer() == before.inputs().pointer_after(event)
    }

    /// An application without layers, at its start.
    pub fn new() -> (app: Self)
        ensures
            app.wf(),
            app.stack().count() == 0,
            app.stack().issued() == 0,
            !app.closing(),
            app.resized() is None,
            app.inputs().keys() == Set::<crate::keycode::KeyCode>::empty(),
            app.inputs().buttons() == Set::<crate::mousecode::MouseCode>::empty(),
            app.inputs().pointer() == (0u64, 0u64),
    {
        Application {
            layer_stack: LayerStack::new(),
            input: Input::new(),
            exit_requested: false,
            window_size: None,
        }
    }

    /// The layer stack.
    pub fn layer_stack(&self) -> (stack: &LayerStack<L>)
        ensures
            *stack == self.stack(),
    {
        &self.layer_stack
    }

    /// The input state.
    pub fn input(&self) -> (input: &Input)
        ensures
            *input == self.inputs(),
    {
        &self.input
    }

    /// Whether the window was asked to close.
    pub fn exit_requested(&self) -> (closing: bool)
        ensures
            closing == self.closing(),
    {
        self.exit_requested
    }

    /// The size of the last resize, if there was one.
    pub fn window_size(&self) -> (size: Option<(u32, u32)>)
        ensures
            size == self.resized(),
    {
        self.window_size
    }

    /// Whether handling `event` leads from `before` to `self` with `offered`
    /// layers offered the event: the stack keeps its shape, the flags and
    /// the input state take note of the event, and what is passed on of it
    /// goes through the stack back to front.
    pub open spec fn handled(&self, before: &Self, event: Option<Event>, offered: int) -> bool {
        &&& self.stack().same_shape(&before.stack())
        &&& match event {
            Some(e) => self.noted(before, e),
            None => self.same_inputs(before),
        }
        &&& exists|events: Seq<Option<Event>>|
            {
                &&& #[trigger] self.stack().routed(&before.stack(), events)
                &&& events.len() == offered + 1
                &&& events[0] == Event::passed_on(event)
            }
    }

    /// Handles one event. A close request is noted and goes no further, and
    /// so does a resize. Every other event is recorded in the input state
    /// and then offered to the layers, overlays first, until one consumes
    /// it. Returns how many layers were offered the event.
    pub fn on_event(&mut self, event: Option<Event>) -> (offered: usize)
        requires
            old(self).wf(),
        ensures
            final(self).wf(),
            final(self).handled(old(self), event, offered as int),
            Event::passed_on(event) is None ==> offered == 0 && final(self).stack().unchanged(
                &old(self).stack(),
            ),
            Event::passed_on(event) is Some && old(self).stack().count() > 0 ==> offered >= 1,
    {
        let mut event = event;
        match event {
            Some(Event::WindowClose) => {
                self.exit_requested = true;
                event = None;
            },
            Some(Event::WindowResize { width, height }) => {
                self.window_size = Some((width, height));
                event = None;
            },
            Some(e) => {
                self.input.record(e);
            },
            None => {},
        }
        let ghost passed = event;
        let offered = self.layer_stack.dispatch_event(&mut event);
        proof {
            let events = choose|events: Seq<Option<Event>>|
                {
                    &&& #[trigger] self.layer_stack.routed(&old(self).layer_stack, events)
                    &&& events.len() == offered + 1
                    &&& events[0] == passed
                };
            assert(self.stack().routed(&old(self).stack(), events));
            if offered == 0 {
                assert(self.stack().layers() =~= old(self).stack().layers()) by {
                    assert forall|i: int|
                        0 <= i < old(self).stack().count() implies self.stack().layers()[i] == old(
                        self,
                    ).stack().layers()[i] by {
                        assert(!old(self).stack().offered_to(i, 0));
                    }
                }
            }
        }
        offered
    }

    /// Translates a report of the windowing system and handles the event
    /// that it becomes. Returns how many layers were offered the event.
    pub fn handle_event(&mut self, report: WindowEvent) -> (offered: usize)
        requires
            old(self).wf(),
        ensures
            final(self).wf(),
            final(self).handled(old(self), Event::translated(report), offered as int),
            Event::passed_on(Event::translated(report)) is None ==> offered == 0
                && final(self).stack().unchanged(&old(self).stack()),
            Event::passed_on(Event::translated(report)) is Some && old(self).stack().count() > 0
                ==> offered >= 1,
    {
        self.on_event(Event::translate(report))
    }

    /// Whether a layer can still be pushed.
    pub fn can_push(&self) -> (free: bool)
        ensures
            free == (self.stack().issued() < u64::MAX),
    {
        self.layer_stack.can_push()
    }

    /// Attaches a layer and puts it behind the regular layers that are there,
    /// in front of every overlay. The layer has had its attach hook run when
    /// it enters the stack.
    pub fn push_layer(&mut self, layer: L) -> (id: LayerId)
        requires
            old(self).wf(),
            old(self).stack().issued() < u64::MAX,
        ensures
            final(self).wf(),
            final(self).same_inputs(old(self)),
            id.serial == old(self).stack().issued(),
            final(self).stack().issued() == old(self).stack().issued() + 1,
            final(self).stack().boundary() == old(self).stack().boundary() + 1,
            final(self).stack().handles() == old(self).stack().handles().insert(
                old(self).stack().boundary(),
                id,
            ),
            final(self).stack().layers().remove(old(self).stack().boundary()) == old(
                self,
            ).stack().layers(),
            layer.attach_outcome(&final(self).stack().layers()[old(self).stack().boundary()]),
            final(self).stack().regular() == old(self).stack().regular().push(id),
            final(self).stack().overlays() == old(self).stack().overlays(),
    {
        let mut attached = layer;
        attached.on_attach();
        let id = self.layer_stack.push_layer(attached);
        proof {
            let at = old(self).stack().boundary();
            assert(old(self).stack().layers().insert(at, attached).remove(at) =~= old(
                self,
            ).stack().layers());
        }
        id
    }

    /// Attaches an overlay and puts it behind everything that is there. The
    /// overlay has had its attach hook run when it enters the stack.
    pub fn push_overlay(&mut self, overlay: L) -> (id: LayerId)
        requires
            old(self).wf(),
            old(self).stack().issued() < u64::MAX,
        ensures
            final(self).wf(),
            final(self).same_inputs(old(self)),
            id.serial == old(self).stack().issued(),
            final(self).stack().issued() == old(self).stack().issued() + 1,
            final(self).stack().boundary() == old(self).stack().boundary(),
            final(self).stack().handles() == old(self).stack().handles().push(id),
            final(self).stack().layers().drop_last() == old(self).stack().layers(),
            overlay.attach_outcome(&final(self).stack().layers().last()),
            final(self).stack().regular() == old(self).stack().regular(),
            final(self).stack().overlays() == old(self).stack().overlays().push(id),
    {
        let mut attached = overlay;
        attached.on_attach();
        let id = self.layer_stack.push_overlay(attached);
        proof {
            assert(old(self).stack().layers().push(attached).drop_last() =~= old(
                self,
            ).stack().layers());
        }
        id
    }

    /// Takes the regular layer with the handle `id` out of the stack, runs
    /// its detach hook and returns it. Where there is no such layer, nothing
    /// changes and no hook runs.
    pub fn pop_layer(&mut self, id: LayerId) -> (detached: Option<L>)
        requires
            old(self).wf(),
        ensures
            final(self).wf(),
            final(self).same_inputs(old(self)),
            final(self).stack().issued() == old(self).stack().issued(),
            detached is Some <==> old(self).stack().regular().contains(id),
            detached is None ==> final(self).stack().unchanged(&old(self).stack()),
            detached matches Some(layer) ==> {
                let at = old(self).stack().handles().index_of(id);
                &&& 0 <= at < old(self).stack().boundary()
                &&& old(self).stack().layers()[at].detach_outcome(&layer)
                &&& final(self).stack().handles() == old(self).stack().handles().remove(at)
                &&& final(self).stack().layers() == old(self).stack().layers().remove(at)
                &&& final(self).stack().boundary() == old(self).stack().boundary() - 1
                &&& final(self).stack().regular() == old(self).stack().regular().remove(at)
                &&& final(self).stack().overlays() == old(self).stack().overlays()
            },
    {
        match self.layer_stack.pop_layer(id) {
            Some(layer) => {
                let mut layer = layer;
                layer.on_detach();
                Some(layer)
            },
            None => None,
        }
    }

    /// Takes the overlay with the handle `id` out of the stack, runs its
    /// detach hook and returns it. Where there is no such overlay, nothing
    /// changes and no hook runs.
    pub fn pop_overlay(&mut self, id: LayerId) -> (detached: Option<L>)
        requires
            old(self).wf(),
        ensures
            final(self).wf(),
            final(self).same_inputs(old(self)),
            final(self).stack().issued() == old(self).stack().issued(),
            detached is Some <==> old(self).stack().overlays().contains(id),
            detached is None ==> final(self).stack().unchanged(&old(self).stack()),
            detached matches Some(layer) ==> {
                let at = old(self).stack().handles().index_of(id);
                &&& old(self).stack().boundary() <= at < old(self).stack().count()
                &&& old(self).stack().layers()[at].detach_outcome(&layer)
                &&& final(self).stack().handles() == old(self).stack().handles().remove(at)
                &&& final(self).stack().layers() == old(self).stack().layers().remove(at)
                &&& final(self).stack().boundary() == old(self).stack().boundary()
                &&& final(self).stack().regular() == old(self).stack().regular()
                &&& final(self).stack().overlays() == old(self).stack().overlays().remove(
                    at - old(self).stack().boundary(),
                )
            },
    {
        match self.layer_stack.pop_overlay(id) {
            Some(overlay) => {
                let mut overlay = overlay;
                overlay.on_detach();
                Some(overlay)
            },
            None => None,
        }
    }

    /// Whether a frame leads from `before` to `self`, by way of the stack
    /// `between` and the contexts `contexts`: every layer was updated with
    /// the input state, which gave `between`, and then every layer drew with
    /// it, front to back, which gave `self`.
    pub open spec fn framed(
        &self,
        before: &Self,
        between: LayerStack<L>,
        contexts: Seq<L::Context>,
    ) -> bool {
        &&& between.same_shape(&before.stack())
        &&& between.updated(&before.stack(), &before.inputs())
        &&& self.stack().rendered(&between, &before.inputs(), contexts)
    }

    /// The two passes of a frame: every layer is updated with the input
    /// state, regular layers first, and then every layer draws, in the same
    /// order. The input state and the shape of the stack stay as they are.
    pub fn frame(&mut self, context: &mut L::Context)
        requires
            old(self).wf(),
        ensures
            final(self).wf(),
            final(self).same_inputs(old(self)),
            final(self).stack().same_shape(&old(self).stack()),
            exists|between: LayerStack<L>, contexts: Seq<L::Context>|
                {
                    &&& #[trigger] final(self).framed(old(self), between, contexts)
                    &&& contexts[0] == *old(context)
                    &&& contexts[old(self).stack().count()] == *final(context)
                },
    {
        self.layer_stack.update(&self.input);
        let ghost between = self.layer_stack;
        self.layer_stack.render(&self.input, context);
        proof {
            let contexts = choose|contexts: Seq<L::Context>|
                {
                    &&& #[trigger] self.layer_stack.rendered(&between, &self.input, contexts)
                    &&& contexts[0] == *old(context)
                    &&& contexts[between.count()] == *context
                };
            assert(self.framed(old(self), between, contexts));
        }
    }

    /// When the loop is to run next: never once the window was asked to
    /// close; else when the render pass asked for, and one frame interval
    /// from now where it asked for nothing.
    pub fn next_wake(&self, requested: Option<Wake>) -> (wake: Wake)
        ensures
            wake == if self.closing() {
                Wake::Exit
            } else {
                match requested {
                    Some(wish) => wish,
                    None => (Wake::After { nanos: FRAME_INTERVAL_NANOS }),
                }
            },
    {
        if self.exit_requested {
            Wake::Exit
        } else {
            match requested {
                Some(wish) => wish,
                None => Wake::After { nanos: FRAME_INTERVAL_NANOS },
            }
        }
    }
}

} // verus!
