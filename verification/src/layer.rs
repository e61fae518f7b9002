//! Layers, and the stack that holds them: regular layers in front, overlays
//! behind them, each found again by the handle that its push returned.

use vstd::prelude::*;
use crate::event::Event;
use crate::input::Input;

verus! {

/// A unit of the application with five hooks. For each hook the layer can
/// say what a call of it may do, as a relation between the state before and
/// the state after; where it says nothing, a call may do anything.
pub trait Layer {
    /// What a layer draws with: the frame, the display and whatever else the
    /// render pass hands around.
    type Context;

    /// Whether a call of the attach hook can turn `self` into `after`.
    open spec fn attach_outcome(&self, after: &Self) -> bool {
        true
    }

    /// Whether a call of the detach hook can turn `self` into `after`.
    open spec fn detach_outcome(&self, after: &Self) -> bool {
        true
    }

    /// Whether a call of the update hook with `input` can turn `self` into
    /// `after`.
    open spec fn update_outcome(&self, after: &Self, input: &Input) -> bool {
        true
    }

    /// Whether a call of the event hook with `offered` can turn `self` into
    /// `after` and leave `left` of the event.
    open spec fn event_outcome(
        &self,
        after: &Self,
        offered: Option<Event>,
        left: Option<Event>,
    ) -> bool {
        true
    }

    /// Whether a call of the render hook with `input` can turn `self` into
    /// `after` and the context `before` into `drawn`.
    open spec fn render_outcome(
        &self,
        after: &Self,
        input: &Input,
        before: &Self::Context,
        drawn: &Self::Context,
    ) -> bool {
        true
    }

    /// Called when the layer joins an application.
    fn on_attach(&mut self)
        ensures
            old(self).attach_outcome(final(self)),
    ;

    /// Called when the layer has left an application.
    fn on_detach(&mut self)
        ensures
            old(self).detach_outcome(final(self)),
    ;

    /// Called once per frame, before anything is drawn.
    fn on_update(&mut self, input: &Input)
        ensures
            old(self).update_outcome(final(self), input),
    ;

    /// Called with an event that nobody has consumed yet. Setting the event
    /// to `None` consumes it.
    fn on_event(&mut self, event: &mut Option<Event>)
        ensures
            old(self).event_outcome(final(self), *old(event), *final(event)),
    ;

    /// Called once per frame, after every layer was updated, to draw.
    fn on_egui_render(&mut self, input: &Input, context: &mut Self::Context)
        ensures
            old(self).render_outcome(final(self), input, old(context), final(context)),
    ;
}

/// The handle of a layer in a stack: the number of pushes that came before
/// its own.
#[derive(Debug, Clone, Copy, PartialEq, Eq, Hash, Structural)]
pub struct LayerId {
    pub serial: u64,
}

/// Whether two handles name the same layer.
pub fn cmp(a1: &LayerId, a2: &LayerId) -> (same: bool)
    ensures
        same == (a1 == a2),
{
    a1.serial == a2.serial
}

struct Slot<L> {
    id: LayerId,
    overlay: bool,
    layer: L,
}

/// Layers in the order in which they are updated and drawn.
pub struct LayerStack<L> {
    slots: Vec<Slot<L>>,
    first_overlay_index: usize,
    next_serial: u64,
}

/// How many entries of `kinds` are `false`: with `kinds` the overlay marks of
/// a stack, the number of its regular layers.
pub open spec fn count_regular(kinds: Seq<bool>) -> nat
    decreases kinds.len(),
{
    if kinds.len() == 0 {
        0
    } else {
        count_regular(kinds.drop_last()) + if kinds.last() {
            0nat
        } else {
            1nat
        }
    }
}

impl<L: Layer> LayerStack<L> {
    /// The handles, front to back.
    pub closed spec fn handles(&self) -> Seq<LayerId> {
        Seq::new(self.slots@.len(), |i: int| self.slots@[i].id)
    }

    /// For each position, whether the layer there was pushed as an overlay.
    pub closed spec fn kinds(&self) -> Seq<bool> {
        Seq::new(self.slots@.len(), |i: int| self.slots@[i].overlay)
    }

    /// The layers themselves, front to back.
    pub closed spec fn layers(&self) -> Seq<L> {
        Seq::new(self.slots@.len(), |i: int| self.slots@[i].layer)
    }

    /// The position of the first overlay.
    pub closed spec fn boundary(&self) -> int {
        self.first_overlay_index as int
    }

    /// How many handles the stack has given out.
    pub closed spec fn issued(&self) -> int {
        self.next_serial as int
    }

    /// The number of layers, overlays included.
    pub open spec fn count(&self) -> int {
        self.handles().len() as int
    }

    /// The handles of the regular layers, front to back.
    pub open spec fn regular(&self) -> Seq<LayerId> {
        self.handles().subrange(0, self.boundary())
    }

    /// The handles of the overlays, front to back.
    pub open spec fn overlays(&self) -> Seq<LayerId> {
        self.handles().subrange(self.boundary(), self.count())
    }

    /// The invariant of a stack. The boundary splits it: what was pushed as
    /// a regular layer stands before it, what was pushed as an overlay at or
    /// after it. On each side the layers stand in the order of their pushes.
    /// No handle occurs twice, and none is one that is still to be given out.
    pub open spec fn wf(&self) -> bool {
        &&& self.kinds().len() == self.count()
        &&& self.layers().len() == self.count()
        &&& 0 <= self.boundary() <= self.count()
        &&& forall|i: int| 0 <= i < self.count() ==> self.kinds()[i] == (i >= self.boundary())
        &&& forall|i: int, j: int|
            0 <= i < j < self.boundary() ==> self.handles()[i].serial < self.handles()[j].serial
        &&& forall|i: int, j: int|
            self.boundary() <= i < j < self.count() ==> self.handles()[i].serial
                < self.handles()[j].serial
        &&& forall|i: int, j: int|
            0 <= i < j < self.count() ==> self.handles()[i] != self.handles()[j]
        &&& forall|i: int| 0 <= i < self.count() ==> self.handles()[i].serial < self.issued()
    }

    /// Whether the layer at position `at` is among the `offered` layers that
    /// an event reaches first: among the last `offered` of the stack.
    pub open spec fn offered_to(&self, at: int, offered: int) -> bool {
        self.count() - offered <= at < self.count()
    }

    /// Whether every layer of `before` was updated once, with `input`, to
    /// give the layer at its position in `self`.
    pub open spec fn updated(&self, before: &Self, input: &Input) -> bool {
        forall|i: int|
            0 <= i < before.count() ==> before.layers()[i].update_outcome(
                #[trigger] &self.layers()[i],
                input,
            )
    }

    /// Whether every layer of `before` drew once, with `input`, front to
    /// back: the layer at position `i` turned the context `contexts[i]` into
    /// `contexts[i + 1]` and itself into the layer at `i` in `self`.
    pub open spec fn rendered(
        &self,
        before: &Self,
        input: &Input,
        contexts: Seq<L::Context>,
    ) -> bool {
        &&& contexts.len() == before.count() + 1
        &&& forall|i: int|
            0 <= i < before.count() ==> before.layers()[i].render_outcome(
                #[trigger] &self.layers()[i],
                input,
                &contexts[i],
                &contexts[i + 1],
            )
    }

    /// Whether an event went through `before` back to front and left `self`:
    /// `events[0]` was offered to the last layer, what that layer left of it
    /// to the layer in front of it, and so on. Every layer that was offered
    /// the event was offered one that was still there, every layer further
    /// to the front is as it was, and the event stopped short of the front
    /// only where a layer consumed it.
    pub open spec fn routed(&self, before: &Self, events: Seq<Option<Event>>) -> bool {
        let offered = events.len() - 1;
        &&& 0 <= offered <= before.count()
        &&& forall|k: int|
            0 <= k < offered ==> {
                let at = before.count() - 1 - k;
                &&& (#[trigger] events[k]) is Some
                &&& before.layers()[at].event_outcome(&self.layers()[at], events[k], events[k + 1])
            }
        &&& forall|i: int|
            0 <= i < before.count() && !before.offered_to(i, offered) ==> self.layers()[i]
                == before.layers()[i]
        &&& offered < before.count() ==> events[offered] is None
    }

    /// Whether `other` has the same handles, marks, boundary and handle
    /// counter: the hooks of the layers may have run, nothing else changed.
    pub open spec fn same_shape(&self, other: &Self) -> bool {
        &&& self.handles() == other.handles()
        &&& self.kinds() == other.kinds()
        &&& self.boundary() == other.boundary()
        &&& self.issued() == other.issued()
        &&& self.layers().len() == other.layers().len()
    }

    /// Whether `other` is the same stack with the same layers in the same
    /// states.
    pub open spec fn unchanged(&self, other: &Self) -> bool {
        &&& self.same_shape(other)
        &&& self.layers() == other.layers()
    }

    /// An empty stack.
    pub fn new() -> (stack: Self)
        ensures
            stack.wf(),
            stack.count() == 0,
            stack.boundary() == 0,
            stack.issued() == 0,
    {
        LayerStack { slots: Vec::new(), first_overlay_index: 0, next_serial: 0 }
    }

    /// The number of layers, overlays included.
    pub fn len(&self) -> (n: usize)
        ensures
            n == self.count(),
    {
        self.slots.len()
    }

    /// The position of the first overlay, which is the number of regular
    /// layers.
    pub fn first_overlay_index(&self) -> (n: usize)
        ensures
            n == self.boundary(),
    {
        self.first_overlay_index
    }

    /// Whether the stack can still give out a handle.
    pub fn can_push(&self) -> (free: bool)
        ensures
            free == (self.issued() < u64::MAX),
    {
        self.next_serial < u64::MAX
    }

    /// Puts a regular layer behind the regular layers that are there and in
    /// front of every overlay, and returns its handle.
    pub fn push_layer(&mut self, layer: L) -> (id: LayerId)
        requires
            old(self).wf(),
            old(self).issued() < u64::MAX,
        ensures
            final(self).wf(),
            id.serial == old(self).issued(),
            final(self).issued() == old(self).issued() + 1,
            final(self).boundary() == old(self).boundary() + 1,
            final(self).handles() == old(self).handles().insert(old(self).boundary(), id),
            final(self).layers() == old(self).layers().insert(old(self).boundary(), layer),
            final(self).regular() == old(self).regular().push(id),
            final(self).overlays() == old(self).overlays(),
    {
        let id = LayerId { serial: self.next_serial };
        let at: usize = self.first_overlay_index;
        self.slots.insert(at, Slot { id, overlay: false, layer });
        assert(self.slots.len() == old(self).slots.len() + 1);
        self.first_overlay_index = at + 1;
        self.next_serial = self.next_serial + 1;
        proof {
            let b = old(self).boundary();
            assert(self.handles() =~= old(self).handles().insert(b, id));
            assert(self.kinds() =~= old(self).kinds().insert(b, false));
            assert(self.layers() =~= old(self).layers().insert(b, layer));
            assert(self.regular() =~= old(self).regular().push(id));
            assert(self.overlays() =~= old(self).overlays());
        }
        id
    }

    /// Puts an overlay behind everything that is there, and returns its
    /// handle.
    pub fn push_overlay(&mut self, overlay: L) -> (id: LayerId)
        requires
            old(self).wf(),
            old(self).issued() < u64::MAX,
        ensures
            final(self).wf(),
            id.serial == old(self).issued(),
            final(self).issued() == old(self).issued() + 1,
            final(self).boundary() == old(self).boundary(),
            final(self).handles() == old(self).handles().push(id),
            final(self).layers() == old(self).layers().push(overlay),
            final(self).regular() == old(self).regular(),
            final(self).overlays() == old(self).overlays().push(id),
    {
        let id = LayerId { serial: self.next_serial };
        self.slots.push(Slot { id, overlay: true, layer: overlay });
        self.next_serial = self.next_serial + 1;
        proof {
            assert(self.handles() =~= old(self).handles().push(id));
            assert(self.kinds() =~= old(self).kinds().push(true));
            assert(self.layers() =~= old(self).layers().push(overlay));
            assert(self.regular() =~= old(self).regular());
            assert(self.overlays() =~= old(self).overlays().push(id));
        }
        id
    }

    /// The handle at a position.
    spec fn handle_at(&self, at: usize) -> LayerId {
        self.handles()[at as int]
    }

    /// The position of `id` among the positions from `from` up to `to`.
    fn position_between(&self, id: LayerId, from: usize, to: usize) -> (found: Option<usize>)
        requires
            from <= to <= self.count(),
        ensures
            found matches Some(at) ==> from <= at < to && self.handle_at(at) == id,
            found is None ==> forall|j: int| from <= j < to ==> self.handles()[j] != id,
    {
        let mut i: usize = from;
        while i < to
            invariant
                from <= i <= to <= self.count(),
                self.count() == self.slots@.len(),
                forall|j: int| from <= j < i ==> self.handles()[j] != id,
            decreases to - i,
        {
            if cmp(&id, &self.slots[i].id) {
                return Some(i);
            }
            i = i + 1;
        }
        None
    }

    /// Takes the regular layer with the handle `id` out of the stack and
    /// returns it. Where no regular layer has that handle, an overlay's
    /// handle included, nothing changes.
    pub fn pop_layer(&mut self, id: LayerId) -> (removed: Option<L>)
        requires
            old(self).wf(),
        ensures
            final(self).wf(),
            final(self).issued() == old(self).issued(),
            removed is Some <==> old(self).regular().contains(id),
            removed is None ==> final(self).unchanged(old(self)),
            removed matches Some(layer) ==> {
                let at = old(self).handles().index_of(id);
                &&& 0 <= at < old(self).boundary()
                &&& layer == old(self).layers()[at]
                &&& final(self).handles() == old(self).handles().remove(at)
                &&& final(self).layers() == old(self).layers().remove(at)
                &&& final(self).boundary() == old(self).boundary() - 1
                &&& final(self).regular() == old(self).regular().remove(at)
                &&& final(self).overlays() == old(self).overlays()
            },
    {
        let found = self.position_between(id, 0, self.first_overlay_index);
        match found {
            Some(at) => {
                let slot = self.slots.remove(at);
                self.first_overlay_index = self.first_overlay_index - 1;
                proof {
                    old(self).lemma_found(id, at as int);
                    let k = at as int;
                    assert(old(self).regular()[k] == id);
                    assert(self.handles() =~= old(self).handles().remove(k));
                    assert(self.kinds() =~= old(self).kinds().remove(k));
                    assert(self.layers() =~= old(self).layers().remove(k));
                    assert(self.regular() =~= old(self).regular().remove(k));
                    assert(self.overlays() =~= old(self).overlays());
                }
                Some(slot.layer)
            },
            None => {
                proof {
                    assert forall|j: int| 0 <= j < self.regular().len() implies self.regular()[j]
                        != id by {
                        assert(self.regular()[j] == self.handles()[j]);
                    }
                }
                None
            },
        }
    }

    /// Takes the overlay with the handle `id` out of the stack and returns
    /// it. Where no overlay has that handle, a regular layer's handle
    /// included, nothing changes.
    pub fn pop_overlay(&mut self, id: LayerId) -> (removed: Option<L>)
        requires
            old(self).wf(),
        ensures
            final(self).wf(),
            final(self).issued() == old(self).issued(),
            removed is Some <==> old(self).overlays().contains(id),
            removed is None ==> final(self).unchanged(old(self)),
            removed matches Some(layer) ==> {
                let at = old(self).handles().index_of(id);
                &&& old(self).boundary() <= at < old(self).count()
                &&& layer == old(self).layers()[at]
                &&& final(self).handles() == old(self).handles().remove(at)
                &&& final(self).layers() == old(self).layers().remove(at)
                &&& final(self).boundary() == old(self).boundary()
                &&& final(self).regular() == old(self).regular()
                &&& final(self).overlays() == old(self).overlays().remove(
                    at - old(self).boundary(),
                )
            },
    {
        let found = self.position_between(id, self.first_overlay_index, self.slots.len());
        match found {
            Some(at) => {
                let slot = self.slots.remove(at);
                proof {
                    old(self).lemma_found(id, at as int);
                    let k = at as int;
                    let b = old(self).boundary();
                    assert(old(self).overlays()[k - b] == id);
                    assert(self.handles() =~= old(self).handles().remove(k));
                    assert(self.kinds() =~= old(self).kinds().remove(k));
                    assert(self.layers() =~= old(self).layers().remove(k));
                    assert(self.regular() =~= old(self).regular());
                    assert(self.overlays() =~= old(self).overlays().remove(k - b));
                }
                Some(slot.layer)
            },
            None => {
                proof {
                    assert forall|j: int| 0 <= j < self.overlays().len() implies self.overlays()[j]
                        != id by {
                        assert(self.overlays()[j] == self.handles()[j + self.boundary()]);
                    }
                }
                None
            },
        }
    }

    /// The handles in the order in which a frame updates and draws the
    /// layers: the regular layers, then the overlays, each group in the order
    /// of its pushes.
    pub fn update_order(&self) -> (order: Vec<LayerId>)
        requires
            self.wf(),
        ensures
            order@ == self.handles(),
            order@ == self.regular() + self.overlays(),
    {
        let mut order: Vec<LayerId> = Vec::new();
        let mut i: usize = 0;
        while i < self.slots.len()
            invariant
                i <= self.slots@.len(),
                order@ == self.handles().subrange(0, i as int),
            decreases self.slots@.len() - i,
        {
            order.push(self.slots[i].id);
            assert(order@ =~= self.handles().subrange(0, i + 1));
            i = i + 1;
        }
        assert(order@ =~= self.handles());
        assert(self.handles() =~= self.regular() + self.overlays());
        order
    }

    /// The handles in the order in which an event is offered to the layers:
    /// the overlays, then the regular layers, each group last push first.
    pub fn event_order(&self) -> (order: Vec<LayerId>)
        requires
            self.wf(),
        ensures
            order@ == self.handles().reverse(),
            order@ == self.overlays().reverse() + self.regular().reverse(),
    {
        let mut order: Vec<LayerId> = Vec::new();
        let n: usize = self.slots.len();
        let mut i: usize = n;
        while i > 0
            invariant
                i <= n,
                n == self.slots@.len(),
                order@.len() == n - i,
                forall|k: int| 0 <= k < n - i ==> order@[k] == self.handles()[n - 1 - k],
            decreases i,
        {
            i = i - 1;
            order.push(self.slots[i].id);
        }
        assert(order@ =~= self.handles().reverse());
        assert(self.handles().reverse() =~= self.overlays().reverse() + self.regular().reverse());
        order
    }

    /// Runs the update hook of every layer once, with `input`, in the order
    /// of [`LayerStack::update_order`]. The stack keeps its shape.
    pub fn update(&mut self, input: &Input)
        requires
            old(self).wf(),
        ensures
            final(self).wf(),
            final(self).same_shape(old(self)),
            final(self).updated(old(self), input),
    {
        let n: usize = self.slots.len();
        let mut i: usize = 0;
        while i < n
            invariant
                i <= n,
                n == self.slots@.len(),
                self.same_shape(old(self)),
                forall|k: int|
                    0 <= k < i ==> old(self).layers()[k].update_outcome(
                        #[trigger] &self.layers()[k],
                        input,
                    ),
                forall|k: int| i <= k < n ==> self.layers()[k] == old(self).layers()[k],
            decreases n - i,
        {
            let ghost reached = self.layers();
            self.slots[i].layer.on_update(input);
            assert(self.layers() =~= reached.update(i as int, self.layers()[i as int]));
            assert(old(self).layers()[i as int].update_outcome(&self.layers()[i as int], input));
            assert(self.handles() =~= old(self).handles());
            assert(self.kinds() =~= old(self).kinds());
            i = i + 1;
        }
    }

    /// Runs the render hook of every layer once, with `input`, in the order
    /// of [`LayerStack::update_order`]: each layer draws on what the layers
    /// in front of it have drawn. The stack keeps its shape.
    pub fn render(&mut self, input: &Input, context: &mut L::Context)
        requires
            old(self).wf(),
        ensures
            final(self).wf(),
            final(self).same_shape(old(self)),
            exists|contexts: Seq<L::Context>|
                {
                    &&& #[trigger] final(self).rendered(old(self), input, contexts)
                    &&& contexts[0] == *old(context)
                    &&& contexts[old(self).count()] == *final(context)
                },
    {
        let n: usize = self.slots.len();
        let mut i: usize = 0;
        let ghost mut contexts: Seq<L::Context> = seq![*context];
        while i < n
            invariant
                i <= n,
                n == self.slots@.len(),
                self.same_shape(old(self)),
                contexts.len() == i + 1,
                contexts[0] == *old(context),
                contexts[i as int] == *context,
                forall|k: int|
                    0 <= k < i ==> old(self).layers()[k].render_outcome(
                        #[trigger] &self.layers()[k],
                        input,
                        &contexts[k],
                        &contexts[k + 1],
                    ),
                forall|k: int| i <= k < n ==> self.layers()[k] == old(self).layers()[k],
            decreases n - i,
        {
            let ghost reached = self.layers();
            self.slots[i].layer.on_egui_render(input, context);
            proof {
                contexts = contexts.push(*context);
            }
            assert(self.layers() =~= reached.update(i as int, self.layers()[i as int]));
            assert(old(self).layers()[i as int].render_outcome(
                &self.layers()[i as int],
                input,
                &contexts[i as int],
                &contexts[i + 1],
            ));
            assert(self.handles() =~= old(self).handles());
            assert(self.kinds() =~= old(self).kinds());
            i = i + 1;
        }
        assert(self.rendered(old(self), input, contexts));
    }

    /// Offers an event to the layers in the order of
    /// [`LayerStack::event_order`], as long as it is there: a layer that sets
    /// it to `None` is the last to see it. Returns how many layers were
    /// offered the event. They are the last of the stack; every layer in
    /// front of them is as it was. An event that is still there at the end
    /// was offered to every layer.
    pub fn dispatch_event(&mut self, event: &mut Option<Event>) -> (offered: usize)
        requires
            old(self).wf(),
        ensures
            final(self).wf(),
            final(self).same_shape(old(self)),
            exists|events: Seq<Option<Event>>|
                {
                    &&& #[trigger] final(self).routed(old(self), events)
                    &&& events.len() == offered + 1
                    &&& events[0] == *old(event)
                    &&& events[offered as int] == *final(event)
                },
            offered <= old(self).count(),
            forall|i: int|
                0 <= i < old(self).count() && !old(self).offered_to(i, offered as int)
                    ==> final(self).layers()[i] == old(self).layers()[i],
            offered == 0 ==> *final(event) == *old(event),
            *old(event) is None ==> offered == 0,
            *old(event) is Some && old(self).count() > 0 ==> offered >= 1,
            *final(event) is Some ==> offered == old(self).count(),
    {
        let n: usize = self.slots.len();
        let mut i: usize = n;
        let ghost mut events: Seq<Option<Event>> = seq![*event];
        while i > 0 && event.is_some()
            invariant
                i <= n,
                n == self.slots@.len(),
                self.same_shape(old(self)),
                events.len() == n - i + 1,
                events[0] == *old(event),
                events[n - i] == *event,
                forall|k: int|
                    0 <= k < n - i ==> (#[trigger] events[k]) is Some && old(self).layers()[n - 1
                        - k].event_outcome(&self.layers()[n - 1 - k], events[k], events[k + 1]),
                forall|k: int| 0 <= k < i ==> self.layers()[k] == old(self).layers()[k],
            decreases i,
        {
            i = i - 1;
            self.slots[i].layer.on_event(event);
            proof {
                events = events.push(*event);
            }
            assert(self.handles() =~= old(self).handles());
            assert(self.kinds() =~= old(self).kinds());
        }
        assert(self.routed(old(self), events));
        n - i
    }

    /// In a stack where no handle occurs twice, the position at which a
    /// handle was found is the position that `index_of` gives.
    proof fn lemma_found(&self, id: LayerId, at: int)
        requires
            self.wf(),
            0 <= at < self.count(),
            self.handles()[at] == id,
        ensures
            self.handles().index_of(id) == at,
    {
        let k = self.handles().index_of(id);
        assert(self.handles().contains(id));
        assert(0 <= k < self.count() && self.handles()[k] == id);
        if k < at {
            assert(self.handles()[k] != self.handles()[at]);
        } else if at < k {
            assert(self.handles()[at] != self.handles()[k]);
        }
    }
}

/// In a sequence of marks that are `false` before position `boundary` and
/// `true` from there on, the first `upto` marks hold `upto` times `false`, or
/// `boundary` times where that is less.
proof fn lemma_count_prefix(kinds: Seq<bool>, boundary: int, upto: int)
    requires
        0 <= boundary <= kinds.len(),
        0 <= upto <= kinds.len(),
        forall|i: int| 0 <= i < kinds.len() ==> kinds[i] == (i >= boundary),
    ensures
        count_regular(kinds.take(upto)) == if upto <= boundary {
            upto
        } else {
            boundary
        },
    decreases upto,
{
    if upto > 0 {
        lemma_count_prefix(kinds, boundary, upto - 1);
        assert(kinds.take(upto).drop_last() =~= kinds.take(upto - 1));
        assert(kinds.take(upto).last() == kinds[upto - 1]);
    }
}

/// The boundary of a stack is the number of its regular layers: of the
/// layers that were pushed as regular layers and are still there.
pub proof fn lemma_boundary_counts_regular<L: Layer>(stack: &LayerStack<L>)
    requires
        stack.wf(),
    ensures
        stack.boundary() == count_regular(stack.kinds()),
        stack.regular().len() == count_regular(stack.kinds()),
{
    lemma_count_prefix(stack.kinds(), stack.boundary(), stack.count());
    assert(stack.kinds().take(stack.count()) =~= stack.kinds());
}

/// Every regular layer stands in front of every overlay, and of two layers
/// of one kind the one that was pushed first stands in front.
pub proof fn lemma_order<L: Layer>(stack: &LayerStack<L>, i: int, j: int)
    requires
        stack.wf(),
        0 <= i < stack.count(),
        0 <= j < stack.count(),
    ensures
        !stack.kinds()[i] && stack.kinds()[j] ==> i < j,
        stack.kinds()[i] == stack.kinds()[j] ==> (i < j <==> stack.handles()[i].serial
            < stack.handles()[j].serial),
{
    if stack.kinds()[i] == stack.kinds()[j] {
        if j < i {
            assert(stack.handles()[j].serial < stack.handles()[i].serial);
        }
    }
}

/// The layer that consumes an event is the last to be offered it, and every
/// layer in front of that layer is as it was.
pub proof fn lemma_consumer_is_last<L: Layer>(
    before: &LayerStack<L>,
    after: &LayerStack<L>,
    events: Seq<Option<Event>>,
    k: int,
)
    requires
        after.routed(before, events),
        0 <= k < events.len() - 1,
        events[k + 1] is None,
    ensures
        k == events.len() - 2,
        forall|i: int|
            0 <= i < before.count() - 1 - k ==> after.layers()[i] == before.layers()[i],
{
    if k + 1 < events.len() - 1 {
        assert(events[k + 1] is Some);
    }
    assert forall|i: int| 0 <= i < before.count() - 1 - k implies after.layers()[i]
        == before.layers()[i] by {
        assert(!before.offered_to(i, events.len() - 1));
    }
}

/// An event that nobody consumes is offered to every layer.
pub proof fn lemma_unconsumed_reaches_all<L: Layer>(
    before: &LayerStack<L>,
    after: &LayerStack<L>,
    events: Seq<Option<Event>>,
)
    requires
        after.routed(before, events),
        events.last() is Some,
    ensures
        events.len() == before.count() + 1,
        forall|k: int| 0 <= k < events.len() ==> (#[trigger] events[k]) is Some,
{
}

/// An event reaches the overlays before the regular layers: where it was
/// offered to a regular layer, it was offered to every overlay.
pub proof fn lemma_overlays_first<L: Layer>(
    stack: &LayerStack<L>,
    offered: int,
    regular_at: int,
    overlay_at: int,
)
    requires
        stack.wf(),
        0 <= offered <= stack.count(),
        0 <= regular_at < stack.boundary(),
        stack.boundary() <= overlay_at < stack.count(),
        stack.offered_to(regular_at, offered),
    ensures
        stack.offered_to(overlay_at, offered),
        !stack.kinds()[regular_at],
        stack.kinds()[overlay_at],
{
}

} // verus!
