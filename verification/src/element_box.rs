use vstd::prelude::*;

use crate::element::AfterLayoutContext;
use crate::element::DebugContext;
use crate::element::Element;
use crate::element::Event;
use crate::element::EventContext;
use crate::element::LayoutContext;
use crate::element::Metadata;
use crate::element::PaintContext;
use crate::geometry::Rect;
use crate::geometry::SizeConstraint;
use crate::geometry::Vector2;
use crate::json::name_injected;
use crate::json::Value;
use crate::lifecycle::Lifecycle;
use crate::lifecycle::Phase;

verus! {

/// The type-erased element interface: the five lifecycle operations plus
/// the two queries, implemented once for a lifecycle machine wrapping any
/// concrete element type. `wf` is the slot invariant — the implementation
/// briefly parks the machine in an empty slot while a transition moves
/// ownership, and `wf` says the slot is full whenever anyone can look.
pub(crate) trait AnyElement {
    spec fn wf(&self) -> bool;

    spec fn phase(&self) -> Phase;

    spec fn size_spec(&self) -> Vector2;

    spec fn bounds_spec(&self) -> Rect;

    spec fn metadata_spec(&self) -> Option<Metadata>;

    spec fn layout_claims(&self, constraint: SizeConstraint, size: Vector2) -> bool;

    spec fn dispatch_claims(&self, event: Event, handled: bool) -> bool;

    spec fn debug_rel(&self, r: Value) -> bool;

    fn layout(&mut self, constraint: SizeConstraint, ctx: &mut LayoutContext) -> (r: Vector2)
        requires
            old(self).wf(),
        ensures
            final(self).wf(),
            final(self).phase() == Phase::PostLayout,
            final(self).size_spec() == r,
            final(self).metadata_spec() == old(self).metadata_spec(),
            old(self).layout_claims(constraint, r),
    ;

    fn after_layout(&mut self, ctx: &mut AfterLayoutContext)
        requires
            old(self).wf(),
            old(self).phase() == Phase::PostLayout,
        ensures
            final(self).wf(),
            final(self).phase() == Phase::PostLayout,
            final(self).size_spec() == old(self).size_spec(),
            final(self).metadata_spec() == old(self).metadata_spec(),
    ;

    fn paint(&mut self, origin: Vector2, ctx: &mut PaintContext)
        requires
            old(self).wf(),
            old(self).phase() == Phase::PostLayout,
        ensures
            final(self).wf(),
            final(self).phase() == Phase::PostPaint,
            final(self).bounds_spec() == (Rect { origin, size: old(self).size_spec() }),
            final(self).size_spec() == old(self).size_spec(),
            final(self).metadata_spec() == old(self).metadata_spec(),
    ;

    fn dispatch_event(&mut self, event: &Event, ctx: &mut EventContext) -> (r: bool)
        requires
            old(self).wf(),
            old(self).phase() == Phase::PostPaint,
        ensures
            final(self).wf(),
            final(self).phase() == Phase::PostPaint,
            final(self).bounds_spec() == old(self).bounds_spec(),
            final(self).size_spec() == old(self).size_spec(),
            final(self).metadata_spec() == old(self).metadata_spec(),
            old(self).dispatch_claims(*event, r),
    ;

    fn size(&self) -> (r: Vector2)
        requires
            self.wf(),
            self.phase() != Phase::Init,
        ensures
            r == self.size_spec(),
    ;

    fn metadata(&self) -> (r: Option<Metadata>)
        requires
            self.wf(),
        ensures
            r == self.metadata_spec(),
    ;

    fn debug(&self, ctx: &DebugContext) -> (r: Value)
        requires
            self.wf(),
            self.phase() == Phase::PostPaint,
        ensures
            self.debug_rel(r),
    ;
}

/// The one generic implementation of the erased interface: a slot holding
/// a lifecycle machine for a concrete element type. A transition takes
/// the machine out of the slot, runs the phase by value, and stores the
/// successor machine back; verified callers only ever see a full slot.
pub(crate) struct ErasedLifecycle<T: Element> {
    pub(crate) state: Option<Lifecycle<T>>,
}

impl<T: Element> AnyElement for ErasedLifecycle<T> {
    open spec fn wf(&self) -> bool {
        self.state is Some
    }

    open spec fn phase(&self) -> Phase {
        match self.state {
            Some(machine) => machine.phase(),
            None => arbitrary(),
        }
    }

    open spec fn size_spec(&self) -> Vector2 {
        match self.state {
            Some(machine) => machine.size_spec(),
            None => arbitrary(),
        }
    }

    open spec fn bounds_spec(&self) -> Rect {
        match self.state {
            Some(machine) => machine.bounds_spec(),
            None => arbitrary(),
        }
    }

    open spec fn metadata_spec(&self) -> Option<Metadata> {
        match self.state {
            Some(machine) => machine.metadata_spec(),
            None => arbitrary(),
        }
    }

    open spec fn layout_claims(&self, constraint: SizeConstraint, size: Vector2) -> bool {
        match self.state {
            Some(machine) => machine.layout_claims(constraint, size),
            None => arbitrary(),
        }
    }

    open spec fn dispatch_claims(&self, event: Event, handled: bool) -> bool {
        match self.state {
            Some(machine) => machine.dispatch_claims(event, handled),
            None => arbitrary(),
        }
    }

    open spec fn debug_rel(&self, r: Value) -> bool {
        match self.state {
            Some(machine) => machine.debug_rel(r),
            None => arbitrary(),
        }
    }

    fn layout(&mut self, constraint: SizeConstraint, ctx: &mut LayoutContext) -> (r: Vector2) {
        let machine = match self.state.take() {
            Some(machine) => machine,
            None => unreached(),
        };
        let ghost before = machine;
        let (next, size) = machine.layout(constraint, ctx);
        proof {
            assert(before.element_view().layout_rel(
                next.element_view(),
                constraint,
                size,
                next.layout_state_spec(),
            ));
        }
        self.state = Some(next);
        size
    }

    fn after_layout(&mut self, ctx: &mut AfterLayoutContext) {
        let machine = match self.state.take() {
            Some(machine) => machine,
            None => unreached(),
        };
        let next = machine.after_layout(ctx);
        self.state = Some(next);
    }

    fn paint(&mut self, origin: Vector2, ctx: &mut PaintContext) {
        let machine = match self.state.take() {
            Some(machine) => machine,
            None => unreached(),
        };
        let next = machine.paint(origin, ctx);
        self.state = Some(next);
    }

    fn dispatch_event(&mut self, event: &Event, ctx: &mut EventContext) -> (r: bool) {
        let machine = match self.state.take() {
            Some(machine) => machine,
            None => unreached(),
        };
        let ghost before = machine;
        let (next, handled) = machine.dispatch_event(event, ctx);
        proof {
            assert(before.element_view().dispatch_rel(
                next.element_view(),
                *event,
                before.bounds_spec(),
                before.layout_state_spec(),
                before.paint_state_spec(),
                handled,
            ));
        }
        self.state = Some(next);
        handled
    }

    fn size(&self) -> (r: Vector2) {
        match &self.state {
            Some(machine) => machine.size(),
            None => unreached(),
        }
    }

    fn metadata(&self) -> (r: Option<Metadata>) {
        match &self.state {
            Some(machine) => machine.metadata(),
            None => unreached(),
        }
    }

    fn debug(&self, ctx: &DebugContext) -> (r: Value) {
        match &self.state {
            Some(machine) => machine.debug(ctx),
            None => unreached(),
        }
    }
}

/// Relates an inspection value `v` coming out of an element to the value
/// `r` a handle returns for it: a handle with a display name prepends a
/// `"name"` entry to a map value, and hands everything else through
/// unchanged; a handle without a name changes nothing.
pub open spec fn name_tagged(name: Option<Seq<char>>, v: Value, r: Value) -> bool {
    match name {
        Some(n) => name_injected(n, v, r),
        None => r == v,
    }
}

/// The externally usable element handle: owns one type-erased element and
/// optionally tags it with a display name, fixed at construction. All
/// operations forward to the erased element; only `debug` post-processes
/// the result, folding the name into a map-shaped snapshot.
pub struct ElementBox {
    name: Option<String>,
    element: Box<dyn AnyElement>,
}

impl ElementBox {
    /// The slot invariant of the erased element: established at
    /// construction and preserved by every operation.
    pub closed spec fn wf(&self) -> bool {
        self.element.wf()
    }

    /// Which lifecycle phase the owned element has reached.
    pub closed spec fn phase(&self) -> Phase {
        self.element.phase()
    }

    /// The owned element's current extent; meaningful from the first
    /// layout on.
    pub closed spec fn size_spec(&self) -> Vector2 {
        self.element.size_spec()
    }

    /// Where the owned element was drawn; meaningful after paint.
    pub closed spec fn bounds_spec(&self) -> Rect {
        self.element.bounds_spec()
    }

    /// The owned element's capability facts.
    pub closed spec fn metadata_spec(&self) -> Option<Metadata> {
        self.element.metadata_spec()
    }

    /// The display name attached at construction, if any.
    pub closed spec fn name_spec(&self) -> Option<Seq<char>> {
        match self.name {
            Some(name) => Some(name@),
            None => None,
        }
    }

    /// Which measured sizes a layout pass on this handle may report: those
    /// the owned element's own layout relation admits for the constraint.
    pub closed spec fn layout_claims(&self, constraint: SizeConstraint, size: Vector2) -> bool {
        self.element.layout_claims(constraint, size)
    }

    /// Which event verdicts a dispatch on this handle may return: those
    /// the owned element's own dispatch relation admits for the event and
    /// the state it has reached.
    pub closed spec fn dispatch_claims(&self, event: Event, handled: bool) -> bool {
        self.element.dispatch_claims(event, handled)
    }

    /// Which inspection snapshots the owned element may produce in the
    /// state it has reached, before any name is folded in.
    pub closed spec fn debug_rel(&self, r: Value) -> bool {
        self.element.debug_rel(r)
    }

    /// Wrap a concrete element in an anonymous handle, ready for its
    /// first layout pass.
    pub fn boxed<T: Element + 'static>(element: T) -> (r: ElementBox)
        ensures
            r.wf(),
            r.phase() == Phase::Init,
            r.name_spec() is None,
            r.metadata_spec() == element.metadata_spec(),
    {
        ElementBox {
            name: None,
            element: Box::new(ErasedLifecycle { state: Some(Lifecycle::Init { element }) }),
        }
    }

    /// Wrap a concrete element in a handle that carries a display name
    /// for debug output.
    pub fn named<T: Element + 'static>(element: T, name: String) -> (r: ElementBox)
        ensures
            r.wf(),
            r.phase() == Phase::Init,
            r.name_spec() == Some(name@),
            r.metadata_spec() == element.metadata_spec(),
    {
        ElementBox {
            name: Some(name),
            element: Box::new(ErasedLifecycle { state: Some(Lifecycle::Init { element }) }),
        }
    }

    /// Run the layout phase; valid in every phase and always leaves the
    /// element in `PostLayout`, its measured size returned.
    pub fn layout(&mut self, constraint: SizeConstraint, ctx: &mut LayoutContext) -> (r: Vector2)
        requires
            old(self).wf(),
        ensures
            final(self).wf(),
            final(self).phase() == Phase::PostLayout,
            final(self).size_spec() == r,
            final(self).name_spec() == old(self).name_spec(),
            final(self).metadata_spec() == old(self).metadata_spec(),
            old(self).layout_claims(constraint, r),
    {
        self.element.layout(constraint, ctx)
    }

    /// Let the element react to its final size; valid only in
    /// `PostLayout`, which it stays in.
    pub fn after_layout(&mut self, ctx: &mut AfterLayoutContext)
        requires
            old(self).wf(),
            old(self).phase() == Phase::PostLayout,
        ensures
            final(self).wf(),
            final(self).phase() == Phase::PostLayout,
            final(self).size_spec() == old(self).size_spec(),
            final(self).name_spec() == old(self).name_spec(),
            final(self).metadata_spec() == old(self).metadata_spec(),
    {
        self.element.after_layout(ctx);
    }

    /// Run the paint phase at `origin`; valid only in `PostLayout`. The
    /// element is drawn within bounds made of the origin and the measured
    /// size and moves to `PostPaint`.
    pub fn paint(&mut self, origin: Vector2, ctx: &mut PaintContext)
        requires
            old(self).wf(),
            old(self).phase() == Phase::PostLayout,
        ensures
            final(self).wf(),
            final(self).phase() == Phase::PostPaint,
            final(self).bounds_spec() == (Rect { origin, size: old(self).size_spec() }),
            final(self).size_spec() == old(self).size_spec(),
            final(self).name_spec() == old(self).name_spec(),
            final(self).metadata_spec() == old(self).metadata_spec(),
    {
        self.element.paint(origin, ctx);
    }

    /// Offer an input event to the painted element; valid only in
    /// `PostPaint`, which it stays in. The flag says whether the element
    /// consumed the event.
    pub fn dispatch_event(&mut self, event: &Event, ctx: &mut EventContext) -> (r: bool)
        requires
            old(self).wf(),
            old(self).phase() == Phase::PostPaint,
        ensures
            final(self).wf(),
            final(self).phase() == Phase::PostPaint,
            final(self).bounds_spec() == old(self).bounds_spec(),
            final(self).size_spec() == old(self).size_spec(),
            final(self).name_spec() == old(self).name_spec(),
            final(self).metadata_spec() == old(self).metadata_spec(),
            old(self).dispatch_claims(*event, r),
    {
        self.element.dispatch_event(event, ctx)
    }

    /// The element's current extent: the measured size in `PostLayout`,
    /// the size component of the paint bounds in `PostPaint`. No size
    /// exists before the first layout.
    pub fn size(&self) -> (r: Vector2)
        requires
            self.wf(),
            self.phase() != Phase::Init,
        ensures
            r == self.size_spec(),
    {
        self.element.size()
    }

    /// The element's capability descriptor, available in every phase.
    pub fn metadata(&self) -> (r: Option<Metadata>)
        requires
            self.wf(),
        ensures
            r == self.metadata_spec(),
    {
        self.element.metadata()
    }

    /// Produce the inspection snapshot; valid only in `PostPaint`. The
    /// owned element produces a snapshot its own debug relation admits; if
    /// a display name was attached and that snapshot is a map, the result
    /// is the map with a `"name"` entry prepended and the original entries
    /// kept in order, and otherwise the snapshot comes back unchanged.
    pub fn debug(&self, ctx: &DebugContext) -> (r: Value)
        requires
            self.wf(),
            self.phase() == Phase::PostPaint,
        ensures
            exists|v: Value| self.debug_rel(v) && name_tagged(self.name_spec(), v, r),
    {
        let value = self.element.debug(ctx);
        match &self.name {
            Some(name) => {
                let ghost inner = value;
                let owned: String = name.as_str().to_owned();
                let r = value.with_name(owned);
                proof {
                    assert(self.debug_rel(inner) && name_tagged(self.name_spec(), inner, r));
                }
                r
            },
            None => {
                proof {
                    assert(self.debug_rel(value) && name_tagged(self.name_spec(), value, value));
                }
                value
            },
        }
    }
}

/// Drive an element through one whole frame in the required order: layout,
/// then after-layout, then paint at `origin`, then one event dispatch and
/// one inspection pass. Returns the measured size, whether the element
/// consumed the event, and the inspection snapshot.
pub fn run_frame(
    element: &mut ElementBox,
    constraint: SizeConstraint,
    origin: Vector2,
    event: &Event,
    layout_ctx: &mut LayoutContext,
    after_layout_ctx: &mut AfterLayoutContext,
    paint_ctx: &mut PaintContext,
    event_ctx: &mut EventContext,
    debug_ctx: &DebugContext,
) -> (r: (Vector2, bool, Value))
    requires
        old(element).wf(),
    ensures
        final(element).wf(),
        final(element).phase() == Phase::PostPaint,
        final(element).size_spec() == r.0,
        final(element).bounds_spec() == (Rect { origin, size: r.0 }),
        final(element).name_spec() == old(element).name_spec(),
        final(element).metadata_spec() == old(element).metadata_spec(),
        old(element).layout_claims(constraint, r.0),
{
    let size = element.layout(constraint, layout_ctx);
    element.after_layout(after_layout_ctx);
    element.paint(origin, paint_ctx);
    let handled = element.dispatch_event(event, event_ctx);
    let snapshot = element.debug(debug_ctx);
    (size, handled, snapshot)
}

} // verus!
