use vstd::prelude::*;

use crate::geometry::Rect;
use crate::geometry::SizeConstraint;
use crate::geometry::Vector2;
use crate::json::Value;

verus! {

/// State the layout phase needs from its surroundings (window metrics,
/// text systems, and so on). The engine never inspects it; it is only
/// passed through to the concrete element.
pub struct LayoutContext {}

/// State available to an element once its final size is known.
pub struct AfterLayoutContext {}

/// State the paint phase draws with (the rendering backend's surface).
pub struct PaintContext {}

/// State available while an input event is dispatched.
pub struct EventContext {}

/// State available while a debug snapshot is produced.
pub struct DebugContext {}

/// An input event offered to an element after it has painted.
#[derive(Clone, Copy, PartialEq, Eq, Structural, Debug)]
pub enum Event {
    /// A pointer interaction at a window position.
    Pointer { position: Vector2 },
    /// A key press, by key code.
    Key { code: u32 },
}

/// The closed capability descriptor an element may report: the facts other
/// layers are allowed to query about an element without knowing its
/// concrete type.
#[derive(Clone, Copy, PartialEq, Eq, Structural, Debug)]
pub struct Metadata {
    /// Whether the element can receive keyboard focus.
    pub focusable: bool,
}

/// The behavior every concrete element type implements: compute layout,
/// react after layout, paint, handle an event, report optional capability
/// metadata, and produce a debug value. An element threads two pieces of
/// per-frame state between phases: a `LayoutState` produced by `layout`
/// and consumed by the later phases, and a `PaintState` produced by
/// `paint` and consumed by event dispatch and inspection.
pub trait Element: Sized {
    type LayoutState;

    type PaintState;

    /// The capability facts this element reports; they do not depend on
    /// which lifecycle phase the element has reached.
    spec fn metadata_spec(&self) -> Option<Metadata>;

    /// What this element's `layout` may do: how the element after the call
    /// and the measured size and layout state it produced relate to the
    /// element before the call and the constraint it was given.
    spec fn layout_rel(&self, new_self: Self, constraint: SizeConstraint, size: Vector2, layout: Self::LayoutState) -> bool;

    /// What this element's `dispatch_event` may do: how the element after
    /// the call and the returned verdict relate to the element before the
    /// call, the event, the paint bounds, and the phase states it was
    /// shown.
    spec fn dispatch_rel(&self, new_self: Self, event: Event, bounds: Rect, layout: Self::LayoutState, paint: Self::PaintState, handled: bool) -> bool;

    /// Which inspection snapshots this element may produce for the given
    /// paint bounds and phase states.
    spec fn debug_rel(&self, bounds: Rect, layout: Self::LayoutState, paint: Self::PaintState, r: Value) -> bool;

    /// Given sizing constraints from the parent, compute the element's own
    /// measured size along with whatever intermediate state later phases
    /// will need.
    fn layout(&mut self, constraint: SizeConstraint, ctx: &mut LayoutContext) -> (r: (Vector2, Self::LayoutState))
        ensures
            old(self).layout_rel(*final(self), constraint, r.0, r.1),
            final(self).metadata_spec() == old(self).metadata_spec(),
    ;

    /// React once the final size is known, for example to prepare
    /// resources sized to fit. Most elements need no reaction, so doing
    /// nothing is the default.
    fn after_layout(&mut self, size: Vector2, layout: &mut Self::LayoutState, ctx: &mut AfterLayoutContext)
        ensures
            final(self).metadata_spec() == old(self).metadata_spec(),
    {
    }

    /// Draw the element within `bounds`, returning whatever state event
    /// dispatch and inspection will need (hit-test geometry and the like).
    fn paint(&mut self, bounds: Rect, layout: &mut Self::LayoutState, ctx: &mut PaintContext) -> (r: Self::PaintState)
        ensures
            final(self).metadata_spec() == old(self).metadata_spec(),
    ;

    /// Process an input event; the result says whether the element
    /// consumed it. Dispatch may mutate the element itself but never the
    /// layout and paint results it is shown.
    fn dispatch_event(&mut self, event: &Event, bounds: Rect, layout: &mut Self::LayoutState, paint: &mut Self::PaintState, ctx: &mut EventContext) -> (r: bool)
        ensures
            old(self).dispatch_rel(*final(self), *event, bounds, *old(layout), *old(paint), r),
            *final(layout) == *old(layout),
            *final(paint) == *old(paint),
            final(self).metadata_spec() == old(self).metadata_spec(),
    ;

    /// Report the capability descriptor, if any.
    fn metadata(&self) -> (r: Option<Metadata>)
        ensures
            r == self.metadata_spec(),
    ;

    /// Produce an inspection snapshot of the element as painted.
    fn debug(&self, bounds: Rect, layout: &Self::LayoutState, paint: &Self::PaintState, ctx: &DebugContext) -> (r: Value)
        ensures
            self.debug_rel(bounds, *layout, *paint, r),
    ;
}

} // verus!
