use vstd::prelude::*;

use crate::element::AfterLayoutContext;
use crate::element::DebugContext;
use crate::element::Element;
use crate::element::Event;
use crate::element::EventContext;
use crate::element::LayoutContext;
use crate::element::Metadata;
use crate::element::PaintContext;
use crate::geometry::Rect;
use crate::geometry::SizeConstraint;
use crate::geometry::Vector2;
use crate::json::Value;

verus! {

/// The phase an element has reached within the current frame.
#[derive(Clone, Copy, PartialEq, Eq, Structural, Debug)]
pub enum Phase {
    Init,
    PostLayout,
    PostPaint,
}

/// The lifecycle state machine: one concrete element together with
/// whichever per-phase state has been produced so far. The active variant
/// is the exclusive owner of the element and of its phase state; every
/// transition consumes the current variant and builds the next one, so no
/// observer ever sees an element separated from its phase state.
///
/// Calling a phase operation from the wrong variant is a caller bug, not a
/// runtime condition: verified callers are shut out by the preconditions,
/// and an unverified caller that does it anyway ends the process, since
/// there is no well-formed state to hand back.
pub enum Lifecycle<T: Element> {
    /// Freshly constructed; no phase has run yet.
    Init { element: T },
    /// Layout has run; `size` is the measured extent.
    PostLayout { element: T, size: Vector2, layout: T::LayoutState },
    /// Paint has run; `bounds` records where the element was drawn.
    PostPaint { element: T, bounds: Rect, layout: T::LayoutState, paint: T::PaintState },
}

impl<T: Element> Lifecycle<T> {
    /// Which phase the machine is in.
    pub open spec fn phase(&self) -> Phase {
        match *self {
            Lifecycle::Init { .. } => Phase::Init,
            Lifecycle::PostLayout { .. } => Phase::PostLayout,
            Lifecycle::PostPaint { .. } => Phase::PostPaint,
        }
    }

    /// The element the machine currently owns.
    pub open spec fn element_view(&self) -> T {
        match *self {
            Lifecycle::Init { element } => element,
            Lifecycle::PostLayout { element, .. } => element,
            Lifecycle::PostPaint { element, .. } => element,
        }
    }

    /// The element's current two-dimensional extent: the measured size
    /// after layout, and the size component of the paint bounds after
    /// paint. Unspecified before the first layout.
    pub open spec fn size_spec(&self) -> Vector2 {
        match *self {
            Lifecycle::Init { .. } => arbitrary(),
            Lifecycle::PostLayout { size, .. } => size,
            Lifecycle::PostPaint { bounds, .. } => bounds.size,
        }
    }

    /// Where the element was drawn. Unspecified before paint has run.
    pub open spec fn bounds_spec(&self) -> Rect {
        match *self {
            Lifecycle::PostPaint { bounds, .. } => bounds,
            _ => arbitrary(),
        }
    }

    /// The layout state the machine holds. Unspecified before the first
    /// layout.
    pub open spec fn layout_state_spec(&self) -> T::LayoutState {
        match *self {
            Lifecycle::Init { .. } => arbitrary(),
            Lifecycle::PostLayout { layout, .. } => layout,
            Lifecycle::PostPaint { layout, .. } => layout,
        }
    }

    /// The paint state the machine holds. Unspecified before paint has
    /// run.
    pub open spec fn paint_state_spec(&self) -> T::PaintState {
        match *self {
            Lifecycle::PostPaint { paint, .. } => paint,
            _ => arbitrary(),
        }
    }

    /// The capability facts of the owned element, whatever the phase.
    pub open spec fn metadata_spec(&self) -> Option<Metadata> {
        self.element_view().metadata_spec()
    }

    /// Which inspection snapshots the machine may hand out: exactly those
    /// its element's own debug relation admits for the stored bounds and
    /// phase states.
    pub open spec fn debug_rel(&self, r: Value) -> bool {
        self.element_view().debug_rel(
            self.bounds_spec(),
            self.layout_state_spec(),
            self.paint_state_spec(),
            r,
        )
    }

    /// Which measured sizes a layout pass on this machine may report:
    /// exactly those the owned element's own layout relation admits for
    /// the constraint.
    pub open spec fn layout_claims(&self, constraint: SizeConstraint, size: Vector2) -> bool {
        exists|new_element: T, new_layout: T::LayoutState|
            self.element_view().layout_rel(new_element, constraint, size, new_layout)
    }

    /// Which event verdicts a dispatch on this machine may return: exactly
    /// those the owned element's own dispatch relation admits for the
    /// event, the stored bounds and the stored phase states.
    pub open spec fn dispatch_claims(&self, event: Event, handled: bool) -> bool {
        exists|new_element: T|
            self.element_view().dispatch_rel(
                new_element,
                event,
                self.bounds_spec(),
                self.layout_state_spec(),
                self.paint_state_spec(),
                handled,
            )
    }

    /// Run the layout phase. Valid from every phase: a machine that had
    /// already laid out or painted starts the frame over, and whatever
    /// layout or paint state it held is discarded along with the consumed
    /// variant. Ownership of the element moves into a fresh `PostLayout`
    /// variant in one step.
    pub fn layout(self, constraint: SizeConstraint, ctx: &mut LayoutContext) -> (r: (Lifecycle<
        T,
    >, Vector2))
        ensures
            r.0.phase() == Phase::PostLayout,
            r.0.size_spec() == r.1,
            self.element_view().layout_rel(
                r.0.element_view(),
                constraint,
                r.1,
                r.0.layout_state_spec(),
            ),
            r.0.metadata_spec() == self.metadata_spec(),
    {
        let mut element = match self {
            Lifecycle::Init { element } => element,
            Lifecycle::PostLayout { element, .. } => element,
            Lifecycle::PostPaint { element, .. } => element,
        };
        let (size, layout) = element.layout(constraint, ctx);
        (Lifecycle::PostLayout { element, size, layout }, size)
    }

    /// Let the element react to its final size. Valid only directly after
    /// layout; the machine stays in `PostLayout` and keeps its measured
    /// size.
    pub fn after_layout(self, ctx: &mut AfterLayoutContext) -> (r: Lifecycle<T>)
        requires
            self.phase() == Phase::PostLayout,
        ensures
            r.phase() == Phase::PostLayout,
            r.size_spec() == self.size_spec(),
            r.metadata_spec() == self.metadata_spec(),
    {
        match self {
            Lifecycle::PostLayout { mut element, size, mut layout } => {
                element.after_layout(size, &mut layout, ctx);
                Lifecycle::PostLayout { element, size, layout }
            },
            _ => unreached(),
        }
    }

    /// Run the paint phase at the given origin. Valid only after layout;
    /// the element is drawn within bounds made of the origin and the
    /// measured size, and the machine moves to `PostPaint` holding those
    /// bounds.
    pub fn paint(self, origin: Vector2, ctx: &mut PaintContext) -> (r: Lifecycle<T>)
        requires
            self.phase() == Phase::PostLayout,
        ensures
            r.phase() == Phase::PostPaint,
            r.bounds_spec() == (Rect { origin, size: self.size_spec() }),
            r.size_spec() == self.size_spec(),
            r.metadata_spec() == self.metadata_spec(),
    {
        match self {
            Lifecycle::PostLayout { mut element, size, mut layout } => {
                let bounds = Rect::new(origin, size);
                let paint = element.paint(bounds, &mut layout, ctx);
                Lifecycle::PostPaint { element, bounds, layout, paint }
            },
            _ => unreached(),
        }
    }

    /// Offer an input event to the painted element; the flag says whether
    /// the element consumed it. Valid only after paint; the machine stays
    /// in `PostPaint` with its bounds unchanged.
    pub fn dispatch_event(self, event: &Event, ctx: &mut EventContext) -> (r: (Lifecycle<
        T,
    >, bool))
        requires
            self.phase() == Phase::PostPaint,
        ensures
            r.0.phase() == Phase::PostPaint,
            r.0.bounds_spec() == self.bounds_spec(),
            r.0.size_spec() == self.size_spec(),
            r.0.layout_state_spec() == self.layout_state_spec(),
            r.0.paint_state_spec() == self.paint_state_spec(),
            r.0.metadata_spec() == self.metadata_spec(),
            self.element_view().dispatch_rel(
                r.0.element_view(),
                *event,
                self.bounds_spec(),
                self.layout_state_spec(),
                self.paint_state_spec(),
                r.1,
            ),
    {
        match self {
            Lifecycle::PostPaint { mut element, bounds, mut layout, mut paint } => {
                let handled = element.dispatch_event(event, bounds, &mut layout, &mut paint, ctx);
                (Lifecycle::PostPaint { element, bounds, layout, paint }, handled)
            },
            _ => unreached(),
        }
    }

    /// The element's current extent: the measured size while in
    /// `PostLayout`, the size component of the paint bounds while in
    /// `PostPaint`. No size exists before the first layout.
    pub fn size(&self) -> (r: Vector2)
        requires
            self.phase() != Phase::Init,
        ensures
            r == self.size_spec(),
    {
        match self {
            Lifecycle::Init { .. } => unreached(),
            Lifecycle::PostLayout { size, .. } => *size,
            Lifecycle::PostPaint { bounds, .. } => bounds.size(),
        }
    }

    /// The capability descriptor of the owned element: a read-only side
    /// channel that is available in every phase.
    pub fn metadata(&self) -> (r: Option<Metadata>)
        ensures
            r == self.metadata_spec(),
    {
        match self {
            Lifecycle::Init { element } => element.metadata(),
            Lifecycle::PostLayout { element, .. } => element.metadata(),
            Lifecycle::PostPaint { element, .. } => element.metadata(),
        }
    }

    /// Produce the element's inspection snapshot. Valid only after paint,
    /// when the bounds and both pieces of phase state exist.
    pub fn debug(&self, ctx: &DebugContext) -> (r: Value)
        requires
            self.phase() == Phase::PostPaint,
        ensures
            self.debug_rel(r),
    {
        match self {
            Lifecycle::PostPaint { element, bounds, layout, paint } => element.debug(
                *bounds,
                layout,
                paint,
                ctx,
            ),
            _ => unreached(),
        }
    }
}

/// The capability metadata reported through the lifecycle machine depends
/// only on the element it owns, never on the phase the machine has
/// reached.
pub proof fn lemma_metadata_state_independent<T: Element>(a: Lifecycle<T>, b: Lifecycle<T>)
    requires
        a.element_view() == b.element_view(),
    ensures
        a.metadata_spec() == b.metadata_spec(),
{
}

/// Once an element has painted, the extent it reports is exactly the size
/// component of the bounds it was drawn into.
pub proof fn lemma_size_is_paint_bounds_size<T: Element>(m: Lifecycle<T>)
    requires
        m.phase() == Phase::PostPaint,
    ensures
        m.size_spec() == m.bounds_spec().size,
{
}

} // verus!
