use vstd::prelude::*;

use crate::element::DebugContext;
use crate::element::Element;
use crate::element::Event;
use crate::element::EventContext;
use crate::element::LayoutContext;
use crate::element::Metadata;
use crate::element::PaintContext;
use crate::geometry::Rect;
use crate::geometry::SizeConstraint;
use crate::geometry::Vector2;
use crate::json::Value;

verus! {

/// `v` forced into the closed interval from `lo` to `hi`, with `lo`
/// taking precedence when the interval is empty.
pub open spec fn clamp_spec(v: int, lo: int, hi: int) -> int {
    if v < lo {
        lo
    } else if v > hi {
        hi
    } else {
        v
    }
}

fn clamp(v: i32, lo: i32, hi: i32) -> (r: i32)
    ensures
        r as int == clamp_spec(v as int, lo as int, hi as int),
{
    if v < lo {
        lo
    } else if v > hi {
        hi
    } else {
        v
    }
}

/// A leaf element with a fixed preferred size: it measures itself as that
/// size forced into the parent's constraints, keeps the bounds it painted
/// into as its hit-test geometry, and claims pointer events that land
/// inside them.
pub struct Fixed {
    pub preferred: Vector2,
    pub focusable: bool,
}

impl Element for Fixed {
    type LayoutState = ();

    type PaintState = Rect;

    open spec fn metadata_spec(&self) -> Option<Metadata> {
        Some(Metadata { focusable: self.focusable })
    }

    open spec fn layout_rel(&self, new_self: Self, constraint: SizeConstraint, size: Vector2, layout: ()) -> bool {
        &&& new_self == *self
        &&& size.x as int == clamp_spec(
            self.preferred.x as int,
            constraint.min.x as int,
            constraint.max.x as int,
        )
        &&& size.y as int == clamp_spec(
            self.preferred.y as int,
            constraint.min.y as int,
            constraint.max.y as int,
        )
    }

    open spec fn dispatch_rel(&self, new_self: Self, event: Event, bounds: Rect, layout: (), paint: Rect, handled: bool) -> bool {
        &&& new_self == *self
        &&& handled == (match event {
            Event::Pointer { position } => paint.contains_spec(position),
            Event::Key { .. } => false,
        })
    }

    open spec fn debug_rel(&self, bounds: Rect, layout: (), paint: Rect, r: Value) -> bool {
        r matches Value::Object(entries) && entries@.len() == 2 && entries@[0].0@ == "type"@ && (
        entries@[0].1 matches Value::Str(s) && s@ == "fixed"@) && entries@[1].0@ == "focusable"@
            && entries@[1].1 == Value::Bool(self.focusable)
    }

    fn layout(&mut self, constraint: SizeConstraint, ctx: &mut LayoutContext) -> (r: (
        Vector2,
        (),
    )) {
        let x = clamp(self.preferred.x, constraint.min.x, constraint.max.x);
        let y = clamp(self.preferred.y, constraint.min.y, constraint.max.y);
        (Vector2::new(x, y), ())
    }

    fn paint(&mut self, bounds: Rect, layout: &mut (), ctx: &mut PaintContext) -> (r: Rect)
        ensures
            r == bounds,
            *final(self) == *old(self),
    {
        bounds
    }

    fn dispatch_event(&mut self, event: &Event, bounds: Rect, layout: &mut (), paint: &mut Rect, ctx: &mut EventContext) -> (r: bool) {
        match event {
            Event::Pointer { position } => paint.contains(*position),
            Event::Key { .. } => false,
        }
    }

    fn metadata(&self) -> (r: Option<Metadata>) {
        Some(Metadata { focusable: self.focusable })
    }

    fn debug(&self, bounds: Rect, layout: &(), paint: &Rect, ctx: &DebugContext) -> (r: Value) {
        let mut entries: Vec<(String, Value)> = Vec::new();
        entries.push(("type".to_owned(), Value::Str("fixed".to_owned())));
        entries.push(("focusable".to_owned(), Value::Bool(self.focusable)));
        Value::Object(entries)
    }
}

/// An element that draws nothing: it takes all the space its parent
/// offers, reports no capabilities, and consumes no events.
pub struct Empty {}

impl Element for Empty {
    type LayoutState = ();

    type PaintState = ();

    open spec fn metadata_spec(&self) -> Option<Metadata> {
        None
    }

    open spec fn layout_rel(&self, new_self: Self, constraint: SizeConstraint, size: Vector2, layout: ()) -> bool {
        &&& new_self == *self
        &&& size == constraint.max
    }

    open spec fn dispatch_rel(&self, new_self: Self, event: Event, bounds: Rect, layout: (), paint: (), handled: bool) -> bool {
        &&& new_self == *self
        &&& handled == false
    }

    open spec fn debug_rel(&self, bounds: Rect, layout: (), paint: (), r: Value) -> bool {
        r matches Value::Str(s) && s@ == "empty"@
    }

    fn layout(&mut self, constraint: SizeConstraint, ctx: &mut LayoutContext) -> (r: (
        Vector2,
        (),
    )) {
        (constraint.max, ())
    }

    fn paint(&mut self, bounds: Rect, layout: &mut (), ctx: &mut PaintContext) -> (r: ())
        ensures
            *final(self) == *old(self),
    {
    }

    fn dispatch_event(&mut self, event: &Event, bounds: Rect, layout: &mut (), paint: &mut (), ctx: &mut EventContext) -> (r: bool) {
        false
    }

    fn metadata(&self) -> (r: Option<Metadata>) {
        None
    }

    fn debug(&self, bounds: Rect, layout: &(), paint: &(), ctx: &DebugContext) -> (r: Value) {
        Value::Str("empty".to_owned())
    }
}

} // verus!
