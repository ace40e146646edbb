//! The element lifecycle engine of a retained-mode UI rendering pipeline.
//!
//! Every UI element moves through a fixed sequence of phases once per
//! frame — layout, post-layout adjustment, paint, then event dispatch and
//! inspection — while carrying its own per-phase intermediate state. The
//! [`lifecycle::Lifecycle`] state machine enforces the ordering, the
//! type-erased [`element_box::ElementBox`] handle hides each concrete
//! element type so heterogeneous elements can live in one tree, and every
//! transition moves ownership of the element and its phase state in a
//! single atomic step.

pub mod element;
pub mod element_box;
pub mod elements;
pub mod geometry;
pub mod json;
pub mod lifecycle;

pub use element::AfterLayoutContext;
pub use element::DebugContext;
pub use element::Element;
pub use element::Event;
pub use element::EventContext;
pub use element::LayoutContext;
pub use element::Metadata;
pub use element::PaintContext;
pub use element_box::ElementBox;
pub use elements::Empty;
pub use elements::Fixed;
pub use geometry::Rect;
pub use geometry::SizeConstraint;
pub use geometry::Vector2;
pub use json::Value;
pub use lifecycle::Lifecycle;
pub use lifecycle::Phase;
