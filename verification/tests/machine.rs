use element_lifecycle::AfterLayoutContext;
use element_lifecycle::DebugContext;
use element_lifecycle::Event;
use element_lifecycle::EventContext;
use element_lifecycle::Fixed;
use element_lifecycle::LayoutContext;
use element_lifecycle::Lifecycle;
use element_lifecycle::Metadata;
use element_lifecycle::PaintContext;
use element_lifecycle::Rect;
use element_lifecycle::SizeConstraint;
use element_lifecycle::Value;
use element_lifecycle::Vector2;

#[test]
fn the_machine_threads_state_between_phases() {
    let machine = Lifecycle::Init {
        element: Fixed {
            preferred: Vector2::new(40, 30),
            focusable: true,
        },
    };
    let (machine, size) = machine.layout(
        SizeConstraint::new(Vector2::new(0, 0), Vector2::new(100, 100)),
        &mut LayoutContext {},
    );
    assert_eq!(size, Vector2::new(40, 30));
    assert_eq!(machine.size(), Vector2::new(40, 30));
    let machine = machine.after_layout(&mut AfterLayoutContext {});
    let machine = machine.paint(Vector2::new(5, 5), &mut PaintContext {});
    assert_eq!(machine.size(), Vector2::new(40, 30));
    let (machine, handled) = machine.dispatch_event(
        &Event::Pointer {
            position: Vector2::new(6, 6),
        },
        &mut EventContext {},
    );
    assert!(handled);
    let snapshot = machine.debug(&DebugContext {});
    assert!(matches!(snapshot, Value::Object(_)));
    assert_eq!(machine.metadata(), Some(Metadata { focusable: true }));
}

#[test]
fn relayout_from_the_painted_machine() {
    let machine = Lifecycle::Init {
        element: Fixed {
            preferred: Vector2::new(40, 30),
            focusable: false,
        },
    };
    let (machine, _) = machine.layout(
        SizeConstraint::new(Vector2::new(0, 0), Vector2::new(100, 100)),
        &mut LayoutContext {},
    );
    let machine = machine.paint(Vector2::new(0, 0), &mut PaintContext {});
    // Layout is valid straight from the painted state.
    let (machine, size) = machine.layout(
        SizeConstraint::new(Vector2::new(0, 0), Vector2::new(20, 20)),
        &mut LayoutContext {},
    );
    assert_eq!(size, Vector2::new(20, 20));
    assert_eq!(machine.size(), Vector2::new(20, 20));
}

#[test]
fn rect_contains_uses_half_open_edges() {
    let rect = Rect::new(Vector2::new(10, 10), Vector2::new(100, 50));
    assert!(rect.contains(Vector2::new(10, 10)));
    assert!(rect.contains(Vector2::new(109, 59)));
    assert!(!rect.contains(Vector2::new(110, 10)));
    assert!(!rect.contains(Vector2::new(10, 60)));
    assert!(!rect.contains(Vector2::new(9, 10)));
    assert_eq!(rect.size(), Vector2::new(100, 50));
    assert_eq!(rect.origin(), Vector2::new(10, 10));
}

#[test]
fn rect_contains_handles_negative_coordinates() {
    let rect = Rect::new(Vector2::new(-20, -10), Vector2::new(30, 15));
    assert!(rect.contains(Vector2::new(-20, -10)));
    assert!(rect.contains(Vector2::new(9, 4)));
    assert!(!rect.contains(Vector2::new(10, 4)));
    assert!(!rect.contains(Vector2::new(-21, -10)));
}
