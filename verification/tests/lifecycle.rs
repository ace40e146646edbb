use element_lifecycle::AfterLayoutContext;
use element_lifecycle::DebugContext;
use element_lifecycle::ElementBox;
use element_lifecycle::Empty;
use element_lifecycle::Event;
use element_lifecycle::EventContext;
use element_lifecycle::Fixed;
use element_lifecycle::LayoutContext;
use element_lifecycle::Metadata;
use element_lifecycle::PaintContext;
use element_lifecycle::SizeConstraint;
use element_lifecycle::Vector2;

fn constraint(max_x: i32, max_y: i32) -> SizeConstraint {
    SizeConstraint::new(Vector2::new(0, 0), Vector2::new(max_x, max_y))
}

#[test]
fn full_frame_in_order_succeeds() {
    let mut handle = ElementBox::boxed(Fixed {
        preferred: Vector2::new(100, 50),
        focusable: true,
    });
    let size = handle.layout(constraint(200, 200), &mut LayoutContext {});
    assert_eq!(size, Vector2::new(100, 50));
    handle.after_layout(&mut AfterLayoutContext {});
    handle.paint(Vector2::new(10, 10), &mut PaintContext {});
    let inside = Event::Pointer {
        position: Vector2::new(50, 30),
    };
    assert!(handle.dispatch_event(&inside, &mut EventContext {}));
    let _snapshot = handle.debug(&DebugContext {});
    // Dispatch and debug may repeat in any order while painted.
    assert!(handle.dispatch_event(&inside, &mut EventContext {}));
    let _snapshot = handle.debug(&DebugContext {});
}

#[test]
fn end_to_end_scenario() {
    let mut handle = ElementBox::boxed(Fixed {
        preferred: Vector2::new(100, 50),
        focusable: false,
    });
    let size = handle.layout(constraint(200, 200), &mut LayoutContext {});
    assert_eq!(size, Vector2::new(100, 50));
    handle.after_layout(&mut AfterLayoutContext {});
    handle.paint(Vector2::new(10, 10), &mut PaintContext {});
    // Bounds are (10, 10, 100, 50): origin plus measured size.
    assert_eq!(handle.size(), Vector2::new(100, 50));
    let inside = Event::Pointer {
        position: Vector2::new(109, 59),
    };
    assert!(handle.dispatch_event(&inside, &mut EventContext {}));
    let on_far_edge = Event::Pointer {
        position: Vector2::new(110, 59),
    };
    assert!(!handle.dispatch_event(&on_far_edge, &mut EventContext {}));
    let outside = Event::Pointer {
        position: Vector2::new(5, 30),
    };
    assert!(!handle.dispatch_event(&outside, &mut EventContext {}));
}

#[test]
fn relayout_restarts_the_frame() {
    let mut handle = ElementBox::boxed(Fixed {
        preferred: Vector2::new(100, 50),
        focusable: false,
    });
    handle.layout(constraint(200, 200), &mut LayoutContext {});
    handle.after_layout(&mut AfterLayoutContext {});
    handle.paint(Vector2::new(0, 0), &mut PaintContext {});
    // A second layout is valid from the painted state and measures anew
    // under the tighter constraints.
    let size = handle.layout(constraint(60, 40), &mut LayoutContext {});
    assert_eq!(size, Vector2::new(60, 40));
    assert_eq!(handle.size(), Vector2::new(60, 40));
    // The frame continues from layout as usual.
    handle.after_layout(&mut AfterLayoutContext {});
    handle.paint(Vector2::new(3, 4), &mut PaintContext {});
    assert_eq!(handle.size(), Vector2::new(60, 40));
    let event = Event::Pointer {
        position: Vector2::new(3, 4),
    };
    assert!(handle.dispatch_event(&event, &mut EventContext {}));
}

#[test]
fn size_tracks_layout_then_paint_bounds() {
    let mut handle = ElementBox::boxed(Fixed {
        preferred: Vector2::new(30, 20),
        focusable: false,
    });
    let measured = handle.layout(constraint(200, 200), &mut LayoutContext {});
    assert_eq!(handle.size(), measured);
    handle.after_layout(&mut AfterLayoutContext {});
    handle.paint(Vector2::new(7, 9), &mut PaintContext {});
    // After paint, size() is the size component of the paint bounds, which
    // the engine built from the measured size.
    assert_eq!(handle.size(), measured);
}

#[test]
fn layout_clamps_to_constraints() {
    let mut handle = ElementBox::boxed(Fixed {
        preferred: Vector2::new(100, 50),
        focusable: false,
    });
    let size = handle.layout(
        SizeConstraint::new(Vector2::new(120, 10), Vector2::new(300, 40)),
        &mut LayoutContext {},
    );
    assert_eq!(size, Vector2::new(120, 40));
}

#[test]
fn metadata_is_the_same_in_every_phase() {
    let mut handle = ElementBox::boxed(Fixed {
        preferred: Vector2::new(10, 10),
        focusable: true,
    });
    let expected = Some(Metadata { focusable: true });
    assert_eq!(handle.metadata(), expected);
    handle.layout(constraint(50, 50), &mut LayoutContext {});
    assert_eq!(handle.metadata(), expected);
    handle.after_layout(&mut AfterLayoutContext {});
    assert_eq!(handle.metadata(), expected);
    handle.paint(Vector2::new(0, 0), &mut PaintContext {});
    assert_eq!(handle.metadata(), expected);
    let event = Event::Pointer {
        position: Vector2::new(1, 1),
    };
    handle.dispatch_event(&event, &mut EventContext {});
    assert_eq!(handle.metadata(), expected);
}

#[test]
fn empty_element_reports_no_metadata_in_every_phase() {
    let mut handle = ElementBox::boxed(Empty {});
    assert_eq!(handle.metadata(), None);
    handle.layout(constraint(80, 60), &mut LayoutContext {});
    assert_eq!(handle.metadata(), None);
    handle.paint(Vector2::new(1, 2), &mut PaintContext {});
    assert_eq!(handle.metadata(), None);
}

#[test]
fn empty_element_fills_the_constraint_and_ignores_events() {
    let mut handle = ElementBox::boxed(Empty {});
    let size = handle.layout(constraint(80, 60), &mut LayoutContext {});
    assert_eq!(size, Vector2::new(80, 60));
    handle.after_layout(&mut AfterLayoutContext {});
    handle.paint(Vector2::new(0, 0), &mut PaintContext {});
    let event = Event::Pointer {
        position: Vector2::new(5, 5),
    };
    assert!(!handle.dispatch_event(&event, &mut EventContext {}));
    let key = Event::Key { code: 13 };
    assert!(!handle.dispatch_event(&key, &mut EventContext {}));
}
