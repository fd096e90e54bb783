//! A whole session against one bar: components in all three buckets,
//! redraw cycles, a shrink, and event routing.

use leechbar::alignment::Alignment;
use leechbar::background::Background;
use leechbar::bar::Bar;
use leechbar::color::Color;
use leechbar::event::Event;
use leechbar::foreground::Foreground;
use leechbar::geometry::Geometry;
use leechbar::render::render;
use leechbar::width::Width;

#[test]
fn three_buckets_share_one_bar() {
    let mut bar = Bar::new(
        Geometry::new(0, 0, 400, 24),
        1,
        2,
        3,
        4,
        24,
        32,
        None,
        Color::new(255, 255, 255, 255),
        0,
    );
    let bg = Background::new().color(Color::new(20, 20, 20, 255));
    let fg = Foreground::new();

    let left = bar.add(Alignment::LEFT, 101);
    let center = bar.add(Alignment::CENTER, 102);
    let right = bar.add(Alignment::RIGHT, 103);
    assert_eq!((left, center, right), (0, 1, 2));

    render(&mut bar.components, 400, 24, 0, left, &bg, &fg, Width::new().fixed(60));
    render(&mut bar.components, 400, 24, 0, center, &bg, &fg, Width::new().fixed(100));
    render(&mut bar.components, 400, 24, 0, right, &bg, &fg, Width::new().fixed(80));

    // Registry is sorted by id: left, center, right.
    assert_eq!(bar.components[0].geometry, Geometry::new(0, 0, 60, 24));
    assert_eq!(bar.components[1].geometry, Geometry::new(150, 0, 100, 24));
    assert_eq!(bar.components[2].geometry, Geometry::new(320, 0, 80, 24));

    // A click lands in the center component, relative to its left edge.
    let (idx, routed) = bar.propagate_event(Event::click(1, 0, 200, 10)).unwrap();
    assert_eq!(idx, 1);
    match routed {
        Event::ClickEvent(c) => assert_eq!(c.position.x, 49),
        Event::MotionEvent(_) => panic!("a click must stay a click"),
    }

    // The center component shrinks: the whole group re-anchors, the other
    // buckets stay put.
    let plan = render(&mut bar.components, 400, 24, 0, center, &bg, &fg, Width::new().fixed(50));
    assert_eq!(bar.components[1].geometry, Geometry::new(175, 0, 50, 24));
    assert_eq!(bar.components[0].geometry, Geometry::new(0, 0, 60, 24));
    assert_eq!(bar.components[2].geometry, Geometry::new(320, 0, 80, 24));
    // The exposed strips around the old span are restored.
    assert_eq!(plan.clears.len(), 2);
    assert_eq!(plan.clears[0].x, 150);
    assert_eq!(plan.clears[0].width, 25);
    assert_eq!(plan.clears[1].x, 200);
    assert_eq!(plan.clears[1].width, 50);

    // Redrawing the right component with unchanged content costs nothing.
    let plan = render(&mut bar.components, 400, 24, 0, right, &bg, &fg, Width::new().fixed(80));
    assert!(plan.compose.is_none());
    assert_eq!(plan.blits.len(), 0);
    assert_eq!(plan.clears.len(), 0);
}
