use viewkit::geometry::{Point, Rect};
use viewkit::input::{ButtonState, Touch, TouchEvent};
use viewkit::view::ViewBase;

fn began_at(x: i32, y: i32) -> Touch {
    Touch { id: 1, position: Point { x, y }, event: TouchEvent::Began }
}

#[test]
fn from_state_maps_press_and_release() {
    assert_eq!(TouchEvent::from_state(ButtonState::Pressed), TouchEvent::Began);
    assert_eq!(TouchEvent::from_state(ButtonState::Released), TouchEvent::Ended);
}

#[test]
fn only_the_enabled_great_grandchild_consumes() {
    let mut root = ViewBase::from_rect(Rect::make(0, 0, 400, 400));
    let mut a = ViewBase::from_rect(Rect::make(200, 200, 300, 300));
    let mut b = ViewBase::from_rect(Rect::make(20, 20, 100, 100));
    let mut c = ViewBase::from_rect(Rect::make(10, 10, 20, 20));
    c.enable_touch();
    c.on_touch.subscribe(7);
    b.add_subview(c);
    a.add_subview(b);
    root.add_subview(a);
    root.calculate_absolute_frame(&Rect::make(0, 0, 400, 400));

    let mut touch = began_at(235, 235);
    let (consumed, deliveries) = root.check_touch(&mut touch);
    assert!(consumed);
    // the position delivered is local to the consuming node
    assert_eq!(touch.position, Point { x: 5, y: 5 });
    assert_eq!(deliveries.len(), 1);
    assert_eq!(deliveries[0].subscriber, 7);
    assert_eq!(deliveries[0].value.position, Point { x: 5, y: 5 });
    assert_eq!(deliveries[0].value.id, 1);
    assert_eq!(deliveries[0].value.event, TouchEvent::Began);
}

#[test]
fn touch_outside_every_frame_is_not_consumed_and_notifies_nobody() {
    let mut root = ViewBase::from_rect(Rect::make(0, 0, 100, 100));
    root.enable_touch();
    root.on_touch.subscribe(1);
    let mut child = ViewBase::from_rect(Rect::make(10, 10, 20, 20));
    child.enable_touch();
    child.on_touch.subscribe(2);
    root.add_subview(child);
    root.calculate_absolute_frame(&Rect::make(0, 0, 100, 100));

    let mut touch = began_at(500, 500);
    let (consumed, deliveries) = root.check_touch(&mut touch);
    assert!(!consumed);
    assert!(deliveries.is_empty());
    // the touch position is left as it was
    assert_eq!(touch.position, Point { x: 500, y: 500 });
}

#[test]
fn touch_enabled_ancestor_intercepts_before_its_descendant() {
    let mut parent = ViewBase::from_rect(Rect::make(0, 0, 100, 100));
    parent.enable_touch();
    parent.on_touch.subscribe(10);
    let mut child = ViewBase::from_rect(Rect::make(10, 10, 20, 20));
    child.enable_touch();
    child.on_touch.subscribe(20);
    parent.add_subview(child);
    parent.calculate_absolute_frame(&Rect::make(0, 0, 100, 100));

    // both contain (15, 15); the parent wins, the child is never notified
    let mut touch = began_at(15, 15);
    let (consumed, deliveries) = parent.check_touch(&mut touch);
    assert!(consumed);
    assert_eq!(deliveries.len(), 1);
    assert_eq!(deliveries[0].subscriber, 10);
    // position is local to the parent, not the child
    assert_eq!(touch.position, Point { x: 15, y: 15 });
}

#[test]
fn disabled_node_passes_the_touch_to_subviews_in_order() {
    let mut parent = ViewBase::from_rect(Rect::make(0, 0, 100, 100));
    parent.on_touch.subscribe(1);
    let mut first = ViewBase::from_rect(Rect::make(0, 0, 50, 50));
    first.enable_touch();
    first.on_touch.subscribe(2);
    let mut second = ViewBase::from_rect(Rect::make(0, 0, 50, 50));
    second.enable_touch();
    second.on_touch.subscribe(3);
    parent.add_subview(first);
    parent.add_subview(second);
    parent.calculate_absolute_frame(&Rect::make(0, 0, 100, 100));

    // both children contain (5, 5); the earlier subview wins
    let mut touch = began_at(5, 5);
    let (consumed, deliveries) = parent.check_touch(&mut touch);
    assert!(consumed);
    assert_eq!(deliveries.len(), 1);
    assert_eq!(deliveries[0].subscriber, 2);
}

#[test]
fn delivered_position_is_absolute_minus_consumer_origin() {
    let mut root = ViewBase::from_rect(Rect::make(40, 50, 200, 200));
    let mut inner = ViewBase::from_rect(Rect::make(7, 8, 100, 100));
    inner.enable_touch();
    inner.on_touch.subscribe(5);
    root.add_subview(inner);
    root.calculate_absolute_frame(&Rect::make(0, 0, 400, 400));
    // inner's absolute origin is (47, 58)
    let mut touch = began_at(60, 70);
    let (consumed, deliveries) = root.check_touch(&mut touch);
    assert!(consumed);
    assert_eq!(deliveries[0].value.position, Point { x: 13, y: 12 });
}

#[test]
fn consuming_node_with_no_subscribers_still_consumes() {
    let mut v = ViewBase::from_rect(Rect::make(0, 0, 10, 10));
    v.enable_touch();
    v.calculate_absolute_frame(&Rect::make(0, 0, 10, 10));
    let mut touch = began_at(3, 3);
    let (consumed, deliveries) = v.check_touch(&mut touch);
    assert!(consumed);
    assert!(deliveries.is_empty());
}
