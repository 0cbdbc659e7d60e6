use viewkit::dpad_view::DPadView;
use viewkit::geometry::{Color, Point, Rect, Size};
use viewkit::input::{ButtonState, MouseButton};
use viewkit::screen::Screen;
use viewkit::view::Viewable;

#[test]
fn new_screen_is_empty() {
    let s = Screen::new();
    assert_eq!(s.cursor_position, Point { x: 0, y: 0 });
    assert!(s.root_view.subviews.is_empty());
    assert_eq!(s.root_view.frame, Rect::new());
}

#[test]
fn init_builds_the_demonstration_hierarchy() {
    let mut s = Screen::new();
    s.init();
    assert_eq!(s.root_view.subviews.len(), 1);
    let a = &s.root_view.subviews[0];
    assert_eq!(a.frame, Rect::make(200, 200, 300, 300));
    assert_eq!(a.color, Color::Blue);
    let b = &a.subviews[0];
    assert_eq!(b.frame, Rect::make(20, 20, 100, 100));
    assert_eq!(b.color, Color::Green);
    let c = &b.subviews[0];
    assert_eq!(c.frame, Rect::make(10, 10, 20, 20));
    assert_eq!(c.color, Color::Turquoise);
    assert!(c.touch_enabled);
    assert!(c.subviews.is_empty());
}

#[test]
fn set_size_resizes_the_root_frame_at_zero() {
    let mut s = Screen::new();
    s.set_size(Size { width: 640, height: 480 });
    assert_eq!(s.root_view.frame, Rect::make(0, 0, 640, 480));
}

#[test]
fn button_press_touches_at_the_cursor() {
    let mut s = Screen::new();
    s.init();
    s.set_size(Size { width: 400, height: 400 });
    let sup = Rect::make(0, 0, 400, 400);
    s.root_view.calculate_absolute_frame(&sup);
    // register a subscriber on the touch-enabled node
    s.root_view.subviews[0].subviews[0].subviews[0].on_touch.subscribe(3);

    s.on_cursor_moved(Point { x: 235, y: 235 });
    let (consumed, deliveries) =
        s.on_mouse_key_pressed(MouseButton::Left, ButtonState::Pressed);
    assert!(consumed);
    assert_eq!(deliveries.len(), 1);
    assert_eq!(deliveries[0].subscriber, 3);
    assert_eq!(deliveries[0].value.position, Point { x: 5, y: 5 });
    assert_eq!(deliveries[0].value.id, 1);

    // a touch somewhere empty is not consumed
    s.on_cursor_moved(Point { x: 399, y: 1 });
    let (consumed, deliveries) =
        s.on_mouse_key_pressed(MouseButton::Left, ButtonState::Released);
    assert!(!consumed);
    assert!(deliveries.is_empty());
}

#[test]
fn dpad_view_delegates_to_its_base() {
    let mut pad = DPadView::new();
    pad.set_frame(Rect::make(1, 2, 3, 4));
    pad.set_color(Color::White);
    pad.enable_touch();
    assert_eq!(*pad.frame(), Rect::make(1, 2, 3, 4));
    assert_eq!(*pad.color(), Color::White);
    assert!(pad.touch_enabled());
    assert_eq!(pad.base.frame, Rect::make(1, 2, 3, 4));

    pad.add_subview(viewkit::view::ViewBase::new());
    assert_eq!(pad.subviews().len(), 1);
    pad.remove_all_subviews();
    assert!(pad.subviews().is_empty());

    pad.calculate_absolute_frame(&Rect::make(10, 10, 100, 100));
    assert_eq!(pad.absolute_frame().origin, Point { x: 11, y: 12 });

    let pad2 = DPadView::from_rect(Rect::make(5, 5, 5, 5));
    assert_eq!(pad2.base.frame, Rect::make(5, 5, 5, 5));
}
