//! The root screen object: owns the view tree's root and the last known
//! cursor position, and turns raw input reports into touch dispatch.
//!
//! Drawing is a collaborator's concern: the renderer reads frames and colors
//! through the view accessors and this module never touches it.
use crate::events::Delivery;
use crate::geometry::{rect_of, Color, Point, Rect, Size};
use crate::input::{ButtonState, MouseButton, Touch, TouchEvent};
use crate::view::{consumer, consumes, is_default_view, same_except_subviews, ViewBase};
use vstd::prelude::*;

verus! {

/// What one dispatch of `touch` into the tree rooted at `root` yields:
/// whether it was consumed, and, when it was, one delivery per subscriber of
/// the consuming node, in subscription order, carrying the touch with its
/// position rewritten into the consuming node's local space.
pub open spec fn dispatch_outcome(
    root: ViewBase,
    touch: Touch,
    consumed: bool,
    deliveries: Seq<Delivery<Touch>>,
) -> bool {
    &&& consumed == consumes(root, touch.position)
    &&& (!consumed ==> deliveries.len() == 0)
    &&& (consumed ==> ({
        let c = consumer(root, touch.position);
        &&& deliveries.len() == c.on_touch.subscribers@.len()
        &&& forall|i: int|
            0 <= i < deliveries.len() ==> (#[trigger] deliveries[i]).subscriber
                == c.on_touch.subscribers@[i] && deliveries[i].value.id == touch.id
                && deliveries[i].value.event == touch.event && deliveries[i].value.position.x
                == touch.position.x - c.absolute_frame.origin.x && deliveries[i].value.position.y
                == touch.position.y - c.absolute_frame.origin.y
    }))
}

/// The root screen object.
#[derive(Debug)]
pub struct Screen {
    pub cursor_position: Point,
    pub root_view: ViewBase,
}

impl Screen {
    /// A screen with a default root view and the cursor at zero.
    pub fn new() -> (r: Screen)
        ensures
            r.cursor_position == (Point { x: 0, y: 0 }),
            is_default_view(r.root_view),
    {
        Screen { cursor_position: Point::new(), root_view: ViewBase::new() }
    }

    /// Builds the demonstration hierarchy under the root: a blue view, in it
    /// a green view, and in that a turquoise touch-enabled view.
    pub fn init(&mut self)
        ensures
            final(self).cursor_position == old(self).cursor_position,
            same_except_subviews(old(self).root_view, final(self).root_view),
            final(self).root_view.subviews@.len() == old(self).root_view.subviews@.len() + 1,
            final(self).root_view.subviews@.subrange(
                0,
                old(self).root_view.subviews@.len() as int,
            ) == old(self).root_view.subviews@,
            ({
                let a = final(self).root_view.subviews@.last();
                let b = a.subviews@[0];
                let c = b.subviews@[0];
                &&& a.frame == rect_of(200, 200, 300, 300)
                &&& a.color == Color::Blue
                &&& !a.touch_enabled
                &&& a.subviews@.len() == 1
                &&& b.frame == rect_of(20, 20, 100, 100)
                &&& b.color == Color::Green
                &&& !b.touch_enabled
                &&& b.subviews@.len() == 1
                &&& c.frame == rect_of(10, 10, 20, 20)
                &&& c.color == Color::Turquoise
                &&& c.touch_enabled
                &&& c.subviews@.len() == 0
            }),
    {
        let mut c = ViewBase::from_rect(Rect::make(10, 10, 20, 20));
        c.set_color(Color::Turquoise);
        c.enable_touch();
        let mut b = ViewBase::from_rect(Rect::make(20, 20, 100, 100));
        b.set_color(Color::Green);
        b.add_subview(c);
        let mut a = ViewBase::from_rect(Rect::make(200, 200, 300, 300));
        a.set_color(Color::Blue);
        a.add_subview(b);
        self.root_view.add_subview(a);
        proof {
            assert(self.root_view.subviews@.subrange(
                0,
                old(self).root_view.subviews@.len() as int,
            ) =~= old(self).root_view.subviews@);
        }
    }

    /// Resizes the root's local frame to fill the given size, origin at
    /// zero. The tree's absolute frames are stale until the next
    /// propagation pass.
    pub fn set_size(&mut self, size: Size)
        ensures
            final(self).cursor_position == old(self).cursor_position,
            final(self).root_view == (ViewBase {
                frame: Rect { origin: Point { x: 0, y: 0 }, size },
                ..old(self).root_view
            }),
    {
        self.root_view.set_frame(Rect::from_size(size));
    }

    /// Records the cursor position a later button transition will touch at.
    pub fn on_cursor_moved(&mut self, position: Point)
        ensures
            final(self).cursor_position == position,
            final(self).root_view == old(self).root_view,
    {
        self.cursor_position = position;
    }

    /// Dispatches one touch into the tree from the root.
    pub fn on_touch(&mut self, touch: Touch) -> (r: (bool, Vec<Delivery<Touch>>))
        ensures
            *final(self) == *old(self),
            dispatch_outcome(old(self).root_view, touch, r.0, r.1@),
    {
        let mut moving = touch;
        self.root_view.check_touch(&mut moving)
    }

    /// Translates a button transition at the current cursor position into a
    /// touch and dispatches it: a press begins a touch, a release ends one.
    /// Which button moved does not matter to dispatch.
    pub fn on_mouse_key_pressed(&mut self, _button: MouseButton, state: ButtonState) -> (r: (
        bool,
        Vec<Delivery<Touch>>,
    ))
        ensures
            *final(self) == *old(self),
            dispatch_outcome(
                old(self).root_view,
                Touch {
                    id: 1,
                    position: old(self).cursor_position,
                    event: if state == ButtonState::Pressed {
                        TouchEvent::Began
                    } else {
                        TouchEvent::Ended
                    },
                },
                r.0,
                r.1@,
            ),
    {
        let position = self.cursor_position;
        self.on_touch(Touch { id: 1, position, event: TouchEvent::from_state(state) })
    }
}

} // verus!
