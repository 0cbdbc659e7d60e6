//! The view tree: node state, composition, absolute-frame propagation and
//! touch dispatch.
//!
//! A node owns its subviews outright: the `subviews` vector is the one
//! strong owner of each child, so no child is reachable from two parents and
//! removing a subtree destroys it. Subview order is append-only and is both
//! paint order and hit-test priority.
use crate::events::{Delivery, Event};
use crate::geometry::{Color, Point, Rect, Size};
use crate::input::Touch;
use vstd::prelude::*;

verus! {

/// The closed set of node kinds this toolkit draws.
#[derive(Clone, Copy, Debug, PartialEq, Eq, Structural)]
pub enum ViewType {
    Plain,
    Image,
}

/// The state every node carries. `frame` is in the parent's coordinate
/// space; `absolute_frame` is in screen coordinates and is derived: only the
/// propagation pass writes it, and it is valid only until the next tree or
/// frame mutation.
#[derive(Debug)]
pub struct ViewBase {
    pub color: Color,
    pub touch_enabled: bool,
    pub frame: Rect,
    pub absolute_frame: Rect,
    pub subviews: Vec<ViewBase>,
    pub on_touch: Event<Touch>,
}

/// Whether `v` is a fresh default node: default color, touch disabled, zero
/// frames, no subviews, no subscribers.
pub open spec fn is_default_view(v: ViewBase) -> bool {
    &&& v.color == Color::Default
    &&& !v.touch_enabled
    &&& v.frame == (Rect {
        origin: Point { x: 0, y: 0 },
        size: Size { width: 0, height: 0 },
    })
    &&& v.absolute_frame == v.frame
    &&& v.subviews@ == Seq::<ViewBase>::empty()
    &&& v.on_touch.subscribers@ == Seq::<u64>::empty()
}

/// Whether every accumulated translation under `v`, starting from the
/// super-origin `(ox, oy)`, stays within machine integer range. This is the
/// one machine-limit obligation of the propagation pass.
pub open spec fn translations_fit(v: ViewBase, ox: int, oy: int) -> bool
    decreases v, 0int,
{
    &&& i32::MIN <= ox + v.frame.origin.x <= i32::MAX
    &&& i32::MIN <= oy + v.frame.origin.y <= i32::MAX
    &&& forall|i: int|
        0 <= i < v.subviews@.len() ==> translations_fit(
            #[trigger] v.subviews@[i],
            ox + v.frame.origin.x,
            oy + v.frame.origin.y,
        )
}

/// Whether the whole subtree at `v` carries the absolute frames that one
/// propagation pass against a super-frame with origin `(ox, oy)` derives:
/// each node's absolute origin is its local origin translated by its
/// parent's absolute origin, its absolute size is its local size, and its
/// subviews are laid out against its own absolute frame.
pub open spec fn laid_out(v: ViewBase, ox: int, oy: int) -> bool
    decreases v, 0int,
{
    &&& v.absolute_frame.origin.x == ox + v.frame.origin.x
    &&& v.absolute_frame.origin.y == oy + v.frame.origin.y
    &&& v.absolute_frame.size == v.frame.size
    &&& forall|i: int|
        0 <= i < v.subviews@.len() ==> laid_out(
            #[trigger] v.subviews@[i],
            ox + v.frame.origin.x,
            oy + v.frame.origin.y,
        )
}

/// Whether `b` is `a` with, at most, absolute frames rewritten: all other
/// state, the tree structure included, agrees node for node.
pub open spec fn same_but_absolute(a: ViewBase, b: ViewBase) -> bool
    decreases a, 0int,
{
    &&& b.color == a.color
    &&& b.touch_enabled == a.touch_enabled
    &&& b.frame == a.frame
    &&& b.on_touch.subscribers@ == a.on_touch.subscribers@
    &&& b.subviews@.len() == a.subviews@.len()
    &&& forall|i: int|
        0 <= i < a.subviews@.len() ==> same_but_absolute(
            #[trigger] a.subviews@[i],
            b.subviews@[i],
        )
}

/// Whether `a` and `b` agree on everything but their subview sequences.
pub open spec fn same_except_subviews(a: ViewBase, b: ViewBase) -> bool {
    &&& b.color == a.color
    &&& b.touch_enabled == a.touch_enabled
    &&& b.frame == a.frame
    &&& b.absolute_frame == a.absolute_frame
    &&& b.on_touch.subscribers@ == a.on_touch.subscribers@
}

/// Whether the node itself takes this touch: it is touch-enabled and its
/// absolute frame contains the position.
pub open spec fn hits(v: ViewBase, p: Point) -> bool {
    v.touch_enabled && v.absolute_frame.contains_spec(p)
}

/// Whether dispatch into the subtree at `v` consumes a touch at `p`: the
/// node itself hits, or some subview's subtree consumes.
pub open spec fn consumes(v: ViewBase, p: Point) -> bool
    decreases v, 1int, 0int,
{
    hits(v, p) || list_consumes(v.subviews@, 0, p)
}

/// Whether some subtree in `s[from..]` consumes a touch at `p`.
pub open spec fn list_consumes(s: Seq<ViewBase>, from: int, p: Point) -> bool
    decreases s, 0int, s.len() - from,
{
    if 0 <= from < s.len() {
        consumes(s[from], p) || list_consumes(s, from + 1, p)
    } else {
        false
    }
}

/// The node that consumes a touch at `p` under `v`: the first hit of the
/// pre-order walk that tries a node before its subviews and subviews in
/// insertion order. Meaningful only when `consumes(v, p)` holds.
pub open spec fn consumer(v: ViewBase, p: Point) -> ViewBase
    decreases v, 1int, 0int,
{
    if hits(v, p) {
        v
    } else {
        list_consumer(v.subviews@, 0, p)
    }
}

/// The consuming node of the first subtree in `s[from..]` that consumes a
/// touch at `p`. Meaningful only when such a subtree exists.
pub open spec fn list_consumer(s: Seq<ViewBase>, from: int, p: Point) -> ViewBase
    decreases s, 0int, s.len() - from,
{
    if 0 <= from < s.len() {
        if consumes(s[from], p) {
            consumer(s[from], p)
        } else {
            list_consumer(s, from + 1, p)
        }
    } else {
        arbitrary()
    }
}

/// The node reached from `v` by taking, at each step, the subview whose
/// index is the next entry of `path`. The empty path names `v` itself.
pub open spec fn node_at(v: ViewBase, path: Seq<int>) -> ViewBase
    decreases path.len(),
{
    if path.len() == 0 {
        v
    } else {
        node_at(v.subviews@[path[0]], path.drop_first())
    }
}

/// Whether every entry of `path` indexes an existing subview on the way
/// down from `v`.
pub open spec fn valid_path(v: ViewBase, path: Seq<int>) -> bool
    decreases path.len(),
{
    path.len() == 0 || (0 <= path[0] < v.subviews@.len() && valid_path(
        v.subviews@[path[0]],
        path.drop_first(),
    ))
}

/// The sum of the local x origins of every node on `path` from `v` down,
/// `v` itself included.
pub open spec fn path_offset_x(v: ViewBase, path: Seq<int>) -> int
    decreases path.len(),
{
    if path.len() == 0 {
        v.frame.origin.x as int
    } else {
        v.frame.origin.x + path_offset_x(v.subviews@[path[0]], path.drop_first())
    }
}

/// The sum of the local y origins of every node on `path` from `v` down,
/// `v` itself included.
pub open spec fn path_offset_y(v: ViewBase, path: Seq<int>) -> int
    decreases path.len(),
{
    if path.len() == 0 {
        v.frame.origin.y as int
    } else {
        v.frame.origin.y + path_offset_y(v.subviews@[path[0]], path.drop_first())
    }
}

/// Whether the touch position lies outside the absolute frame of every node
/// in the subtree at `v`.
pub open spec fn outside_all(v: ViewBase, p: Point) -> bool
    decreases v, 0int,
{
    &&& !v.absolute_frame.contains_spec(p)
    &&& forall|i: int| 0 <= i < v.subviews@.len() ==> outside_all(#[trigger] v.subviews@[i], p)
}

/// After one propagation pass against a super-origin `(ox, oy)`, a root's
/// absolute origin is its local origin translated by the super-origin, and
/// its absolute size is its local size.
pub proof fn lemma_root_translation(v: ViewBase, ox: int, oy: int)
    requires
        laid_out(v, ox, oy),
    ensures
        v.absolute_frame.origin.x == ox + v.frame.origin.x,
        v.absolute_frame.origin.y == oy + v.frame.origin.y,
        v.absolute_frame.size == v.frame.size,
{
}

/// Translation composes additively down the tree: after one propagation
/// pass against a super-origin `(ox, oy)`, the node at any valid path has
/// as its absolute origin the super-origin plus the sum of the local
/// origins along the path, and keeps its own local size.
pub proof fn lemma_translation_composes(v: ViewBase, ox: int, oy: int, path: Seq<int>)
    requires
        laid_out(v, ox, oy),
        valid_path(v, path),
    ensures
        node_at(v, path).absolute_frame.origin.x == ox + path_offset_x(v, path),
        node_at(v, path).absolute_frame.origin.y == oy + path_offset_y(v, path),
        node_at(v, path).absolute_frame.size == node_at(v, path).frame.size,
    decreases path.len(),
{
    if path.len() > 0 {
        let child = v.subviews@[path[0]];
        assert(laid_out(child, ox + v.frame.origin.x, oy + v.frame.origin.y));
        lemma_translation_composes(
            child,
            ox + v.frame.origin.x,
            oy + v.frame.origin.y,
            path.drop_first(),
        );
    }
}

/// A touch at a point outside every node's absolute frame is not consumed
/// anywhere in the tree, so no subscriber is notified.
pub proof fn lemma_outside_not_consumed(v: ViewBase, p: Point)
    requires
        outside_all(v, p),
    ensures
        !consumes(v, p),
    decreases v, 1int, 0int,
{
    lemma_outside_list_not_consumed(v.subviews@, 0, p);
}

/// No subtree in `s[from..]` consumes a touch whose position lies outside
/// every node's absolute frame.
proof fn lemma_outside_list_not_consumed(s: Seq<ViewBase>, from: int, p: Point)
    requires
        forall|i: int| 0 <= i < s.len() ==> outside_all(#[trigger] s[i], p),
    ensures
        !list_consumes(s, from, p),
    decreases s, 0int, s.len() - from,
{
    if 0 <= from < s.len() {
        lemma_outside_not_consumed(s[from], p);
        lemma_outside_list_not_consumed(s, from + 1, p);
    }
}

/// Ancestor precedence: a touch-enabled node whose absolute frame contains
/// the touch point consumes the touch itself, before any of its descendants
/// is tried, even when a descendant also covers the point. Only the
/// consuming node's subscribers are notified.
pub proof fn lemma_ancestor_precedence(v: ViewBase, p: Point)
    requires
        hits(v, p),
    ensures
        consumes(v, p),
        consumer(v, p) == v,
{
}

impl ViewBase {
    /// A fresh default node.
    pub fn new() -> (r: ViewBase)
        ensures
            is_default_view(r),
    {
        ViewBase {
            color: Color::Default,
            touch_enabled: false,
            frame: Rect::new(),
            absolute_frame: Rect::new(),
            subviews: Vec::new(),
            on_touch: Event::new(),
        }
    }

    /// Attach-time hook. The default node does nothing here; a concrete
    /// widget type runs its own attach behavior around its embedded base.
    pub fn setup(&mut self)
        ensures
            *final(self) == *old(self),
    {
    }

    /// Per-frame hook. The default node has no per-frame behavior.
    pub fn update(&mut self)
        ensures
            *final(self) == *old(self),
    {
    }

    /// Layout hook, called with the super-frame after this node's absolute
    /// frame is computed and before its subviews are visited. The default
    /// node does not reposition anything.
    pub fn layout(&mut self, _super_frame: &Rect)
        ensures
            *final(self) == *old(self),
    {
    }

    /// Appends `view` to the subview sequence, taking ownership, then runs
    /// the attached node's `setup` hook. Registration precedes the hook, so
    /// setup-time mutations are visible to later passes.
    pub fn add_subview(&mut self, view: ViewBase)
        ensures
            final(self).subviews@ == old(self).subviews@.push(view),
            same_except_subviews(*old(self), *final(self)),
    {
        self.subviews.push(view);
        let last: usize = self.subviews.len() - 1;
        self.subviews[last].setup();
        proof {
            assert(self.subviews@ =~= old(self).subviews@.push(view));
        }
    }

    /// Clears the subview sequence. The parent was the one strong owner of
    /// each removed child, so the removed subtrees are destroyed.
    pub fn remove_all_subviews(&mut self)
        ensures
            final(self).subviews@ == Seq::<ViewBase>::empty(),
            same_except_subviews(*old(self), *final(self)),
    {
        self.subviews.clear();
    }

    /// Constructs a fresh default node, hands it to `builder` to be
    /// configured, then attaches the built node as the last subview. A
    /// convenience for building static hierarchies declaratively.
    pub fn make_subview<F: FnOnce(ViewBase) -> ViewBase>(&mut self, builder: F)
        requires
            forall|v: ViewBase| is_default_view(v) ==> builder.requires((v,)),
        ensures
            final(self).subviews@.len() == old(self).subviews@.len() + 1,
            final(self).subviews@.subrange(0, old(self).subviews@.len() as int) == old(
                self,
            ).subviews@,
            exists|v: ViewBase|
                is_default_view(v) && #[trigger] builder.ensures(
                    (v,),
                    final(self).subviews@.last(),
                ),
            same_except_subviews(*old(self), *final(self)),
    {
        let child = ViewBase::new();
        let ghost fresh = child;
        let built = builder(child);
        let ghost built0 = built;
        self.add_subview(built);
        proof {
            assert(self.subviews@.subrange(0, old(self).subviews@.len() as int) =~= old(
                self,
            ).subviews@);
            assert(self.subviews@.last() == built0);
            assert(is_default_view(fresh) && builder.ensures((fresh,), self.subviews@.last()));
        }
    }

    /// Marks the node as taking part in touch dispatch.
    pub fn enable_touch(&mut self)
        ensures
            *final(self) == (ViewBase { touch_enabled: true, ..*old(self) }),
    {
        self.touch_enabled = true;
    }

    /// Replaces the local frame. The absolute frame is stale until the next
    /// propagation pass.
    pub fn set_frame(&mut self, rect: Rect)
        ensures
            *final(self) == (ViewBase { frame: rect, ..*old(self) }),
    {
        self.frame = rect;
    }

    /// Replaces the fill color.
    pub fn set_color(&mut self, color: Color)
        ensures
            *final(self) == (ViewBase { color, ..*old(self) }),
    {
        self.color = color;
    }

    /// A default node with the given local frame.
    pub fn from_rect(rect: Rect) -> (r: ViewBase)
        ensures
            r.frame == rect,
            r.color == Color::Default,
            !r.touch_enabled,
            r.absolute_frame == (Rect {
                origin: Point { x: 0, y: 0 },
                size: Size { width: 0, height: 0 },
            }),
            r.subviews@ == Seq::<ViewBase>::empty(),
            r.on_touch.subscribers@ == Seq::<u64>::empty(),
    {
        let mut new = ViewBase::new();
        new.set_frame(rect);
        new
    }

    /// Derives absolute frames for the whole subtree: this node's absolute
    /// frame is its local frame with the origin translated by the
    /// super-frame's origin, the `layout` hook runs against the super-frame,
    /// and each subview, in order, is laid out against this node's freshly
    /// computed absolute frame. A full pre-order pass with no memoization;
    /// the driver invokes it at the root after any geometry-affecting
    /// change.
    pub fn calculate_absolute_frame(&mut self, super_frame: &Rect)
        requires
            translations_fit(
                *old(self),
                super_frame.origin.x as int,
                super_frame.origin.y as int,
            ),
        ensures
            laid_out(*final(self), super_frame.origin.x as int, super_frame.origin.y as int),
            same_but_absolute(*old(self), *final(self)),
    {
        let mut owned = ViewBase::new();
        core::mem::swap(self, &mut owned);
        let done = layout_subtree(owned, super_frame);
        *self = done;
    }

    /// Routes a touch through the subtree, top-down. If this node is
    /// touch-enabled and its absolute frame contains the touch position, the
    /// position is translated in place into this node's local space, this
    /// node's subscribers are notified, and the touch is consumed without
    /// trying the subviews: a touch-enabled ancestor intercepts a touch
    /// before any of its descendants. Otherwise each subview is tried in
    /// insertion order and the first consumer wins. Returns whether the
    /// touch was consumed, and the notifications it produced.
    pub fn check_touch(&self, touch: &mut Touch) -> (r: (bool, Vec<Delivery<Touch>>))
        ensures
            r.0 == consumes(*self, old(touch).position),
            !r.0 ==> *final(touch) == *old(touch) && r.1@.len() == 0,
            r.0 ==> ({
                let c = consumer(*self, old(touch).position);
                &&& final(touch).id == old(touch).id
                &&& final(touch).event == old(touch).event
                &&& final(touch).position.x == old(touch).position.x - c.absolute_frame.origin.x
                &&& final(touch).position.y == old(touch).position.y - c.absolute_frame.origin.y
                &&& r.1@.len() == c.on_touch.subscribers@.len()
                &&& forall|i: int|
                    0 <= i < r.1@.len() ==> #[trigger] r.1@[i] == (Delivery {
                        subscriber: c.on_touch.subscribers@[i],
                        value: *final(touch),
                    })
            }),
        decreases *self, 1int, 0int,
    {
        if self.touch_enabled && self.absolute_frame.contains(&touch.position) {
            touch.position.move_back(self.absolute_frame.origin);
            let deliveries = self.handle_touch(touch);
            (true, deliveries)
        } else {
            proof {
                assert(decreases_to!(*self => self.subviews));
                assert(decreases_to!(self.subviews => self.subviews@));
            }
            check_touch_list(&self.subviews, 0, touch)
        }
    }

    /// Whether one propagation pass against `super_frame` stays within
    /// machine integer range everywhere in the subtree. A driver calls this
    /// before `calculate_absolute_frame` when it cannot bound its
    /// coordinates itself.
    pub fn translation_fits(&self, super_frame: &Rect) -> (r: bool)
        ensures
            r == translations_fit(
                *self,
                super_frame.origin.x as int,
                super_frame.origin.y as int,
            ),
    {
        fits_subtree(self, super_frame.origin.x as i64, super_frame.origin.y as i64)
    }

    /// Notifies this node's touch subscribers, in order, of `touch`.
    pub fn handle_touch(&self, touch: &Touch) -> (r: Vec<Delivery<Touch>>)
        ensures
            r@.len() == self.on_touch.subscribers@.len(),
            forall|i: int|
                0 <= i < r@.len() ==> #[trigger] r@[i] == (Delivery {
                    subscriber: self.on_touch.subscribers@[i],
                    value: *touch,
                }),
    {
        self.on_touch.trigger(touch)
    }
}

/// The capability every concrete node type supplies by embedding a
/// `ViewBase` and delegating to it: positional, ownership and touch
/// bookkeeping live in the base, while a node's identity and specialized
/// behavior live in the concrete type. The `setup`, `update` and `layout`
/// hooks default to doing nothing to the base; a concrete type may override
/// them for behavior of its own. A type that makes `layout` reposition its
/// base must supply its own propagation pass as well: the default one runs
/// the base's no-op hook.
pub trait Viewable: Sized {
    /// The embedded base state, as contracts see it.
    spec fn base(&self) -> ViewBase;

    /// A fresh default node of this concrete type.
    fn new_view() -> (r: Self)
        ensures
            is_default_view(r.base()),
    ;

    /// Shared access to the embedded base.
    fn view(&self) -> (r: &ViewBase)
        ensures
            *r == self.base(),
    ;

    /// Exclusive access to the embedded base.
    fn view_mut(&mut self) -> (r: &mut ViewBase)
        ensures
            *r == old(self).base(),
            final(self).base() == *final(r),
    ;

    /// Attach-time hook, run when the node joins a parent.
    fn setup(&mut self)
        ensures
            final(self).base() == old(self).base(),
    {
    }

    /// Per-frame hook.
    fn update(&mut self)
        ensures
            final(self).base() == old(self).base(),
    {
    }

    /// Layout hook, run with the super-frame once this node's absolute
    /// frame is computed.
    fn layout(&mut self, _super_frame: &Rect)
        ensures
            final(self).base() == old(self).base(),
    {
    }

    /// The fill color.
    fn color(&self) -> (r: &Color)
        ensures
            *r == self.base().color,
    {
        &self.view().color
    }

    /// Replaces the fill color.
    fn set_color(&mut self, color: Color)
        ensures
            final(self).base() == (ViewBase { color, ..old(self).base() }),
    {
        self.view_mut().set_color(color);
    }

    /// The local frame, in the parent's coordinate space.
    fn frame(&self) -> (r: &Rect)
        ensures
            *r == self.base().frame,
    {
        &self.view().frame
    }

    /// Exclusive access to the local frame.
    fn frame_mut(&mut self) -> (r: &mut Rect)
        ensures
            *r == old(self).base().frame,
            final(self).base() == (ViewBase { frame: *final(r), ..old(self).base() }),
    {
        &mut self.view_mut().frame
    }

    /// Replaces the local frame.
    fn set_frame(&mut self, rect: Rect)
        ensures
            final(self).base() == (ViewBase { frame: rect, ..old(self).base() }),
    {
        self.view_mut().set_frame(rect);
    }

    /// The derived screen-space frame; valid only after the most recent
    /// propagation pass from the root.
    fn absolute_frame(&self) -> (r: &Rect)
        ensures
            *r == self.base().absolute_frame,
    {
        &self.view().absolute_frame
    }

    /// Appends `view` as the last subview and runs its attach hook.
    fn add_subview(&mut self, view: ViewBase)
        ensures
            final(self).base().subviews@ == old(self).base().subviews@.push(view),
            same_except_subviews(old(self).base(), final(self).base()),
    {
        self.view_mut().add_subview(view);
    }

    /// Clears the subview sequence, destroying the removed subtrees.
    fn remove_all_subviews(&mut self)
        ensures
            final(self).base().subviews@ == Seq::<ViewBase>::empty(),
            same_except_subviews(old(self).base(), final(self).base()),
    {
        self.view_mut().remove_all_subviews();
    }

    /// The direct children, in insertion order.
    fn subviews(&self) -> (r: &Vec<ViewBase>)
        ensures
            r@ == self.base().subviews@,
    {
        &self.view().subviews
    }

    /// Exclusive access to the direct children.
    fn subviews_mut(&mut self) -> (r: &mut Vec<ViewBase>)
        ensures
            r@ == old(self).base().subviews@,
            final(self).base() == (ViewBase { subviews: *final(r), ..old(self).base() }),
    {
        &mut self.view_mut().subviews
    }

    /// Marks the node as taking part in touch dispatch.
    fn enable_touch(&mut self)
        ensures
            final(self).base() == (ViewBase { touch_enabled: true, ..old(self).base() }),
    {
        self.view_mut().enable_touch();
    }

    /// Whether the node takes part in touch dispatch.
    fn touch_enabled(&self) -> (r: bool)
        ensures
            r == self.base().touch_enabled,
    {
        self.view().touch_enabled
    }

    /// Exclusive access to the touch-consumption callback list.
    fn on_touch(&mut self) -> (r: &mut Event<Touch>)
        ensures
            *r == old(self).base().on_touch,
            final(self).base() == (ViewBase { on_touch: *final(r), ..old(self).base() }),
    {
        &mut self.view_mut().on_touch
    }

    /// Notifies this node's touch subscribers, in order, of `touch`.
    fn handle_touch(&self, touch: &Touch) -> (r: Vec<Delivery<Touch>>)
        ensures
            r@.len() == self.base().on_touch.subscribers@.len(),
            forall|i: int|
                0 <= i < r@.len() ==> #[trigger] r@[i] == (Delivery {
                    subscriber: self.base().on_touch.subscribers@[i],
                    value: *touch,
                }),
    {
        self.view().handle_touch(touch)
    }

    /// A default node of this type with the given local frame.
    fn from_rect(rect: Rect) -> (r: Self)
        ensures
            r.base().frame == rect,
            r.base().color == Color::Default,
            !r.base().touch_enabled,
            r.base().subviews@ == Seq::<ViewBase>::empty(),
            r.base().on_touch.subscribers@ == Seq::<u64>::empty(),
    {
        let mut new = Self::new_view();
        new.set_frame(rect);
        new
    }

    /// Derives absolute frames for the subtree under this node's base. The
    /// default pass runs the base's no-op layout hook at every node.
    fn calculate_absolute_frame(&mut self, super_frame: &Rect)
        requires
            translations_fit(
                old(self).base(),
                super_frame.origin.x as int,
                super_frame.origin.y as int,
            ),
        ensures
            laid_out(
                final(self).base(),
                super_frame.origin.x as int,
                super_frame.origin.y as int,
            ),
            same_but_absolute(old(self).base(), final(self).base()),
    {
        self.view_mut().calculate_absolute_frame(super_frame);
    }

    /// Routes a touch through the subtree under this node's base, top-down,
    /// ancestors before descendants.
    fn check_touch(&self, touch: &mut Touch) -> (r: (bool, Vec<Delivery<Touch>>))
        ensures
            r.0 == consumes(self.base(), old(touch).position),
            !r.0 ==> *final(touch) == *old(touch) && r.1@.len() == 0,
            r.0 ==> ({
                let c = consumer(self.base(), old(touch).position);
                &&& final(touch).id == old(touch).id
                &&& final(touch).event == old(touch).event
                &&& final(touch).position.x == old(touch).position.x - c.absolute_frame.origin.x
                &&& final(touch).position.y == old(touch).position.y - c.absolute_frame.origin.y
                &&& r.1@.len() == c.on_touch.subscribers@.len()
                &&& forall|i: int|
                    0 <= i < r.1@.len() ==> #[trigger] r.1@[i] == (Delivery {
                        subscriber: c.on_touch.subscribers@[i],
                        value: *final(touch),
                    })
            }),
    {
        self.view().check_touch(touch)
    }
}

impl Viewable for ViewBase {
    open spec fn base(&self) -> ViewBase {
        *self
    }

    fn new_view() -> (r: ViewBase) {
        ViewBase::new()
    }

    fn view(&self) -> (r: &ViewBase) {
        self
    }

    fn view_mut(&mut self) -> (r: &mut ViewBase) {
        self
    }
}

/// One node of the propagation pass: writes the node's absolute frame, runs
/// its layout hook, then visits its subviews against that absolute frame.
fn layout_subtree(v: ViewBase, super_frame: &Rect) -> (r: ViewBase)
    requires
        translations_fit(v, super_frame.origin.x as int, super_frame.origin.y as int),
    ensures
        laid_out(r, super_frame.origin.x as int, super_frame.origin.y as int),
        same_but_absolute(v, r),
    decreases v, 1int,
{
    let ghost v0 = v;
    let mut v = v;
    let ax: i32 = v.frame.origin.x + super_frame.origin.x;
    let ay: i32 = v.frame.origin.y + super_frame.origin.y;
    v.absolute_frame = Rect { origin: Point { x: ax, y: ay }, size: v.frame.size };
    v.layout(super_frame);
    let mut subs: Vec<ViewBase> = Vec::new();
    core::mem::swap(&mut v.subviews, &mut subs);
    proof {
        assert(subs@ == v0.subviews@);
        assert(decreases_to!(v0 => v0.subviews));
        assert(decreases_to!(v0.subviews => v0.subviews@));
    }
    let done = layout_children(subs, &v.absolute_frame);
    v.subviews = done;
    v
}

/// Lays out each subtree in `vs`, in order, against the super-frame `sup`:
/// the freshly computed absolute frame of the parent.
fn layout_children(vs: Vec<ViewBase>, sup: &Rect) -> (r: Vec<ViewBase>)
    requires
        forall|i: int|
            0 <= i < vs@.len() ==> translations_fit(
                #[trigger] vs@[i],
                sup.origin.x as int,
                sup.origin.y as int,
            ),
    ensures
        r@.len() == vs@.len(),
        forall|i: int|
            0 <= i < r@.len() ==> laid_out(
                #[trigger] r@[i],
                sup.origin.x as int,
                sup.origin.y as int,
            ) && same_but_absolute(vs@[i], r@[i]),
    decreases vs@, 0int,
{
    let ghost vs0 = vs@;
    if vs.len() == 0 {
        vs
    } else {
        let mut vs = vs;
        let first = vs.remove(0);
        proof {
            assert(first == vs0[0]);
            assert(vs@ =~= vs0.subrange(1, vs0.len() as int));
            assert(decreases_to!(vs0 => vs0[0]));
            assert(decreases_to!(vs0 => vs0.subrange(1, vs0.len() as int)));
        }
        let first_done = layout_subtree(first, sup);
        let rest_done = layout_children(vs, sup);
        let mut out = rest_done;
        out.insert(0, first_done);
        proof {
            assert(forall|i: int|
                1 <= i < out@.len() ==> out@[i] == rest_done@[i - 1]);
        }
        out
    }
}

/// Whether every accumulated translation under `v`, starting from the
/// already-in-range origin `(ox, oy)`, stays within machine integer range.
fn fits_subtree(v: &ViewBase, ox: i64, oy: i64) -> (r: bool)
    requires
        i32::MIN <= ox <= i32::MAX,
        i32::MIN <= oy <= i32::MAX,
    ensures
        r == translations_fit(*v, ox as int, oy as int),
    decreases *v, 1int, 0int,
{
    let sx: i64 = ox + v.frame.origin.x as i64;
    let sy: i64 = oy + v.frame.origin.y as i64;
    if sx < i32::MIN as i64 || sx > i32::MAX as i64 || sy < i32::MIN as i64 || sy
        > i32::MAX as i64 {
        return false;
    }
    proof {
        assert(decreases_to!(*v => v.subviews));
        assert(decreases_to!(v.subviews => v.subviews@));
    }
    fits_list(&v.subviews, 0, sx, sy)
}

/// Whether every subtree in `subs[from..]` keeps its translations in range
/// against the origin `(ox, oy)`.
fn fits_list(subs: &Vec<ViewBase>, from: usize, ox: i64, oy: i64) -> (r: bool)
    requires
        from <= subs@.len(),
        i32::MIN <= ox <= i32::MAX,
        i32::MIN <= oy <= i32::MAX,
    ensures
        r == forall|i: int|
            from <= i < subs@.len() ==> translations_fit(
                #[trigger] subs@[i],
                ox as int,
                oy as int,
            ),
    decreases subs@, 0int, subs@.len() - from,
{
    if from < subs.len() {
        if !fits_subtree(&subs[from], ox, oy) {
            return false;
        }
        fits_list(subs, from + 1, ox, oy)
    } else {
        true
    }
}

/// Tries each subtree in `subs[from..]`, in order, on the touch; the first
/// one that consumes it wins and the rest are not visited.
fn check_touch_list(subs: &Vec<ViewBase>, from: usize, touch: &mut Touch) -> (r: (
    bool,
    Vec<Delivery<Touch>>,
))
    requires
        from <= subs@.len(),
    ensures
        r.0 == list_consumes(subs@, from as int, old(touch).position),
        !r.0 ==> *final(touch) == *old(touch) && r.1@.len() == 0,
        r.0 ==> ({
            let c = list_consumer(subs@, from as int, old(touch).position);
            &&& final(touch).id == old(touch).id
            &&& final(touch).event == old(touch).event
            &&& final(touch).position.x == old(touch).position.x - c.absolute_frame.origin.x
            &&& final(touch).position.y == old(touch).position.y - c.absolute_frame.origin.y
            &&& r.1@.len() == c.on_touch.subscribers@.len()
            &&& forall|i: int|
                0 <= i < r.1@.len() ==> #[trigger] r.1@[i] == (Delivery {
                    subscriber: c.on_touch.subscribers@[i],
                    value: *final(touch),
                })
        }),
    decreases subs@, 0int, subs@.len() - from,
{
    if from < subs.len() {
        let (consumed, deliveries) = subs[from].check_touch(touch);
        if consumed {
            (true, deliveries)
        } else {
            check_touch_list(subs, from + 1, touch)
        }
    } else {
        (false, Vec::new())
    }
}

} // verus!
