//! A directional-pad widget: a concrete node type that embeds a `ViewBase`
//! and delegates the view capability to it.
use crate::view::{is_default_view, ViewBase, Viewable};
use vstd::prelude::*;

verus! {

/// A directional pad. Its behavior beyond the common view bookkeeping lives
/// here; the embedded base carries all positional and touch state.
#[derive(Debug)]
pub struct DPadView {
    pub base: ViewBase,
}

impl DPadView {
    /// A fresh directional pad with a default base.
    pub fn new() -> (r: DPadView)
        ensures
            is_default_view(r.base),
    {
        DPadView { base: ViewBase::new() }
    }
}

impl Viewable for DPadView {
    open spec fn base(&self) -> ViewBase {
        self.base
    }

    fn new_view() -> (r: DPadView) {
        DPadView::new()
    }

    fn view(&self) -> (r: &ViewBase) {
        &self.base
    }

    fn view_mut(&mut self) -> (r: &mut ViewBase) {
        &mut self.base
    }
}

} // verus!
