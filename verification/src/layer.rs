//! The bookkeeping state of a layer: the child layers it keeps alive (one per
//! id) and the render callback that its update procedure dispatches to.
use vstd::prelude::*;

use crate::callback::GlobalCallbackInner;
use crate::registry::{spec_retain, spec_swap_remove, Registry};

verus! {

/// Children and render callback of a layer.
pub struct LayerInner<L, R> {
    pub children: Registry<L>,
    pub render: GlobalCallbackInner<R>,
}

impl<L, R> LayerInner<L, R> {
    /// Child ids are unique.
    pub open spec fn wf(&self) -> bool {
        self.children.wf()
    }

    /// A layer state without children and without render callback.
    pub fn new() -> (r: Self)
        ensures
            r.wf(),
            r.children.entries@.len() == 0,
            r.render.callback is None,
    {
        LayerInner { children: Registry::new(), render: GlobalCallbackInner::new() }
    }

    /// Stops keeping the child with the id alive; nothing happens when there
    /// is no such child.
    pub fn release_child(&mut self, id: usize)
        requires
            old(self).wf(),
        ensures
            final(self).wf(),
            final(self).render == old(self).render,
            !final(self).children.contains(id),
            forall|x: usize|
                #[trigger] final(self).children.contains(x) <==> (old(self).children.contains(x) && x
                    != id),
            !old(self).children.contains(id) ==> final(self).children.entries@ == old(
                self,
            ).children.entries@,
            forall|k: int|
                0 <= k < final(self).children.entries@.len() ==> old(
                    self,
                ).children.entries@.contains(#[trigger] final(self).children.entries@[k]),
            old(self).children.contains(id) ==> exists|i: int|
                0 <= i < old(self).children.entries@.len() && #[trigger] old(
                    self,
                ).children.entries@[i].0 == id && final(self).children.entries@ == spec_swap_remove(
                    old(self).children.entries@,
                    i,
                ),
    {
        let _ = self.children.release(id);
    }

    /// Keeps a child alive under its id, unless a child with that id is
    /// already kept.
    pub fn retain_child(&mut self, id: usize, child: L)
        requires
            old(self).wf(),
        ensures
            final(self).wf(),
            final(self).render == old(self).render,
            final(self).children.entries@ == spec_retain(old(self).children.entries@, id, child),
    {
        self.children.retain(id, child);
    }
}

/// The state of a generic graphics layer.
pub struct Layer<L, R> {
    pub inner: LayerInner<L, R>,
}

impl<L, R> Layer<L, R> {
    /// Child ids are unique.
    pub open spec fn wf(&self) -> bool {
        self.inner.wf()
    }

    /// A layer state without children and without render callback.
    pub fn new() -> (r: Self)
        ensures
            r.wf(),
            r.inner.children.entries@.len() == 0,
            r.inner.render.callback is None,
    {
        Layer { inner: LayerInner::new() }
    }

    /// Installs a raw update procedure: no render callback is dispatched to.
    pub fn set_raw_update_handler(&mut self)
        ensures
            final(self).inner.render.callback is None,
            final(self).inner.children == old(self).inner.children,
    {
        self.inner.render.set(None);
    }

    /// Sets the render callback that layer updates dispatch to.
    pub fn set_update_handler(&mut self, callback: R)
        ensures
            final(self).inner.render.callback == Some(callback),
            final(self).inner.children == old(self).inner.children,
    {
        self.inner.render.set(Some(callback));
    }

    /// Removes the render callback.
    pub fn clear_update_handler(&mut self)
        ensures
            final(self).inner.render.callback is None,
            final(self).inner.children == old(self).inner.children,
    {
        self.inner.render.set(None);
    }

    /// Removes all children and hands them back, in their stored order, for
    /// detaching from this layer.
    pub fn remove_child_layers(&mut self) -> (r: Vec<(usize, L)>)
        requires
            old(self).wf(),
        ensures
            final(self).wf(),
            r@ == old(self).inner.children.entries@,
            final(self).inner.children.entries@.len() == 0,
            final(self).inner.render == old(self).inner.render,
    {
        self.inner.children.take_all()
    }
}

} // verus!
