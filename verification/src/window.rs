//! The event-handling state of a window: user handlers for the four window
//! events, the load and appear effects, and the input receivers kept alive.
//!
//! Load starts the load effect after the load handler; appear starts the
//! appear effect after the appear handler; disappear ends the appear effect
//! before the disappear handler; unload ends the load effect before the
//! unload handler.
use vstd::prelude::*;

use crate::callback::{dispatch_handler, GlobalCallbackInner};
use crate::effect::{
    effect_callback_ok, phase_after_mount, phase_after_set_callback, phase_after_unmount, Effect,
    EffectPhase,
};
use crate::registry::Registry;

verus! {

/// Whether the callback in a slot, if any, may be called.
pub open spec fn slot_callable<C: FnMut()>(slot: GlobalCallbackInner<C>) -> bool {
    slot.callback matches Some(c) ==> call_requires(c, ())
}

/// Handlers and effects of one window.
pub struct WindowUserData<C, E, K> {
    pub load_handler: GlobalCallbackInner<C>,
    pub appear_handler: GlobalCallbackInner<C>,
    pub disappear_handler: GlobalCallbackInner<C>,
    pub unload_handler: GlobalCallbackInner<C>,
    pub appear_effect: Effect<E, K>,
    pub load_effect: Effect<E, K>,
}

impl<C: FnMut(), E: FnMut() -> K, K: FnOnce()> WindowUserData<C, E, K> {
    /// Every stored closure may be called when its event comes.
    pub open spec fn wf(&self) -> bool {
        &&& slot_callable(self.load_handler)
        &&& slot_callable(self.appear_handler)
        &&& slot_callable(self.disappear_handler)
        &&& slot_callable(self.unload_handler)
        &&& self.appear_effect.well_behaved()
        &&& self.load_effect.well_behaved()
    }

    /// No handlers and no effects.
    pub fn new() -> (r: Self)
        ensures
            r.wf(),
            r.load_handler.callback is None,
            r.appear_handler.callback is None,
            r.disappear_handler.callback is None,
            r.unload_handler.callback is None,
            r.appear_effect.phase() == EffectPhase::Empty,
            r.load_effect.phase() == EffectPhase::Empty,
    {
        WindowUserData {
            load_handler: GlobalCallbackInner::new(),
            appear_handler: GlobalCallbackInner::new(),
            disappear_handler: GlobalCallbackInner::new(),
            unload_handler: GlobalCallbackInner::new(),
            appear_effect: Effect::new(),
            load_effect: Effect::new(),
        }
    }

    /// The window was loaded: run the load handler, then start the load effect.
    pub fn dispatch_load(&mut self)
        requires
            old(self).wf(),
        ensures
            final(self).wf(),
            final(self).load_handler == old(self).load_handler,
            final(self).appear_handler == old(self).appear_handler,
            final(self).disappear_handler == old(self).disappear_handler,
            final(self).unload_handler == old(self).unload_handler,
            old(self).load_handler.callback matches Some(c) ==> call_ensures(c, (), ()),
            final(self).appear_effect == old(self).appear_effect,
            final(self).load_effect.phase() == phase_after_mount(old(self).load_effect.phase()),
            final(self).load_effect.held_callback() == old(self).load_effect.held_callback(),
            old(self).load_effect.phase() == EffectPhase::Mounted || old(self).load_effect.phase()
                == EffectPhase::NoneMounted ==> final(self).load_effect == old(self).load_effect,
            match (old(self).load_effect, final(self).load_effect) {
                (Effect::Pending(p), Effect::Mounted(m)) => call_ensures(p.callback, (), m.cleanup),
                _ => true,
            },
    {
        dispatch_handler(&mut self.load_handler);
        self.load_effect.mount();
    }

    /// The window appeared: run the appear handler, then start the appear effect.
    pub fn dispatch_appear(&mut self)
        requires
            old(self).wf(),
        ensures
            final(self).wf(),
            final(self).load_handler == old(self).load_handler,
            final(self).appear_handler == old(self).appear_handler,
            final(self).disappear_handler == old(self).disappear_handler,
            final(self).unload_handler == old(self).unload_handler,
            old(self).appear_handler.callback matches Some(c) ==> call_ensures(c, (), ()),
            final(self).load_effect == old(self).load_effect,
            final(self).appear_effect.phase() == phase_after_mount(old(self).appear_effect.phase()),
            final(self).appear_effect.held_callback() == old(self).appear_effect.held_callback(),
            old(self).appear_effect.phase() == EffectPhase::Mounted || old(self).appear_effect.phase()
                == EffectPhase::NoneMounted ==> final(self).appear_effect == old(self).appear_effect,
            match (old(self).appear_effect, final(self).appear_effect) {
                (Effect::Pending(p), Effect::Mounted(m)) => call_ensures(p.callback, (), m.cleanup),
                _ => true,
            },
    {
        dispatch_handler(&mut self.appear_handler);
        self.appear_effect.mount();
    }

    /// The window disappeared: end the appear effect, then run the disappear handler.
    pub fn dispatch_disappear(&mut self)
        requires
            old(self).wf(),
        ensures
            final(self).wf(),
            final(self).load_handler == old(self).load_handler,
            final(self).appear_handler == old(self).appear_handler,
            final(self).disappear_handler == old(self).disappear_handler,
            final(self).unload_handler == old(self).unload_handler,
            old(self).disappear_handler.callback matches Some(c) ==> call_ensures(c, (), ()),
            final(self).load_effect == old(self).load_effect,
            final(self).appear_effect.phase() == phase_after_unmount(old(self).appear_effect.phase()),
            final(self).appear_effect.held_callback() == old(self).appear_effect.held_callback(),
            old(self).appear_effect matches Effect::Mounted(m) ==> call_ensures(m.cleanup, (), ()),
    {
        self.appear_effect.unmount();
        dispatch_handler(&mut self.disappear_handler);
    }

    /// The window was unloaded: end the load effect, then run the unload handler.
    pub fn dispatch_unload(&mut self)
        requires
            old(self).wf(),
        ensures
            final(self).wf(),
            final(self).load_handler == old(self).load_handler,
            final(self).appear_handler == old(self).appear_handler,
            final(self).disappear_handler == old(self).disappear_handler,
            final(self).unload_handler == old(self).unload_handler,
            old(self).unload_handler.callback matches Some(c) ==> call_ensures(c, (), ()),
            final(self).appear_effect == old(self).appear_effect,
            final(self).load_effect.phase() == phase_after_unmount(old(self).load_effect.phase()),
            final(self).load_effect.held_callback() == old(self).load_effect.held_callback(),
            old(self).load_effect matches Effect::Mounted(m) ==> call_ensures(m.cleanup, (), ()),
    {
        self.load_effect.unmount();
        dispatch_handler(&mut self.unload_handler);
    }
}

/// The slot that stays after a dispatch: one installed during the dispatch
/// (in `newer`) replaces the dispatched one, as [`GlobalCallbackInner::restore`]
/// keeps a newer callback.
pub open spec fn spec_absorb_slot<C>(current: GlobalCallbackInner<C>, newer: GlobalCallbackInner<C>) -> GlobalCallbackInner<C> {
    if newer.callback is Some {
        newer
    } else {
        current
    }
}

impl<C: FnMut(), E: FnMut() -> K, K: FnOnce()> WindowUserData<C, E, K> {
    fn absorb_slot(current: &mut GlobalCallbackInner<C>, newer: GlobalCallbackInner<C>)
        requires
            slot_callable(*old(current)),
            slot_callable(newer),
        ensures
            *final(current) == spec_absorb_slot(*old(current), newer),
            slot_callable(*final(current)),
    {
        if newer.callback.is_some() {
            *current = newer;
        }
    }

    fn absorb_effect(current: &mut Effect<E, K>, newer: Effect<E, K>)
        requires
            old(current).well_behaved(),
            newer.well_behaved(),
        ensures
            final(current).well_behaved(),
            newer.held_callback() is None ==> *final(current) == *old(current),
            newer.held_callback() matches Some(cb) ==> {
                &&& final(current).phase() == phase_after_set_callback(old(current).phase())
                &&& final(current).held_callback() == Some(cb)
                &&& (*old(current) matches Effect::Mounted(m) ==> call_ensures(m.cleanup, (), ()))
                &&& (*final(current) matches Effect::Mounted(m) ==> call_ensures(cb, (), m.cleanup))
            },
    {
        let installed = match newer {
            Effect::Pending(p) => Some(p.callback),
            Effect::Mounted(m) => Some(m.callback),
            Effect::NoneMounted => None,
            Effect::Empty => None,
        };
        if let Some(cb) = installed {
            current.set_callback(cb);
        }
    }

    /// Takes back the handlers and effect callbacks that were installed in
    /// `newer` while this state was taken out of its window to be dispatched:
    /// a handler installed meanwhile replaces the dispatched one, and an effect
    /// callback installed meanwhile replaces the effect's callback (ending and
    /// restarting a started effect, as [`Effect::set_callback`] does).
    pub fn absorb(&mut self, newer: WindowUserData<C, E, K>)
        requires
            old(self).wf(),
            newer.wf(),
        ensures
            final(self).wf(),
            final(self).load_handler == spec_absorb_slot(old(self).load_handler, newer.load_handler),
            final(self).appear_handler == spec_absorb_slot(old(self).appear_handler, newer.appear_handler),
            final(self).disappear_handler == spec_absorb_slot(
                old(self).disappear_handler,
                newer.disappear_handler,
            ),
            final(self).unload_handler == spec_absorb_slot(old(self).unload_handler, newer.unload_handler),
            newer.appear_effect.held_callback() is None ==> final(self).appear_effect == old(self).appear_effect,
            newer.appear_effect.held_callback() matches Some(cb) ==> final(self).appear_effect.phase()
                == phase_after_set_callback(old(self).appear_effect.phase())
                && final(self).appear_effect.held_callback() == Some(cb),
            newer.appear_effect.held_callback() matches Some(cb) ==> ((old(self).appear_effect matches Effect::Mounted(
                m,
            ) ==> call_ensures(m.cleanup, (), ())) && (final(self).appear_effect matches Effect::Mounted(m)
                ==> call_ensures(cb, (), m.cleanup))),
            newer.load_effect.held_callback() is None ==> final(self).load_effect == old(self).load_effect,
            newer.load_effect.held_callback() matches Some(cb) ==> final(self).load_effect.phase()
                == phase_after_set_callback(old(self).load_effect.phase())
                && final(self).load_effect.held_callback() == Some(cb),
            newer.load_effect.held_callback() matches Some(cb) ==> ((old(self).load_effect matches Effect::Mounted(
                m,
            ) ==> call_ensures(m.cleanup, (), ())) && (final(self).load_effect matches Effect::Mounted(m)
                ==> call_ensures(cb, (), m.cleanup))),
    {
        let WindowUserData {
            load_handler,
            appear_handler,
            disappear_handler,
            unload_handler,
            appear_effect,
            load_effect,
        } = newer;
        Self::absorb_slot(&mut self.load_handler, load_handler);
        Self::absorb_slot(&mut self.appear_handler, appear_handler);
        Self::absorb_slot(&mut self.disappear_handler, disappear_handler);
        Self::absorb_slot(&mut self.unload_handler, unload_handler);
        Self::absorb_effect(&mut self.appear_effect, appear_effect);
        Self::absorb_effect(&mut self.load_effect, load_effect);
    }

    /// Whether no handler and no effect callback is installed.
    pub fn is_blank(&self) -> (r: bool)
        ensures
            r == (self.load_handler.callback is None && self.appear_handler.callback is None
                && self.disappear_handler.callback is None && self.unload_handler.callback is None
                && self.appear_effect.held_callback() is None && self.load_effect.held_callback() is None),
    {
        self.load_handler.callback.is_none() && self.appear_handler.callback.is_none()
            && self.disappear_handler.callback.is_none() && self.unload_handler.callback.is_none()
            && Self::effect_is_blank(&self.appear_effect) && Self::effect_is_blank(&self.load_effect)
    }

    fn effect_is_blank(e: &Effect<E, K>) -> (r: bool)
        ensures
            r == (e.held_callback() is None),
    {
        match e {
            Effect::Pending(_) => false,
            Effect::Mounted(_) => false,
            _ => true,
        }
    }
}

/// The event state of a window: its [`WindowUserData`] and the input
/// receivers (such as scroll layers) that it keeps alive, by id.
pub struct Window<C, E, K, R> {
    pub user_data: WindowUserData<C, E, K>,
    pub input_receivers: Registry<R>,
}

impl<C: FnMut(), E: FnMut() -> K, K: FnOnce(), R> Window<C, E, K, R> {
    /// The handlers and effects may be called, and receiver ids are unique.
    pub open spec fn wf(&self) -> bool {
        self.user_data.wf() && self.input_receivers.wf()
    }

    /// A window state without handlers, effects or input receivers.
    pub fn new() -> (r: Self)
        ensures
            r.wf(),
            r.user_data.load_handler.callback is None,
            r.user_data.appear_handler.callback is None,
            r.user_data.disappear_handler.callback is None,
            r.user_data.unload_handler.callback is None,
            r.user_data.appear_effect.phase() == EffectPhase::Empty,
            r.user_data.load_effect.phase() == EffectPhase::Empty,
            r.input_receivers.entries@.len() == 0,
    {
        Window { user_data: WindowUserData::new(), input_receivers: Registry::new() }
    }

    /// Sets the handler for when the window is loaded.
    pub fn set_load_handler(&mut self, callback: C)
        requires
            old(self).wf(),
            call_requires(callback, ()),
        ensures
            final(self).wf(),
            final(self).user_data.load_handler.callback == Some(callback),
            final(self).user_data.appear_handler == old(self).user_data.appear_handler,
            final(self).user_data.disappear_handler == old(self).user_data.disappear_handler,
            final(self).user_data.unload_handler == old(self).user_data.unload_handler,
            final(self).user_data.appear_effect == old(self).user_data.appear_effect,
            final(self).user_data.load_effect == old(self).user_data.load_effect,
            final(self).input_receivers == old(self).input_receivers,
    {
        self.user_data.load_handler.set(Some(callback));
    }

    /// Removes the load handler.
    pub fn clear_load_handler(&mut self)
        requires
            old(self).wf(),
        ensures
            final(self).wf(),
            final(self).user_data.load_handler.callback is None,
            final(self).user_data.appear_handler == old(self).user_data.appear_handler,
            final(self).user_data.disappear_handler == old(self).user_data.disappear_handler,
            final(self).user_data.unload_handler == old(self).user_data.unload_handler,
            final(self).user_data.appear_effect == old(self).user_data.appear_effect,
            final(self).user_data.load_effect == old(self).user_data.load_effect,
            final(self).input_receivers == old(self).input_receivers,
    {
        self.user_data.load_handler.clear();
    }

    /// Sets the handler for when the window is unloaded.
    pub fn set_unload_handler(&mut self, callback: C)
        requires
            old(self).wf(),
            call_requires(callback, ()),
        ensures
            final(self).wf(),
            final(self).user_data.unload_handler.callback == Some(callback),
            final(self).user_data.load_handler == old(self).user_data.load_handler,
            final(self).user_data.appear_handler == old(self).user_data.appear_handler,
            final(self).user_data.disappear_handler == old(self).user_data.disappear_handler,
            final(self).user_data.appear_effect == old(self).user_data.appear_effect,
            final(self).user_data.load_effect == old(self).user_data.load_effect,
            final(self).input_receivers == old(self).input_receivers,
    {
        self.user_data.unload_handler.set(Some(callback));
    }

    /// Removes the unload handler.
    pub fn clear_unload_handler(&mut self)
        requires
            old(self).wf(),
        ensures
            final(self).wf(),
            final(self).user_data.unload_handler.callback is None,
            final(self).user_data.load_handler == old(self).user_data.load_handler,
            final(self).user_data.appear_handler == old(self).user_data.appear_handler,
            final(self).user_data.disappear_handler == old(self).user_data.disappear_handler,
            final(self).user_data.appear_effect == old(self).user_data.appear_effect,
            final(self).user_data.load_effect == old(self).user_data.load_effect,
            final(self).input_receivers == old(self).input_receivers,
    {
        self.user_data.unload_handler.clear();
    }

    /// Sets the handler for when the window comes up on screen.
    pub fn set_appear_handler(&mut self, callback: C)
        requires
            old(self).wf(),
            call_requires(callback, ()),
        ensures
            final(self).wf(),
            final(self).user_data.appear_handler.callback == Some(callback),
            final(self).user_data.load_handler == old(self).user_data.load_handler,
            final(self).user_data.disappear_handler == old(self).user_data.disappear_handler,
            final(self).user_data.unload_handler == old(self).user_data.unload_handler,
            final(self).user_data.appear_effect == old(self).user_data.appear_effect,
            final(self).user_data.load_effect == old(self).user_data.load_effect,
            final(self).input_receivers == old(self).input_receivers,
    {
        self.user_data.appear_handler.set(Some(callback));
    }

    /// Removes the appear handler.
    pub fn clear_appear_handler(&mut self)
        requires
            old(self).wf(),
        ensures
            final(self).wf(),
            final(self).user_data.appear_handler.callback is None,
            final(self).user_data.load_handler == old(self).user_data.load_handler,
            final(self).user_data.disappear_handler == old(self).user_data.disappear_handler,
            final(self).user_data.unload_handler == old(self).user_data.unload_handler,
            final(self).user_data.appear_effect == old(self).user_data.appear_effect,
            final(self).user_data.load_effect == old(self).user_data.load_effect,
            final(self).input_receivers == old(self).input_receivers,
    {
        self.user_data.appear_handler.clear();
    }

    /// Sets the handler for when the window disappears from screen.
    pub fn set_disappear_handler(&mut self, callback: C)
        requires
            old(self).wf(),
            call_requires(callback, ()),
        ensures
            final(self).wf(),
            final(self).user_data.disappear_handler.callback == Some(callback),
            final(self).user_data.load_handler == old(self).user_data.load_handler,
            final(self).user_data.appear_handler == old(self).user_data.appear_handler,
            final(self).user_data.unload_handler == old(self).user_data.unload_handler,
            final(self).user_data.appear_effect == old(self).user_data.appear_effect,
            final(self).user_data.load_effect == old(self).user_data.load_effect,
            final(self).input_receivers == old(self).input_receivers,
    {
        self.user_data.disappear_handler.set(Some(callback));
    }

    /// Removes the disappear handler.
    pub fn clear_disappear_handler(&mut self)
        requires
            old(self).wf(),
        ensures
            final(self).wf(),
            final(self).user_data.disappear_handler.callback is None,
            final(self).user_data.load_handler == old(self).user_data.load_handler,
            final(self).user_data.appear_handler == old(self).user_data.appear_handler,
            final(self).user_data.unload_handler == old(self).user_data.unload_handler,
            final(self).user_data.appear_effect == old(self).user_data.appear_effect,
            final(self).user_data.load_effect == old(self).user_data.load_effect,
            final(self).input_receivers == old(self).input_receivers,
    {
        self.user_data.disappear_handler.clear();
    }

    /// Sets the effect for the window appearing; see [`Effect::set_callback`].
    pub fn set_appear_effect(&mut self, callback: E)
        requires
            old(self).wf(),
            effect_callback_ok(callback),
        ensures
            final(self).wf(),
            final(self).user_data.appear_effect.phase() == phase_after_set_callback(
                old(self).user_data.appear_effect.phase(),
            ),
            final(self).user_data.appear_effect.held_callback() == Some(callback),
            old(self).user_data.appear_effect matches Effect::Mounted(m) ==> call_ensures(
                m.cleanup,
                (),
                (),
            ),
            final(self).user_data.appear_effect matches Effect::Mounted(m) ==> call_ensures(
                callback,
                (),
                m.cleanup,
            ),
            final(self).user_data.load_effect == old(self).user_data.load_effect,
            final(self).user_data.load_handler == old(self).user_data.load_handler,
            final(self).user_data.appear_handler == old(self).user_data.appear_handler,
            final(self).user_data.disappear_handler == old(self).user_data.disappear_handler,
            final(self).user_data.unload_handler == old(self).user_data.unload_handler,
            final(self).input_receivers == old(self).input_receivers,
    {
        self.user_data.appear_effect.set_callback(callback);
    }

    /// Sets the effect for loading the window; see [`Effect::set_callback`].
    pub fn set_load_effect(&mut self, callback: E)
        requires
            old(self).wf(),
            effect_callback_ok(callback),
        ensures
            final(self).wf(),
            final(self).user_data.load_effect.phase() == phase_after_set_callback(
                old(self).user_data.load_effect.phase(),
            ),
            final(self).user_data.load_effect.held_callback() == Some(callback),
            old(self).user_data.load_effect matches Effect::Mounted(m) ==> call_ensures(
                m.cleanup,
                (),
                (),
            ),
            final(self).user_data.load_effect matches Effect::Mounted(m) ==> call_ensures(
                callback,
                (),
                m.cleanup,
            ),
            final(self).user_data.appear_effect == old(self).user_data.appear_effect,
            final(self).user_data.load_handler == old(self).user_data.load_handler,
            final(self).user_data.appear_handler == old(self).user_data.appear_handler,
            final(self).user_data.disappear_handler == old(self).user_data.disappear_handler,
            final(self).user_data.unload_handler == old(self).user_data.unload_handler,
            final(self).input_receivers == old(self).input_receivers,
    {
        self.user_data.load_effect.set_callback(callback);
    }

    /// Keeps an input receiver alive under its id (once per id).
    pub fn retain_input_receiver(&mut self, id: usize, receiver: R)
        requires
            old(self).wf(),
        ensures
            final(self).wf(),
            final(self).user_data == old(self).user_data,
            final(self).input_receivers.entries@ == crate::registry::spec_retain(
                old(self).input_receivers.entries@,
                id,
                receiver,
            ),
    {
        self.input_receivers.retain(id, receiver);
    }

    /// Stops keeping the input receiver with the id alive.
    pub fn remove_input_receiver(&mut self, id: usize) -> (r: Option<R>)
        requires
            old(self).wf(),
        ensures
            final(self).wf(),
            final(self).user_data == old(self).user_data,
            !final(self).input_receivers.contains(id),
            forall|x: usize|
                #[trigger] final(self).input_receivers.contains(x) <==> (old(
                    self,
                ).input_receivers.contains(x) && x != id),
            old(self).input_receivers.contains(id) <==> r is Some,
            r matches Some(x) ==> old(self).input_receivers.entries@.contains((id, x)),
            forall|k: int|
                0 <= k < final(self).input_receivers.entries@.len() ==> old(
                    self,
                ).input_receivers.entries@.contains(#[trigger] final(self).input_receivers.entries@[k]),
            old(self).input_receivers.contains(id) ==> exists|i: int|
                0 <= i < old(self).input_receivers.entries@.len() && #[trigger] old(
                    self,
                ).input_receivers.entries@[i].0 == id && final(self).input_receivers.entries@
                    == crate::registry::spec_swap_remove(old(self).input_receivers.entries@, i),
    {
        self.input_receivers.release(id)
    }
}

} // verus!
