//! A slot for a user callback that C event handlers dispatch to.
//!
//! While the callback runs it is taken out of its slot, so that the callback
//! itself may install a new callback; a callback installed that way is kept.
use vstd::prelude::*;

verus! {

/// A slot holding at most one callback.
pub struct GlobalCallbackInner<T> {
    pub callback: Option<T>,
}

impl<T> GlobalCallbackInner<T> {
    /// An empty slot.
    pub fn new() -> (r: Self)
        ensures
            r.callback is None,
    {
        GlobalCallbackInner { callback: None }
    }

    /// Installs (`Some`) or removes (`None`) the callback.
    pub fn set(&mut self, callback: Option<T>)
        ensures
            final(self).callback == callback,
    {
        self.callback = callback;
    }

    /// Removes the callback.
    pub fn clear(&mut self)
        ensures
            final(self).callback is None,
    {
        self.callback = None;
    }

    /// Takes the callback out for a call, leaving the slot empty.
    pub fn extract(&mut self) -> (r: Option<T>)
        ensures
            r == old(self).callback,
            final(self).callback is None,
    {
        self.callback.take()
    }

    /// Puts a callback back after its call, unless another callback was
    /// installed meanwhile.
    pub fn restore(&mut self, callback: T)
        ensures
            old(self).callback is None ==> final(self).callback == Some(callback),
            old(self).callback is Some ==> final(self).callback == old(self).callback,
    {
        if self.callback.is_none() {
            self.callback = Some(callback);
        }
    }
}

/// Calls the callback of a slot, if any, and puts it back afterwards.
pub fn dispatch_handler<C: FnMut()>(handler: &mut GlobalCallbackInner<C>)
    requires
        old(handler).callback matches Some(c) ==> call_requires(c, ()),
    ensures
        final(handler).callback == old(handler).callback,
        old(handler).callback matches Some(c) ==> call_ensures(c, (), ()),
{
    let callback = handler.extract();
    if let Some(mut callback) = callback {
        callback();
        handler.restore(callback);
    }
}

} // verus!
