//! Effects: a callback that is started when some source fires and whose
//! returned cleanup is run when the matching end source fires.
//!
//! The lifecycle guarantees:
//! - every call of the effect callback is paired with exactly one call of the
//!   cleanup it returned;
//! - repeated start triggers without an end trigger in between call the
//!   callback only once, and the same holds for repeated end triggers;
//! - replacing the callback of a started effect runs the old cleanup first and
//!   then starts the new callback.
use vstd::prelude::*;

verus! {

/// An effect whose callback has not been started.
pub struct PendingEffect<C> {
    pub callback: C,
}

/// A started effect, holding the cleanup that the callback returned.
pub struct MountedEffect<C, K> {
    pub callback: C,
    pub cleanup: K,
}

/// The abstract lifecycle position of an [`Effect`].
#[derive(PartialEq, Eq, Structural, Clone, Copy, Debug)]
pub enum EffectPhase {
    /// A callback is present and not started.
    Pending,
    /// A callback is present and started.
    Mounted,
    /// No callback is present, but the start source has fired.
    NoneMounted,
    /// No callback is present and the start source has not fired.
    Empty,
}

/// An effect slot: optionally a callback, plus whether its source is active.
pub enum Effect<C, K> {
    Pending(PendingEffect<C>),
    Mounted(MountedEffect<C, K>),
    NoneMounted,
    Empty,
}

/// What a start trigger does to the phase.
pub open spec fn phase_after_mount(p: EffectPhase) -> EffectPhase {
    match p {
        EffectPhase::Pending => EffectPhase::Mounted,
        EffectPhase::Empty => EffectPhase::NoneMounted,
        _ => p,
    }
}

/// What an end trigger does to the phase.
pub open spec fn phase_after_unmount(p: EffectPhase) -> EffectPhase {
    match p {
        EffectPhase::Mounted => EffectPhase::Pending,
        EffectPhase::NoneMounted => EffectPhase::Empty,
        _ => p,
    }
}

/// What installing a callback does to the phase.
pub open spec fn phase_after_set_callback(p: EffectPhase) -> EffectPhase {
    match p {
        EffectPhase::Mounted | EffectPhase::NoneMounted => EffectPhase::Mounted,
        _ => EffectPhase::Pending,
    }
}

/// Whether a start trigger in phase `p` calls the callback.
pub open spec fn mount_runs_callback(p: EffectPhase) -> bool {
    p == EffectPhase::Pending
}

/// Whether an end trigger in phase `p` calls the cleanup.
pub open spec fn unmount_runs_cleanup(p: EffectPhase) -> bool {
    p == EffectPhase::Mounted
}

/// Whether installing a callback in phase `p` calls the old cleanup.
pub open spec fn set_callback_runs_cleanup(p: EffectPhase) -> bool {
    p == EffectPhase::Mounted
}

/// Whether installing a callback in phase `p` calls the new callback.
pub open spec fn set_callback_runs_callback(p: EffectPhase) -> bool {
    p == EffectPhase::Mounted || p == EffectPhase::NoneMounted
}

/// A trigger that reaches an effect slot.
#[derive(PartialEq, Eq, Structural, Clone, Copy, Debug)]
pub enum EffectEvent {
    /// The start source fired.
    Mount,
    /// The end source fired.
    Unmount,
    /// A new callback was installed.
    SetCallback,
}

/// The phase after one trigger.
pub open spec fn phase_step(p: EffectPhase, e: EffectEvent) -> EffectPhase {
    match e {
        EffectEvent::Mount => phase_after_mount(p),
        EffectEvent::Unmount => phase_after_unmount(p),
        EffectEvent::SetCallback => phase_after_set_callback(p),
    }
}

/// How many callback calls one trigger makes.
pub open spec fn callback_calls(p: EffectPhase, e: EffectEvent) -> nat {
    match e {
        EffectEvent::Mount => if mount_runs_callback(p) { 1 } else { 0 },
        EffectEvent::Unmount => 0,
        EffectEvent::SetCallback => if set_callback_runs_callback(p) { 1 } else { 0 },
    }
}

/// How many cleanup calls one trigger makes.
pub open spec fn cleanup_calls(p: EffectPhase, e: EffectEvent) -> nat {
    match e {
        EffectEvent::Mount => 0,
        EffectEvent::Unmount => if unmount_runs_cleanup(p) { 1 } else { 0 },
        EffectEvent::SetCallback => if set_callback_runs_cleanup(p) { 1 } else { 0 },
    }
}

/// The phase after a sequence of triggers.
pub open spec fn run_phase(p: EffectPhase, events: Seq<EffectEvent>) -> EffectPhase
    decreases events.len(),
{
    if events.len() == 0 {
        p
    } else {
        phase_step(run_phase(p, events.drop_last()), events.last())
    }
}

/// The callback calls made by a sequence of triggers.
pub open spec fn run_callback_calls(p: EffectPhase, events: Seq<EffectEvent>) -> nat
    decreases events.len(),
{
    if events.len() == 0 {
        0
    } else {
        run_callback_calls(p, events.drop_last()) + callback_calls(
            run_phase(p, events.drop_last()),
            events.last(),
        )
    }
}

/// The cleanup calls made by a sequence of triggers.
pub open spec fn run_cleanup_calls(p: EffectPhase, events: Seq<EffectEvent>) -> nat
    decreases events.len(),
{
    if events.len() == 0 {
        0
    } else {
        run_cleanup_calls(p, events.drop_last()) + cleanup_calls(
            run_phase(p, events.drop_last()),
            events.last(),
        )
    }
}

/// 1 when the phase holds a started callback whose cleanup is owed.
pub open spec fn outstanding(p: EffectPhase) -> nat {
    if p == EffectPhase::Mounted { 1 } else { 0 }
}

/// Every callback call is paired with exactly one cleanup call: starting from
/// any phase, after any sequence of triggers the callback calls exceed the
/// cleanup calls by exactly the started callback still owed a cleanup.
pub proof fn lemma_effect_calls_balanced(p: EffectPhase, events: Seq<EffectEvent>)
    ensures
        run_callback_calls(p, events) + outstanding(p) == run_cleanup_calls(p, events)
            + outstanding(run_phase(p, events)),
    decreases events.len(),
{
    if events.len() > 0 {
        lemma_effect_calls_balanced(p, events.drop_last());
    }
}

/// A second start trigger without an end trigger in between does not call the
/// callback again, and a second end trigger does not call the cleanup again.
pub proof fn lemma_effect_repeated_triggers_run_once(p: EffectPhase)
    ensures
        callback_calls(p, EffectEvent::Mount) + callback_calls(
            phase_step(p, EffectEvent::Mount),
            EffectEvent::Mount,
        ) <= 1,
        callback_calls(phase_step(p, EffectEvent::Mount), EffectEvent::Mount) == 0,
        cleanup_calls(phase_step(p, EffectEvent::Unmount), EffectEvent::Unmount) == 0,
        phase_step(phase_step(p, EffectEvent::Mount), EffectEvent::Mount) == phase_step(
            p,
            EffectEvent::Mount,
        ),
        phase_step(phase_step(p, EffectEvent::Unmount), EffectEvent::Unmount) == phase_step(
            p,
            EffectEvent::Unmount,
        ),
{
}

/// After an end trigger the effect is back at its initial state: the next start
/// trigger calls the callback again if one is installed.
pub proof fn lemma_effect_restarts_after_end(p: EffectPhase)
    requires
        p == EffectPhase::Pending || p == EffectPhase::Mounted,
    ensures
        callback_calls(phase_step(p, EffectEvent::Unmount), EffectEvent::Mount) == 1,
{
}

/// Installing a callback starts an effect only when its start source is
/// active: on an effect that is not started (pending, or empty) it calls
/// nothing and leaves the effect pending until a start trigger; on a started
/// effect it ends the old callback (when there is one) and starts the new one.
pub proof fn lemma_set_callback_starts_only_started_effects(p: EffectPhase)
    ensures
        p == EffectPhase::Pending || p == EffectPhase::Empty ==> phase_after_set_callback(p)
            == EffectPhase::Pending && callback_calls(p, EffectEvent::SetCallback) == 0
            && cleanup_calls(p, EffectEvent::SetCallback) == 0,
        p == EffectPhase::Mounted ==> phase_after_set_callback(p) == EffectPhase::Mounted
            && callback_calls(p, EffectEvent::SetCallback) == 1 && cleanup_calls(
            p,
            EffectEvent::SetCallback,
        ) == 1,
        p == EffectPhase::NoneMounted ==> phase_after_set_callback(p) == EffectPhase::Mounted
            && callback_calls(p, EffectEvent::SetCallback) == 1 && cleanup_calls(
            p,
            EffectEvent::SetCallback,
        ) == 0,
{
}

/// A callback is called only by a start trigger on a pending effect, or by
/// installing it while the start source is active; an end trigger never calls
/// one, and neither does a start trigger on an effect already started.
pub proof fn lemma_callback_runs_only_on_start(p: EffectPhase, e: EffectEvent)
    ensures
        callback_calls(p, e) > 0 <==> ((e == EffectEvent::Mount && p == EffectPhase::Pending) || (e
            == EffectEvent::SetCallback && (p == EffectPhase::Mounted || p
            == EffectPhase::NoneMounted))),
        callback_calls(p, e) <= 1,
{
}

/// An effect callback is callable, and so is every cleanup it may return.
pub open spec fn effect_callback_ok<C: FnMut() -> K, K: FnOnce()>(callback: C) -> bool {
    &&& call_requires(callback, ())
    &&& forall|k: K| #![trigger call_requires(k, ())] call_ensures(callback, (), k) ==> call_requires(k, ())
}

impl<C> PendingEffect<C> {
    /// Wraps a callback into a not-yet-started effect.
    pub fn new(callback: C) -> (r: Self)
        ensures
            r.callback == callback,
    {
        Self { callback }
    }
}

impl<C: FnMut() -> K, K: FnOnce()> PendingEffect<C> {
    /// Starts the effect: calls the callback once and keeps its cleanup.
    pub fn mount(self) -> (r: MountedEffect<C, K>)
        requires
            call_requires(self.callback, ()),
        ensures
            r.callback == self.callback,
            call_ensures(self.callback, (), r.cleanup),
    {
        let mut callback = self.callback;
        let cleanup = callback();
        MountedEffect { callback, cleanup }
    }
}

impl<C, K: FnOnce()> MountedEffect<C, K> {
    /// Ends the effect: calls the cleanup once and returns to the pending state.
    pub fn unmount(self) -> (r: PendingEffect<C>)
        requires
            call_requires(self.cleanup, ()),
        ensures
            r.callback == self.callback,
            call_ensures(self.cleanup, (), ()),
    {
        let cleanup = self.cleanup;
        cleanup();
        PendingEffect { callback: self.callback }
    }
}

impl<C, K> Effect<C, K> {
    /// The lifecycle position of this effect.
    pub open spec fn phase(self) -> EffectPhase {
        match self {
            Effect::Pending(_) => EffectPhase::Pending,
            Effect::Mounted(_) => EffectPhase::Mounted,
            Effect::NoneMounted => EffectPhase::NoneMounted,
            Effect::Empty => EffectPhase::Empty,
        }
    }

    /// The callback held by this effect, if any.
    pub open spec fn held_callback(self) -> Option<C> {
        match self {
            Effect::Pending(p) => Some(p.callback),
            Effect::Mounted(m) => Some(m.callback),
            _ => None,
        }
    }

    /// A fresh effect slot without callback.
    pub fn new() -> (r: Self)
        ensures
            r.phase() == EffectPhase::Empty,
    {
        Effect::Empty
    }
}

impl<C: FnMut() -> K, K: FnOnce()> Effect<C, K> {
    /// Every closure that a later trigger may call accepts being called.
    pub open spec fn callable(self) -> bool {
        match self {
            Effect::Pending(p) => call_requires(p.callback, ()),
            Effect::Mounted(m) => call_requires(m.callback, ()) && call_requires(m.cleanup, ()),
            _ => true,
        }
    }

    /// The closures are callable, and so is every cleanup that the held
    /// callback may return.
    pub open spec fn well_behaved(self) -> bool {
        &&& self.callable()
        &&& match self.held_callback() {
            Some(c) => effect_callback_ok(c),
            None => true,
        }
    }

    /// The start source fired.
    pub fn mount(&mut self)
        requires
            old(self).well_behaved(),
        ensures
            final(self).phase() == phase_after_mount(old(self).phase()),
            final(self).held_callback() == old(self).held_callback(),
            final(self).well_behaved(),
            old(self).phase() == EffectPhase::Mounted || old(self).phase() == EffectPhase::NoneMounted
                ==> *final(self) == *old(self),
            match (*old(self), *final(self)) {
                (Effect::Pending(p), Effect::Mounted(m)) => call_ensures(p.callback, (), m.cleanup),
                _ => true,
            },
    {
        let mut taken = Effect::Empty;
        std::mem::swap(self, &mut taken);
        *self = taken.mount_owned();
    }

    /// Start transition on an owned effect.
    pub fn mount_owned(self) -> (r: Self)
        requires
            self.well_behaved(),
        ensures
            r.phase() == phase_after_mount(self.phase()),
            r.held_callback() == self.held_callback(),
            r.well_behaved(),
            self.phase() == EffectPhase::Mounted || self.phase() == EffectPhase::NoneMounted ==> r == self,
            match (self, r) {
                (Effect::Pending(p), Effect::Mounted(m)) => call_ensures(p.callback, (), m.cleanup),
                _ => true,
            },
    {
        match self {
            Effect::Mounted(m) => Effect::Mounted(m),
            Effect::NoneMounted => Effect::NoneMounted,
            Effect::Pending(u) => Effect::Mounted(u.mount()),
            Effect::Empty => Effect::NoneMounted,
        }
    }

    /// The end source fired.
    pub fn unmount(&mut self)
        requires
            old(self).well_behaved(),
        ensures
            final(self).phase() == phase_after_unmount(old(self).phase()),
            final(self).held_callback() == old(self).held_callback(),
            final(self).well_behaved(),
            old(self).phase() == EffectPhase::Pending || old(self).phase() == EffectPhase::Empty
                ==> *final(self) == *old(self),
            match *old(self) {
                Effect::Mounted(m) => call_ensures(m.cleanup, (), ()),
                _ => true,
            },
    {
        let mut taken = Effect::Empty;
        std::mem::swap(self, &mut taken);
        *self = taken.unmount_owned();
    }

    /// End transition on an owned effect.
    pub fn unmount_owned(self) -> (r: Self)
        requires
            self.well_behaved(),
        ensures
            r.phase() == phase_after_unmount(self.phase()),
            r.held_callback() == self.held_callback(),
            r.well_behaved(),
            self.phase() == EffectPhase::Pending || self.phase() == EffectPhase::Empty ==> r == self,
            match self {
                Effect::Mounted(m) => call_ensures(m.cleanup, (), ()),
                _ => true,
            },
    {
        match self {
            Effect::Mounted(mounted) => Effect::Pending(mounted.unmount()),
            Effect::NoneMounted => Effect::Empty,
            Effect::Pending(p) => Effect::Pending(p),
            Effect::Empty => Effect::Empty,
        }
    }

    /// Replaces the callback. A started effect runs its old cleanup and then
    /// starts the new callback; otherwise the new callback waits for a start.
    pub fn set_callback(&mut self, callback: C)
        requires
            old(self).well_behaved(),
            effect_callback_ok(callback),
        ensures
            final(self).phase() == phase_after_set_callback(old(self).phase()),
            final(self).held_callback() == Some(callback),
            old(self).phase() == EffectPhase::Pending || old(self).phase() == EffectPhase::Empty
                ==> *final(self) == Effect::<C, K>::Pending(PendingEffect { callback }),
            final(self).well_behaved(),
            match *old(self) {
                Effect::Mounted(m) => call_ensures(m.cleanup, (), ()),
                _ => true,
            },
            match *final(self) {
                Effect::Mounted(m) => call_ensures(callback, (), m.cleanup),
                _ => true,
            },
    {
        let mut taken: Effect<C, K> = Effect::Pending(PendingEffect::new(callback));
        std::mem::swap(self, &mut taken);
        let was_mounted = match taken {
            Effect::Mounted(mounted) => {
                let _ = mounted.unmount();
                true
            },
            Effect::NoneMounted => true,
            Effect::Pending(_) => false,
            Effect::Empty => false,
        };
        if was_mounted {
            self.mount();
        }
    }
}

} // verus!
