//! The lifecycle of a timer as a state machine: what happens when it fires,
//! when its callback returns, when a repeating timer is started again, and
//! when it is cancelled. The firmware calls that each action stands for are
//! made by the caller, which reports their outcome back as an event.
use vstd::prelude::*;

verus! {

/// Where a timer is in its lifecycle.
#[derive(Clone, Copy, PartialEq, Eq, Structural, Debug)]
pub enum TimerPhase {
    /// A firmware timer is registered and holds the timer's slot.
    Armed,
    /// The timer fired and its callback is running.
    Running,
    /// A repeating timer asked to repeat and is being registered again.
    Restarting,
    /// The timer is over: it never calls its callback again.
    Stopped,
}

/// What reaches a timer.
#[derive(Clone, Copy, PartialEq, Eq, Structural, Debug)]
pub enum TimerEvent {
    /// The firmware timer fired.
    Fired,
    /// The callback returned; a repeating callback's result says whether to repeat.
    CallbackReturned(bool),
    /// Registering the next firmware timer succeeded (`true`) or failed.
    Restarted(bool),
    /// The owner cancelled the timer.
    Cancelled,
}

/// What the caller must do after a step.
#[derive(Clone, Copy, PartialEq, Eq, Structural, Debug)]
pub enum TimerAction {
    /// Empty the timer's slot, then run the callback.
    ClearSlotAndRun,
    /// Register the next firmware timer for a repeating timer.
    Restart,
    /// Put the newly registered firmware timer into the slot.
    StoreRestarted,
    /// The timer is over: free its callback and context.
    FreeContext,
    /// Cancel the registered firmware timer, then free the callback and context.
    CancelAndFree,
    /// Nothing to do.
    Nothing,
}

/// A timer's kind and phase.
#[derive(Clone, Copy, PartialEq, Eq, Structural, Debug)]
pub struct TimerMachine {
    pub repeating: bool,
    pub phase: TimerPhase,
}

/// The next state and the action of one step.
pub open spec fn spec_timer_step(m: TimerMachine, e: TimerEvent) -> (TimerMachine, TimerAction) {
    let to = |p: TimerPhase| TimerMachine { repeating: m.repeating, phase: p };
    match (m.phase, e) {
        (TimerPhase::Armed, TimerEvent::Fired) => (to(TimerPhase::Running), TimerAction::ClearSlotAndRun),
        (TimerPhase::Armed, TimerEvent::Cancelled) => (to(TimerPhase::Stopped), TimerAction::CancelAndFree),
        (TimerPhase::Running, TimerEvent::CallbackReturned(again)) => if m.repeating && again {
            (to(TimerPhase::Restarting), TimerAction::Restart)
        } else {
            (to(TimerPhase::Stopped), TimerAction::FreeContext)
        },
        (TimerPhase::Restarting, TimerEvent::Restarted(ok)) => if ok {
            (to(TimerPhase::Armed), TimerAction::StoreRestarted)
        } else {
            (to(TimerPhase::Stopped), TimerAction::FreeContext)
        },
        _ => (m, TimerAction::Nothing),
    }
}

/// The state and the actions after a sequence of events.
pub open spec fn spec_timer_run(m: TimerMachine, events: Seq<TimerEvent>) -> (TimerMachine, Seq<TimerAction>)
    decreases events.len(),
{
    if events.len() == 0 {
        (m, Seq::empty())
    } else {
        let (before, actions) = spec_timer_run(m, events.drop_last());
        let (after, action) = spec_timer_step(before, events.last());
        (after, actions.push(action))
    }
}

impl TimerMachine {
    /// A registered one-shot timer.
    pub fn once() -> (r: Self)
        ensures
            r == (TimerMachine { repeating: false, phase: TimerPhase::Armed }),
    {
        TimerMachine { repeating: false, phase: TimerPhase::Armed }
    }

    /// A registered repeating timer.
    pub fn repeating() -> (r: Self)
        ensures
            r == (TimerMachine { repeating: true, phase: TimerPhase::Armed }),
    {
        TimerMachine { repeating: true, phase: TimerPhase::Armed }
    }

    /// Takes one event and says what to do.
    pub fn step(&mut self, event: TimerEvent) -> (r: TimerAction)
        ensures
            (*final(self), r) == spec_timer_step(*old(self), event),
    {
        let to = self.phase;
        let (phase, action) = match (to, event) {
            (TimerPhase::Armed, TimerEvent::Fired) => (TimerPhase::Running, TimerAction::ClearSlotAndRun),
            (TimerPhase::Armed, TimerEvent::Cancelled) => (TimerPhase::Stopped, TimerAction::CancelAndFree),
            (TimerPhase::Running, TimerEvent::CallbackReturned(again)) => if self.repeating && again {
                (TimerPhase::Restarting, TimerAction::Restart)
            } else {
                (TimerPhase::Stopped, TimerAction::FreeContext)
            },
            (TimerPhase::Restarting, TimerEvent::Restarted(ok)) => if ok {
                (TimerPhase::Armed, TimerAction::StoreRestarted)
            } else {
                (TimerPhase::Stopped, TimerAction::FreeContext)
            },
            _ => (to, TimerAction::Nothing),
        };
        self.phase = phase;
        action
    }
}

/// A one-shot timer that fires runs its callback once and then frees its
/// slot and context; afterwards nothing runs it again.
pub proof fn lemma_timer_once_fires_once(again: bool, e: TimerEvent)
    ensures
        ({
            let (m, actions) = spec_timer_run(
                TimerMachine { repeating: false, phase: TimerPhase::Armed },
                seq![TimerEvent::Fired, TimerEvent::CallbackReturned(again)],
            );
            &&& m.phase == TimerPhase::Stopped
            &&& actions == seq![TimerAction::ClearSlotAndRun, TimerAction::FreeContext]
            &&& spec_timer_step(m, e) == (m, TimerAction::Nothing)
        }),
{
    reveal_with_fuel(spec_timer_run, 3);
    let start = TimerMachine { repeating: false, phase: TimerPhase::Armed };
    let s = seq![TimerEvent::Fired, TimerEvent::CallbackReturned(again)];
    assert(s.drop_last() =~= seq![TimerEvent::Fired]);
    assert(s.drop_last().drop_last() =~= Seq::<TimerEvent>::empty());
    let (m1, a1) = spec_timer_run(start, s.drop_last());
    assert(a1 =~= seq![TimerAction::ClearSlotAndRun]);
    let (m2, a2) = spec_timer_run(start, s);
    assert(a2 =~= seq![TimerAction::ClearSlotAndRun, TimerAction::FreeContext]);
}

/// A repeating timer that fires goes on exactly when its callback returns
/// `true` and the next firmware timer could be registered; otherwise it stops
/// and frees its context.
pub proof fn lemma_timer_repeat_continues_iff(again: bool, ok: bool)
    ensures
        ({
            let start = TimerMachine { repeating: true, phase: TimerPhase::Armed };
            let events = if again {
                seq![TimerEvent::Fired, TimerEvent::CallbackReturned(true), TimerEvent::Restarted(ok)]
            } else {
                seq![TimerEvent::Fired, TimerEvent::CallbackReturned(false)]
            };
            let (m, actions) = spec_timer_run(start, events);
            &&& (m.phase == TimerPhase::Armed) == (again && ok)
            &&& (m.phase == TimerPhase::Stopped) == !(again && ok)
            &&& actions[0] == TimerAction::ClearSlotAndRun
            &&& actions.last() == if again && ok {
                TimerAction::StoreRestarted
            } else {
                TimerAction::FreeContext
            }
        }),
{
    reveal_with_fuel(spec_timer_run, 4);
    let start = TimerMachine { repeating: true, phase: TimerPhase::Armed };
    let a = seq![TimerEvent::Fired, TimerEvent::CallbackReturned(true), TimerEvent::Restarted(ok)];
    let b = seq![TimerEvent::Fired, TimerEvent::CallbackReturned(false)];
    assert(a.drop_last() =~= seq![TimerEvent::Fired, TimerEvent::CallbackReturned(true)]);
    assert(a.drop_last().drop_last() =~= seq![TimerEvent::Fired]);
    assert(a.drop_last().drop_last().drop_last() =~= Seq::<TimerEvent>::empty());
    assert(b.drop_last() =~= seq![TimerEvent::Fired]);
    assert(b.drop_last().drop_last() =~= Seq::<TimerEvent>::empty());
    let (m1, a1) = spec_timer_run(start, seq![TimerEvent::Fired]);
    assert(m1.phase == TimerPhase::Running);
    assert(a1 =~= seq![TimerAction::ClearSlotAndRun]);
    let (m2, a2) = spec_timer_run(start, a.drop_last());
    assert(m2.phase == TimerPhase::Restarting);
    assert(a2[0] == TimerAction::ClearSlotAndRun);
    let (m3, a3) = spec_timer_run(start, a);
    assert(a3[0] == TimerAction::ClearSlotAndRun);
    let (m4, a4) = spec_timer_run(start, b);
    assert(a4[0] == TimerAction::ClearSlotAndRun);
}

/// Cancelling a registered timer cancels the firmware timer, frees the
/// context and stops the timer; a stopped timer ignores every event.
pub proof fn lemma_timer_cancel_stops(m: TimerMachine, e: TimerEvent)
    requires
        m.phase == TimerPhase::Armed,
    ensures
        spec_timer_step(m, TimerEvent::Cancelled) == (
            TimerMachine { repeating: m.repeating, phase: TimerPhase::Stopped },
            TimerAction::CancelAndFree,
        ),
        spec_timer_step(spec_timer_step(m, TimerEvent::Cancelled).0, e) == (
            spec_timer_step(m, TimerEvent::Cancelled).0,
            TimerAction::Nothing,
        ),
{
}

} // verus!
