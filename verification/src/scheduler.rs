//! The per-component control loop, as a state machine.
//!
//! Each registered component runs one control loop for the process
//! lifetime: it waits on its redraw timer and on its interrupt channel at
//! once, redraws when either asks for it, and then refreshes the interrupt
//! channel before waiting again. The decisions live here, pure and
//! verified; the executing edge owns the threads, the timers and the real
//! channels and drives them by these functions.

use crate::event::Event;
use vstd::prelude::*;

verus! {

/// State of one component's control loop.
#[derive(Clone, Copy, Debug, Eq, Hash, PartialEq, Structural)]
pub enum LoopState {
    /// Waiting on the redraw timer and the interrupt channel at once.
    Idle,
    /// A redraw cycle is in progress.
    Redrawing,
    /// The redraw-timer source disconnected: the component is done and
    /// stops looping, its last surface stays on screen and registered.
    Terminated,
}

/// What ended an Idle wait.
#[derive(Clone, Copy, Debug, Eq, PartialEq, Structural)]
pub enum Wake {
    /// An interaction event arrived on the interrupt channel.
    Interaction(Event),
    /// The redraw timer fired.
    Timer,
    /// The redraw-timer source disconnected.
    TimerClosed,
}

/// The decision an Idle wait ends with.
///
/// A timer ping redraws unconditionally. A disconnected timer terminates
/// the loop. An interaction event redraws only if the component's event
/// handler asked for it (`handler_redraw`); otherwise the same Idle wait
/// resumes without consuming the timer.
pub fn next_state(state: LoopState, wake: Wake, handler_redraw: bool) -> (r: LoopState)
    requires
        state is Idle,
    ensures
        wake is Timer ==> r is Redrawing,
        wake is TimerClosed ==> r is Terminated,
        wake matches Wake::Interaction(_) ==> r == (if handler_redraw {
            LoopState::Redrawing
        } else {
            LoopState::Idle
        }),
{
    match wake {
        Wake::Timer => LoopState::Redrawing,
        Wake::TimerClosed => LoopState::Terminated,
        Wake::Interaction(_) => {
            if handler_redraw {
                LoopState::Redrawing
            } else {
                LoopState::Idle
            }
        }
    }
}

/// Leaving the redraw: the loop goes back to waiting. The interrupt
/// channel must be refreshed ([`InterruptChannel::refresh`]) before the
/// wait resumes.
pub fn finish_redraw(state: LoopState) -> (r: LoopState)
    requires
        state is Redrawing,
    ensures
        r is Idle,
{
    LoopState::Idle
}

/// The interrupt channel of one component, seen from the registry: the
/// queue of interaction events on their way into the component's control
/// loop, and the generation of the channel currently registered.
///
/// The executing edge backs each generation with a real channel; the
/// generation in the registry entry tells the dispatcher which one is
/// live. Refreshing after a redraw moves to a fresh generation without
/// losing anything already queued.
#[derive(Clone, Debug)]
pub struct InterruptChannel {
    /// Which channel generation the registry currently points at.
    pub generation: u64,
    /// Events delivered but not yet observed by the control loop.
    pub pending: Vec<Event>,
}

impl InterruptChannel {
    /// A fresh interrupt channel with nothing queued.
    pub fn new() -> (r: Self)
        ensures
            r.generation == 0,
            r.pending@ =~= Seq::<Event>::empty(),
    {
        InterruptChannel { generation: 0, pending: Vec::new() }
    }

    /// Deliver an interaction event from the dispatcher. Events queue in
    /// arrival order and are never dropped, whatever state the component's
    /// loop is in.
    pub fn deliver(&mut self, event: Event)
        ensures
            final(self).generation == old(self).generation,
            final(self).pending@ == old(self).pending@.push(event),
    {
        self.pending.push(event);
    }

    /// Re-register a fresh channel after a redraw completed: the
    /// generation steps, and everything that queued while the redraw ran
    /// stays pending for the next Idle wait.
    pub fn refresh(&mut self)
        requires
            old(self).generation + 1 <= u64::MAX,
        ensures
            final(self).generation == old(self).generation + 1,
            final(self).pending@ == old(self).pending@,
    {
        self.generation = self.generation + 1;
    }

    /// The next event the Idle wait observes: the oldest pending one, if
    /// any.
    pub fn take_next(&mut self) -> (r: Option<Event>)
        ensures
            final(self).generation == old(self).generation,
            old(self).pending@.len() == 0 ==> r is None && final(self).pending@
                == old(self).pending@,
            old(self).pending@.len() > 0 ==> r == Some(old(self).pending@[0])
                && final(self).pending@ == old(self).pending@.drop_first(),
    {
        if self.pending.len() == 0 {
            None
        } else {
            let e = self.pending.remove(0);
            proof {
                assert(final(self).pending@ =~= old(self).pending@.drop_first());
            }
            Some(e)
        }
    }
}

/// An interaction event that arrives while a redraw is in progress is not
/// dropped, whatever else is queued: the channel refresh that ends the
/// redraw keeps the whole queue, so the following Idle waits observe every
/// earlier event and then this one, in arrival order. `idle` is the
/// channel when the redraw began, `busy` the channel after the event
/// arrived mid-redraw, `refreshed` the channel the next wait reads.
pub proof fn lemma_event_during_redraw_observed(
    idle: InterruptChannel,
    busy: InterruptChannel,
    refreshed: InterruptChannel,
    event: Event,
)
    requires
        busy.pending@ == idle.pending@.push(event),
        refreshed.pending@ == busy.pending@,
    ensures
        refreshed.pending@.len() == idle.pending@.len() + 1,
        refreshed.pending@[idle.pending@.len() as int] == event,
        forall|j: int| 0 <= j < idle.pending@.len() ==> refreshed.pending@[j] == idle.pending@[j],
{
    assert(busy.pending@[idle.pending@.len() as int] == event);
}

} // verus!
