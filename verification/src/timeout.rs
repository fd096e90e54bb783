//! Redraw-timer sources for a component's control loop.

use vstd::prelude::*;

verus! {

/// The standard-library channel receiver, used here as an event-based
/// redraw trigger. Verus gets no specification for it; the control loop at
/// the executing edge is what reads from it.
#[verifier::external_type_specification]
#[verifier::external_body]
#[verifier::reject_recursive_types(T)]
pub struct ExReceiver<T>(std::sync::mpsc::Receiver<T>);

/// Timeout between redraws of a component.
///
/// A timeout is either a fixed duration or an event-based trigger: the
/// component is redrawn whenever the trigger fires.
pub struct Timeout<'a> {
    /// The fixed pause between redraws, for a time-based timeout.
    pub duration: Option<core::time::Duration>,
    /// The channel whose messages trigger redraws, for an event-based
    /// timeout.
    pub receiver: Option<&'a std::sync::mpsc::Receiver<()>>,
}

impl<'a> Timeout<'a> {
    /// Create an event-based timeout: every message received on the channel
    /// triggers one redraw.
    pub fn new_event(receiver: &'a std::sync::mpsc::Receiver<()>) -> (r: Self)
        ensures
            r.duration is None,
            r.receiver == Some(receiver),
    {
        Timeout { duration: None, receiver: Some(receiver) }
    }

    /// Create a time-based timeout with a fixed pause between redraws.
    pub fn new_duration(duration: core::time::Duration) -> (r: Self)
        ensures
            r.receiver is None,
            r.duration == Some(duration),
    {
        Timeout { receiver: None, duration: Some(duration) }
    }
}

} // verus!
