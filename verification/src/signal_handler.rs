//! What the server does when one of the signals it waits for arrives.
//!
//! Waiting is the caller's business; the decision is made here.

use vstd::prelude::*;

verus! {

/// The signals that the server traps.
#[derive(Clone, Copy, Debug, PartialEq, Eq, Structural)]
pub enum Signal {
    Term,
    Int,
    Hup,
    Usr1,
    Usr2,
}

/// What the server does about a signal.
#[derive(Clone, Copy, Debug, PartialEq, Eq, Structural)]
pub enum SignalAction {
    /// Stop waiting and shut the server down.
    Stop,
    /// Go on waiting.
    Continue,
}

/// The answer to each signal: the three signals that ask the process to end
/// stop the server; the first user signal, which is kept for asking the
/// server about its metrics, leaves it running; and for the second user
/// signal there is no answer.
pub open spec fn spec_signal_action(signal: Signal) -> Option<SignalAction> {
    match signal {
        Signal::Term | Signal::Int | Signal::Hup => Some(SignalAction::Stop),
        Signal::Usr1 => Some(SignalAction::Continue),
        Signal::Usr2 => None,
    }
}

/// Decides what to do about `signal`. `None` means that the server has no
/// handler for it, which its caller treats as a defect.
pub fn signal_action(signal: Signal) -> (action: Option<SignalAction>)
    ensures
        action == spec_signal_action(signal),
{
    match signal {
        Signal::Term | Signal::Int | Signal::Hup => Some(SignalAction::Stop),
        Signal::Usr1 => Some(SignalAction::Continue),
        Signal::Usr2 => None,
    }
}

} // verus!
