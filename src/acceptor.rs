//! The listener's decision after each accept attempt.
use vstd::prelude::*;

verus! {

/// What the listener does after an accept attempt.
#[derive(Debug, Clone, Copy, PartialEq, Eq, Structural)]
pub enum AcceptStep {
    /// Hand the connection to a session of its own and accept the next one
    /// without waiting for it.
    Dispatch,
    /// Stop accepting.
    Halt,
}

/// An accepted connection is dispatched; a failed accept halts the listener
/// rather than being retried.
pub fn after_accept(accepted: bool) -> (r: AcceptStep)
    ensures
        r == (if accepted {
            AcceptStep::Dispatch
        } else {
            AcceptStep::Halt
        }),
{
    if accepted {
        AcceptStep::Dispatch
    } else {
        AcceptStep::Halt
    }
}

} // verus!
