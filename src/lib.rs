//! Verified bookkeeping for wait primitives built on an address-keyed
//! parking queue: a binary waiter, a counting (token) waiter, and the
//! decision machine of the validate-under-lock retry loop.
use vstd::prelude::*;

pub mod counting_waiter;
pub mod hooked_waiter;
pub mod wait_until;

verus! {

/// Outcome of the caller's "lock, then re-check the condition" closure.
#[derive(Clone, Copy, Debug, PartialEq, Eq, Structural)]
pub enum ValidateResult {
    /// The condition holds: return, leaving the lock to the caller.
    Success,
    /// Stop waiting; when `run_hook` is set the lock is released first.
    Abort { run_hook: bool },
    /// The condition does not hold yet: release the lock and wait again.
    Retry,
}

/// What a notify call asks of the parking queue.
#[derive(Clone, Copy, Debug, PartialEq, Eq, Structural)]
pub enum Wake {
    /// Nobody is marked as waiting: the queue is left alone.
    Nobody,
    /// Wake every thread parked on the waiter's address.
    All,
    /// Wake at most one thread parked on the waiter's address.
    One,
}

} // verus!
