//! Cooperative cancellation: a write-once flag consulted between work items.

use vstd::prelude::*;

verus! {

/// A cooperative stop signal. Once requested, cancellation never reverts
/// within a run; workers consult it before starting a new item and between
/// retry delays.
pub struct CancellationGate {
    cancelled: bool,
}

impl CancellationGate {
    /// True when cancellation has been requested.
    pub closed spec fn spec_is_cancelled(&self) -> bool {
        self.cancelled
    }

    /// A fresh gate: no cancellation requested yet.
    pub fn new() -> (g: CancellationGate)
        ensures
            !g.spec_is_cancelled(),
    {
        CancellationGate { cancelled: false }
    }

    /// Request cancellation. Idempotent: the flag only ever moves to `true`.
    pub fn request_cancel(&mut self)
        ensures
            final(self).spec_is_cancelled(),
    {
        self.cancelled = true;
    }

    /// Non-blocking read of the flag.
    pub fn is_cancelled(&self) -> (r: bool)
        ensures
            r == self.spec_is_cancelled(),
    {
        self.cancelled
    }
}

} // verus!
