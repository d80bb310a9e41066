//! The fence: a binary wait/signal primitive gating buffer availability.
//!
//! The backend signals the fence when a buffer is ready; the real-time loop
//! waits on it. The fence auto-resets: a successful wait consumes the
//! signal. In a live backend the wait suspends the calling thread for up to
//! the given timeout; that suspension is the platform's work and stands
//! outside this crate, so here a wait on an unsignaled fence reports an
//! elapsed timeout at once. A timeout is not an error: it is the valid
//! "no data yet" outcome, and the caller retries.

use vstd::prelude::*;

verus! {

/// Infinite timeout sentinel: wait until the backend signals.
pub const WAIT_FOREVER: u32 = 0xFFFF_FFFF;

/// What a wait observed.
#[derive(Clone, Copy, PartialEq, Eq, Structural, Debug)]
pub enum WaitStatus {
    /// The fence was signaled; the signal is consumed.
    Signaled,
    /// The timeout elapsed before a signal arrived.
    Timeout,
}

/// A binary, auto-reset wait/signal primitive.
#[derive(Debug)]
pub struct Fence {
    /// Whether a signal is pending and would satisfy the next wait.
    pub signaled: bool,
}

impl Fence {
    /// Creates a fence. Auto-reset semantics are assumed by the buffer
    /// cycle, so a manual-reset fence is not offered; the initial state
    /// says whether a signal is already pending.
    pub fn create(initial_state: bool) -> (r: Fence)
        ensures
            r.signaled == initial_state,
    {
        Fence { signaled: initial_state }
    }

    /// The backend signals the fence: a buffer is ready. Signaling an
    /// already-signaled fence leaves one pending signal, as a binary
    /// primitive must.
    pub fn signal(&mut self)
        ensures
            final(self).signaled,
    {
        self.signaled = true;
    }

    /// Waits for the signal, up to `timeout_ms` (with `WAIT_FOREVER` as the
    /// wait-forever sentinel). A pending signal is consumed and the wait
    /// reports `Signaled`; otherwise the wait reports `Timeout` without
    /// blocking indefinitely, and the caller retries once the backend has
    /// had a chance to signal.
    pub fn wait(&mut self, timeout_ms: u32) -> (r: WaitStatus)
        ensures
            r is Signaled <==> old(self).signaled,
            !final(self).signaled,
    {
        if self.signaled {
            self.signaled = false;
            WaitStatus::Signaled
        } else {
            WaitStatus::Timeout
        }
    }

    /// Destroys the fence. Taking the fence by value makes release happen
    /// exactly once: no handle survives the call.
    pub fn destroy(self) {
    }
}

} // verus!
