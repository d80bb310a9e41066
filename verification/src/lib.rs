//! A cross-platform low-latency audio I/O abstraction: endpoint enumeration
//! with hot-plug tracking, stream format negotiation, and a real-time
//! acquire/process/release buffer cycle synchronized through a fence.
//!
//! The platform audio engine itself (COM activation, driver calls, blocking
//! OS waits) lives outside this crate; the library holds the device and
//! stream lifecycle, the buffer-exchange protocol, and the rules every
//! backend must follow, stated as contracts and verified.

use vstd::prelude::*;

pub mod device;
pub mod events;
pub mod fence;
pub mod flags;
pub mod format;
pub mod instance;
pub mod registry;
pub mod session;

verus! {

/// The error kinds every operation of the library reports.
#[derive(Clone, Copy, PartialEq, Eq, Structural, Debug)]
pub enum Error {
    /// A malformed or unsupported request: duplex channels, an unsupported
    /// sample format, an unrecognized native descriptor, a stale handle.
    Validation,
    /// A referenced device id is not present in the registry.
    NotFound,
    /// A buffer wait exceeded the caller's deadline; recoverable, retry.
    Timeout,
    /// A native call failed for a backend-specific reason.
    Unavailable,
}

} // verus!
