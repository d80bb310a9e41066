//! The real-time session: a scoped elevation of the calling thread's
//! execution priority for audio work.
//!
//! The elevation itself is the thread-priority service's job; this module
//! calls it and carries the scope. The demotion is tied to the session
//! value's end by ownership: `end` consumes the session and hands the
//! recorded scheduling back, so the elevated priority cannot leak past it,
//! and a session can end exactly once.

use vstd::prelude::*;

use crate::Error;

verus! {

/// The opaque scheduling record the thread-priority service returns on
/// promotion and takes back on demotion.
#[verifier::external_type_specification]
#[verifier::external_body]
pub struct ExRtPriorityHandle(audio_thread_priority::RtPriorityHandle);

/// The thread-priority service's own error.
#[verifier::external_type_specification]
#[verifier::external_body]
pub struct ExAudioThreadPriorityError(audio_thread_priority::AudioThreadPriorityError);

/// Relies on audio_thread_priority::promote_current_thread_to_real_time:
/// asks the OS to raise the calling thread to real-time scheduling for
/// audio work paced by this buffer size and sample rate. A zero sample rate
/// is rejected by the service itself; whether the OS grants the elevation
/// depends on the environment, so nothing more is promised of the outcome
/// than the returned handle or error.
#[verifier::external_body]
fn promote_thread(audio_buffer_frames: u32, audio_samplerate_hz: u32) -> (r: Result<
    audio_thread_priority::RtPriorityHandle,
    audio_thread_priority::AudioThreadPriorityError,
>)
    ensures
        audio_samplerate_hz == 0 ==> r is Err,
{
    audio_thread_priority::promote_current_thread_to_real_time(
        audio_buffer_frames,
        audio_samplerate_hz,
    )
}

/// Relies on audio_thread_priority::demote_current_thread_from_real_time:
/// restores the scheduling the handle recorded. The outcome depends on the
/// environment; nothing is promised of it.
#[verifier::external_body]
fn demote_thread(handle: audio_thread_priority::RtPriorityHandle) -> (r: Result<
    (),
    audio_thread_priority::AudioThreadPriorityError,
>) {
    audio_thread_priority::demote_current_thread_from_real_time(handle)
}

/// A scoped real-time execution context, created with a target sample-rate
/// hint and active until ended.
pub struct Session {
    /// The sample rate the work is paced by, given to the scheduler as a
    /// hint.
    pub sample_rate_hint: usize,
    /// The scheduling record to hand back on demotion; present exactly
    /// while the elevation is in force.
    pub handle: Option<audio_thread_priority::RtPriorityHandle>,
}

impl Session {
    /// Whether the elevation is in force.
    pub open spec fn spec_active(self) -> bool {
        self.handle is Some
    }

    /// Enters the elevated scope with this sample-rate hint. Fails with
    /// `Validation` when the hint does not fit the service's rate field,
    /// and with `Unavailable` when the OS declines the elevation.
    pub fn promote(sample_rate: usize) -> (r: Result<Session, Error>)
        ensures
            sample_rate > u32::MAX ==> r == Result::<Session, Error>::Err(Error::Validation),
            r is Err ==> r->Err_0 == Error::Validation || r->Err_0 == Error::Unavailable,
            r is Err && sample_rate <= u32::MAX ==> r->Err_0 == Error::Unavailable,
            r is Ok ==> r->Ok_0.spec_active() && r->Ok_0.sample_rate_hint == sample_rate,
    {
        if sample_rate > u32::MAX as usize {
            return Err(Error::Validation);
        }
        match promote_thread(0, sample_rate as u32) {
            Ok(handle) => Ok(Session { sample_rate_hint: sample_rate, handle: Some(handle) }),
            Err(_) => Err(Error::Unavailable),
        }
    }

    /// Whether the elevation is in force.
    pub fn is_active(&self) -> (r: bool)
        ensures
            r == self.spec_active(),
    {
        self.handle.is_some()
    }

    /// Ends the scope: the thread is demoted back to the scheduling the
    /// session recorded. Taking the session by value makes the demotion
    /// happen exactly once, and no elevated scope survives the call. A
    /// demotion failure is best effort and not surfaced: cleanup must not
    /// itself fail.
    pub fn end(self) {
        match self.handle {
            Some(handle) => {
                let _ = demote_thread(handle);
            }
            None => {}
        }
    }
}

} // verus!
