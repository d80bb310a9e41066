//! The opened device: start/stop lifecycle and the acquire/process/release
//! buffer cycle, with the direction-specific exchange handles.
//!
//! Input and output keep distinct exchange semantics (packet-size query
//! against padding query), so the two sides stay a tagged union matched
//! exhaustively at every use, never widened to a shared supertype.

use vstd::prelude::*;

use crate::fence::{Fence, WaitStatus};
use crate::flags::ChannelMask;
use crate::Error;

verus! {

/// A frame count.
pub type Frames = u32;

/// The playback lifecycle of a device.
#[derive(Clone, Copy, PartialEq, Eq, Structural, Debug)]
pub enum PlayState {
    /// Opened, never started.
    Created,
    /// Running.
    Started,
    /// Stopped; may start again. No buffered work survives a stop/start
    /// cycle: a partly filled buffer is the caller's to discard.
    Stopped,
}

/// The negotiated, read-only properties of a stream, fixed when the device
/// is created.
#[derive(Clone, Copy, PartialEq, Eq, Structural, Debug)]
pub struct StreamProperties {
    /// The negotiated channel mask.
    pub channels: ChannelMask,
    /// The negotiated sample rate in Hz.
    pub sample_rate: u32,
    /// The negotiated buffer capacity in frames.
    pub buffer_size: u32,
}

/// An acquired window of the exchange buffer: how many frames the caller
/// may process before the matching release. The sample memory itself
/// belongs to the platform layer and is valid strictly between acquire and
/// release.
#[derive(Clone, Copy, PartialEq, Eq, Structural, Debug)]
pub struct StreamBuffers {
    /// Frames in the acquired window.
    pub frames: Frames,
}

/// The typed, read-only view of the stream a device is bound to.
#[derive(Clone, Copy, PartialEq, Eq, Structural, Debug)]
pub struct Stream {
    /// The negotiated properties.
    pub properties: StreamProperties,
}

impl Stream {
    /// The negotiated properties, fixed at device creation.
    pub fn properties(&self) -> (r: StreamProperties)
        ensures
            r == self.properties,
    {
        self.properties
    }
}

/// The capture-side buffer exchange: the backend delivers packets, the
/// caller drains them packet by packet.
#[derive(Debug)]
pub struct InputStream {
    /// The fence the backend signals when a packet is ready.
    pub fence: Fence,
    /// The exchange buffer capacity in frames.
    pub buffer_size: u32,
    /// Delivered, not yet released packets, oldest first, in frames each.
    pub packets: Vec<Frames>,
    /// The window handed out by an acquire and not yet released.
    pub acquired: Option<Frames>,
}

impl InputStream {
    /// Well-formed: packets fit the exchange buffer, and an acquired
    /// non-empty window is the front packet.
    pub open spec fn wf(self) -> bool {
        &&& forall|p: int|
            0 <= p < self.packets@.len() ==> 0 < #[trigger] self.packets@[p] <= self.buffer_size
        &&& match self.acquired {
            Some(n) => n <= self.buffer_size && (n > 0 ==> self.packets@.len() > 0
                && self.packets@[0] == n),
            None => true,
        }
    }

    /// The frames the next acquire hands out: the front packet's size, or
    /// zero when no packet is pending.
    pub open spec fn spec_next_frames(self) -> Frames {
        if self.packets@.len() == 0 {
            0
        } else {
            self.packets@[0]
        }
    }

    /// A fresh capture exchange over an unsignaled fence.
    pub fn new(buffer_size: u32) -> (r: InputStream)
        ensures
            r.buffer_size == buffer_size,
            r.packets@ =~= Seq::<Frames>::empty(),
            r.acquired is None,
            !r.fence.signaled,
            r.wf(),
    {
        InputStream {
            fence: Fence::create(false),
            buffer_size,
            packets: Vec::new(),
            acquired: None,
        }
    }

    /// The backend delivered one capture packet and signals the fence.
    pub fn deliver_packet(&mut self, frames: Frames)
        requires
            old(self).wf(),
            0 < frames <= old(self).buffer_size,
        ensures
            final(self).wf(),
            final(self).packets@ =~= old(self).packets@.push(frames),
            final(self).fence.signaled,
            final(self).acquired == old(self).acquired,
            final(self).buffer_size == old(self).buffer_size,
    {
        self.packets.push(frames);
        self.fence.signal();
    }

    /// Acquires the next capture window: waits on the fence up to
    /// `timeout_ms`, then queries the pending packet size and hands out a
    /// window of exactly that size (zero when no packet is pending). Fails
    /// with `Timeout` when the wait elapses; that is the retryable
    /// "no data yet" outcome, not a fault.
    pub fn acquire_buffer(&mut self, timeout_ms: u32) -> (r: Result<StreamBuffers, Error>)
        requires
            old(self).wf(),
            old(self).acquired is None,
        ensures
            final(self).wf(),
            r is Ok <==> old(self).fence.signaled,
            r is Err ==> r->Err_0 == Error::Timeout && *final(self) == (InputStream {
                fence: Fence { signaled: false },
                ..*old(self)
            }),
            r is Ok ==> r->Ok_0.frames == old(self).spec_next_frames() && *final(self) == (
            InputStream {
                fence: Fence { signaled: false },
                acquired: Some(r->Ok_0.frames),
                ..*old(self)
            }),
            r is Ok ==> r->Ok_0.frames <= old(self).buffer_size,
    {
        match self.fence.wait(timeout_ms) {
            WaitStatus::Timeout => Err(Error::Timeout),
            WaitStatus::Signaled => {
                let frames: u32 = if self.packets.len() == 0 {
                    0
                } else {
                    self.packets[0]
                };
                self.acquired = Some(frames);
                Ok(StreamBuffers { frames })
            }
        }
    }

    /// Releases the acquired window back to the backend. The count must be
    /// the exact count the acquire reported: a mismatch is a programming
    /// error, not a recoverable condition. A non-empty window retires the
    /// front packet.
    pub fn release_buffer(&mut self, num_frames: Frames)
        requires
            old(self).wf(),
            old(self).acquired == Some(num_frames),
        ensures
            final(self).wf(),
            final(self).acquired is None,
            final(self).fence == old(self).fence,
            final(self).buffer_size == old(self).buffer_size,
            num_frames == 0 ==> final(self).packets@ =~= old(self).packets@,
            num_frames > 0 ==> final(self).packets@ =~= old(self).packets@.subrange(
                1,
                old(self).packets@.len() as int,
            ),
    {
        if num_frames > 0 {
            let _ = self.packets.remove(0);
        }
        self.acquired = None;
    }
}

/// The render-side buffer exchange: the caller fills whatever room the
/// exchange buffer has beyond the frames already queued (the padding).
#[derive(Debug)]
pub struct OutputStream {
    /// The fence the backend signals when buffer room is available.
    pub fence: Fence,
    /// The exchange buffer capacity in frames.
    pub buffer_size: u32,
    /// Frames already queued to the device and not yet consumed by the
    /// hardware.
    pub padding: Frames,
    /// The window handed out by an acquire and not yet released.
    pub acquired: Option<Frames>,
}

impl OutputStream {
    /// Well-formed: the queued frames never exceed the capacity, and an
    /// acquired window still fits beside them.
    pub open spec fn wf(self) -> bool {
        &&& self.padding <= self.buffer_size
        &&& match self.acquired {
            Some(n) => self.padding + n <= self.buffer_size,
            None => true,
        }
    }

    /// The frames the next acquire hands out: exactly the room the buffer
    /// currently has, capacity minus padding — never more than the backend
    /// has room for.
    pub open spec fn spec_next_frames(self) -> Frames {
        (self.buffer_size - self.padding) as Frames
    }

    /// A fresh render exchange over an unsignaled fence and an empty
    /// buffer.
    pub fn new(buffer_size: u32) -> (r: OutputStream)
        ensures
            r.buffer_size == buffer_size,
            r.padding == 0,
            r.acquired is None,
            !r.fence.signaled,
            r.wf(),
    {
        OutputStream { fence: Fence::create(false), buffer_size, padding: 0, acquired: None }
    }

    /// The hardware consumed queued frames (as many as it asked for, capped
    /// by what was queued) and signals the fence: room is available.
    pub fn consume(&mut self, frames: Frames)
        requires
            old(self).wf(),
        ensures
            final(self).wf(),
            final(self).padding == (
            if frames <= old(self).padding {
                (old(self).padding - frames) as Frames
            } else {
                0
            }),
            final(self).fence.signaled,
            final(self).acquired == old(self).acquired,
            final(self).buffer_size == old(self).buffer_size,
    {
        if frames <= self.padding {
            self.padding = self.padding - frames;
        } else {
            self.padding = 0;
        }
        self.fence.signal();
    }

    /// Acquires the next render window: waits on the fence up to
    /// `timeout_ms`, queries the current padding, and hands out exactly
    /// `capacity − padding` frames. Fails with `Timeout` when the wait
    /// elapses; the caller retries. The callback filling the window must
    /// write every sample slot: no silence fill is performed for it.
    pub fn acquire_buffer(&mut self, timeout_ms: u32) -> (r: Result<StreamBuffers, Error>)
        requires
            old(self).wf(),
            old(self).acquired is None,
        ensures
            final(self).wf(),
            r is Ok <==> old(self).fence.signaled,
            r is Err ==> r->Err_0 == Error::Timeout && *final(self) == (OutputStream {
                fence: Fence { signaled: false },
                ..*old(self)
            }),
            r is Ok ==> r->Ok_0.frames == old(self).spec_next_frames() && *final(self) == (
            OutputStream {
                fence: Fence { signaled: false },
                acquired: Some(r->Ok_0.frames),
                ..*old(self)
            }),
            r is Ok ==> r->Ok_0.frames + old(self).padding == old(self).buffer_size,
    {
        match self.fence.wait(timeout_ms) {
            WaitStatus::Timeout => Err(Error::Timeout),
            WaitStatus::Signaled => {
                let frames: u32 = self.buffer_size - self.padding;
                self.acquired = Some(frames);
                Ok(StreamBuffers { frames })
            }
        }
    }

    /// Releases the filled window: queues exactly the frames the acquire
    /// reported, so the padding grows by that count. A mismatched count is
    /// a programming error, not a recoverable condition.
    pub fn release_buffer(&mut self, num_frames: Frames)
        requires
            old(self).wf(),
            old(self).acquired == Some(num_frames),
        ensures
            final(self).wf(),
            final(self).acquired is None,
            final(self).padding == old(self).padding + num_frames,
            final(self).padding <= final(self).buffer_size,
            final(self).fence == old(self).fence,
            final(self).buffer_size == old(self).buffer_size,
    {
        self.padding = self.padding + num_frames;
        self.acquired = None;
    }
}

/// The direction-tagged buffer-exchange handle of an opened device.
#[derive(Debug)]
pub enum DeviceStream {
    /// A capture exchange.
    Input(InputStream),
    /// A render exchange.
    Output(OutputStream),
}

impl DeviceStream {
    /// Well-formed: the inner exchange is.
    pub open spec fn wf(self) -> bool {
        match self {
            DeviceStream::Input(s) => s.wf(),
            DeviceStream::Output(s) => s.wf(),
        }
    }

    /// The exchange buffer capacity in frames.
    pub open spec fn spec_buffer_size(self) -> u32 {
        match self {
            DeviceStream::Input(s) => s.buffer_size,
            DeviceStream::Output(s) => s.buffer_size,
        }
    }

    /// The window handed out and not yet released, if any.
    pub open spec fn spec_acquired(self) -> Option<Frames> {
        match self {
            DeviceStream::Input(s) => s.acquired,
            DeviceStream::Output(s) => s.acquired,
        }
    }

    /// Whether a signal is pending on the exchange's fence.
    pub open spec fn spec_signaled(self) -> bool {
        match self {
            DeviceStream::Input(s) => s.fence.signaled,
            DeviceStream::Output(s) => s.fence.signaled,
        }
    }

    /// The frames the next acquire hands out.
    pub open spec fn spec_next_frames(self) -> Frames {
        match self {
            DeviceStream::Input(s) => s.spec_next_frames(),
            DeviceStream::Output(s) => s.spec_next_frames(),
        }
    }
}

/// The per-direction properties report of an opened device.
#[derive(Clone, Copy, PartialEq, Eq, Structural, Debug)]
pub struct DeviceProperties {
    /// Channels per frame.
    pub num_channels: u16,
    /// The negotiated channel mask.
    pub channel_mask: ChannelMask,
    /// The negotiated sample rate in Hz.
    pub sample_rate: u32,
    /// The exchange buffer capacity in frames.
    pub buffer_size: u32,
}

/// A live, opened endpoint bound to one direction: the playback lifecycle,
/// the direction-tagged exchange handle, and the read-only stream view.
#[derive(Debug)]
pub struct Device {
    /// The playback lifecycle state.
    pub state: PlayState,
    /// The direction-tagged buffer exchange.
    pub device_stream: DeviceStream,
    /// The read-only stream view.
    pub stream: Stream,
}

impl Device {
    /// Well-formed: the exchange is, and the stream view reports the
    /// exchange's capacity.
    pub open spec fn wf(self) -> bool {
        &&& self.device_stream.wf()
        &&& self.stream.properties.buffer_size == self.device_stream.spec_buffer_size()
    }

    /// Starts playback or capture. Starting maps directly onto the
    /// backend's start; an already-running device stays running.
    pub fn start(&mut self)
        ensures
            final(self).state is Started,
            final(self).device_stream == old(self).device_stream,
            final(self).stream == old(self).stream,
    {
        self.state = PlayState::Started;
    }

    /// Stops playback or capture. Stopping an already-stopped device is a
    /// no-op: the call succeeds and changes nothing else. No buffered work
    /// survives the stop.
    pub fn stop(&mut self)
        ensures
            final(self).state is Stopped,
            final(self).device_stream == old(self).device_stream,
            final(self).stream == old(self).stream,
    {
        self.state = PlayState::Stopped;
    }

    /// The typed view of the bound stream.
    pub fn stream(&self) -> (r: &Stream)
        ensures
            *r == self.stream,
    {
        &self.stream
    }

    /// The per-direction properties report, derived from the negotiated
    /// stream properties.
    pub fn properties(&self) -> (r: DeviceProperties)
        ensures
            r.num_channels == self.stream.properties.channels.spec_num_channels(),
            r.channel_mask == self.stream.properties.channels,
            r.sample_rate == self.stream.properties.sample_rate,
            r.buffer_size == self.stream.properties.buffer_size,
    {
        DeviceProperties {
            num_channels: self.stream.properties.channels.num_channels(),
            channel_mask: self.stream.properties.channels,
            sample_rate: self.stream.properties.sample_rate,
            buffer_size: self.stream.properties.buffer_size,
        }
    }

    /// True when the device is bound to the capture direction.
    pub fn is_input(&self) -> (r: bool)
        ensures
            r == self.device_stream is Input,
    {
        matches!(self.device_stream, DeviceStream::Input(_))
    }

    /// True when the device is bound to the render direction.
    pub fn is_output(&self) -> (r: bool)
        ensures
            r == self.device_stream is Output,
    {
        matches!(self.device_stream, DeviceStream::Output(_))
    }

    /// The capture-side exchange of an input-bound device.
    pub fn get_input_stream(&mut self) -> (r: &mut InputStream)
        requires
            old(self).device_stream is Input,
        ensures
            *r == old(self).device_stream->Input_0,
            final(self).device_stream == DeviceStream::Input(*final(r)),
            final(self).state == old(self).state,
            final(self).stream == old(self).stream,
    {
        match &mut self.device_stream {
            DeviceStream::Input(s) => s,
            DeviceStream::Output(_) => unreached(),
        }
    }

    /// The render-side exchange of an output-bound device.
    pub fn get_output_stream(&mut self) -> (r: &mut OutputStream)
        requires
            old(self).device_stream is Output,
        ensures
            *r == old(self).device_stream->Output_0,
            final(self).device_stream == DeviceStream::Output(*final(r)),
            final(self).state == old(self).state,
            final(self).stream == old(self).stream,
    {
        match &mut self.device_stream {
            DeviceStream::Output(s) => s,
            DeviceStream::Input(_) => unreached(),
        }
    }

    /// Acquires the next buffer window, waiting on the fence up to
    /// `timeout_ms`: per direction, the pending packet size, or the room
    /// `capacity − padding`. The window never exceeds the negotiated
    /// capacity. A `Timeout` is the retryable "no data yet" outcome.
    pub fn acquire_buffers(&mut self, timeout_ms: u32) -> (r: Result<StreamBuffers, Error>)
        requires
            old(self).wf(),
            old(self).device_stream.spec_acquired() is None,
        ensures
            final(self).wf(),
            final(self).state == old(self).state,
            final(self).stream == old(self).stream,
            r is Ok <==> old(self).device_stream.spec_signaled(),
            r is Err ==> r->Err_0 == Error::Timeout && final(self).device_stream.spec_acquired()
                is None,
            r is Ok ==> r->Ok_0.frames == old(self).device_stream.spec_next_frames() && final(self).device_stream.spec_acquired() == Some(r->Ok_0.frames),
            r is Ok ==> r->Ok_0.frames <= old(self).stream.properties.buffer_size,
            final(self).device_stream is Input <==> old(self).device_stream is Input,
            final(self).device_stream.spec_buffer_size() == old(self).device_stream.spec_buffer_size(),
            // an acquire only hands the window out: it queues and retires
            // nothing
            old(self).device_stream is Output ==> final(self).device_stream->Output_0.padding
                == old(self).device_stream->Output_0.padding,
            old(self).device_stream is Input ==> final(self).device_stream->Input_0.packets@ =~= old(
                self,
            ).device_stream->Input_0.packets@,
    {
        match &mut self.device_stream {
            DeviceStream::Input(s) => s.acquire_buffer(timeout_ms),
            DeviceStream::Output(s) => s.acquire_buffer(timeout_ms),
        }
    }

    /// Releases the acquired window: returns to the backend the exact frame
    /// count the acquire reported. For output, the padding grows by exactly
    /// that count; for input, the front packet is retired.
    pub fn release_buffers(&mut self, num_frames: Frames)
        requires
            old(self).wf(),
            old(self).device_stream.spec_acquired() == Some(num_frames),
        ensures
            final(self).wf(),
            final(self).state == old(self).state,
            final(self).stream == old(self).stream,
            final(self).device_stream.spec_acquired() is None,
            final(self).device_stream is Input <==> old(self).device_stream is Input,
            final(self).device_stream.spec_buffer_size() == old(self).device_stream.spec_buffer_size(),
            old(self).device_stream is Output ==> final(self).device_stream->Output_0.padding
                == old(self).device_stream->Output_0.padding + num_frames,
            old(self).device_stream is Input ==> (num_frames > 0 ==> final(self).device_stream->Input_0.packets@ =~= old(self).device_stream->Input_0.packets@
                .subrange(1, old(self).device_stream->Input_0.packets@.len() as int)) && (
            num_frames == 0 ==> final(self).device_stream->Input_0.packets@ =~= old(self).device_stream->Input_0.packets@),
    {
        match &mut self.device_stream {
            DeviceStream::Input(s) => s.release_buffer(num_frames),
            DeviceStream::Output(s) => s.release_buffer(num_frames),
        }
    }

    /// One full buffer cycle: acquire a window (waiting on the fence up to
    /// `timeout_ms`), hand it to the caller's processing synchronously, and
    /// release the exact acquired count. Returns the cycled frame count,
    /// never more than the negotiated buffer capacity. A `Timeout` is
    /// returned per call and is not fatal: the loop retries.
    pub fn submit_buffers(&mut self, timeout_ms: u32) -> (r: Result<Frames, Error>)
        requires
            old(self).wf(),
            old(self).device_stream.spec_acquired() is None,
        ensures
            final(self).wf(),
            final(self).state == old(self).state,
            final(self).stream == old(self).stream,
            final(self).device_stream.spec_acquired() is None,
            r is Ok <==> old(self).device_stream.spec_signaled(),
            r is Err ==> r->Err_0 == Error::Timeout,
            r is Ok ==> r->Ok_0 == old(self).device_stream.spec_next_frames() && r->Ok_0 <= old(self).stream.properties.buffer_size,
            final(self).device_stream is Input <==> old(self).device_stream is Input,
            final(self).device_stream.spec_buffer_size() == old(self).device_stream.spec_buffer_size(),
            r is Ok && old(self).device_stream is Output ==> final(self).device_stream->Output_0.padding == old(self).device_stream->Output_0.padding
                + r->Ok_0,
            r is Ok && old(self).device_stream is Input && r->Ok_0 > 0 ==> final(self).device_stream->Input_0.packets@
                =~= old(self).device_stream->Input_0.packets@.subrange(
                1,
                old(self).device_stream->Input_0.packets@.len() as int,
            ),
            r is Ok && old(self).device_stream is Input && r->Ok_0 == 0 ==> final(self).device_stream->Input_0.packets@
                =~= old(self).device_stream->Input_0.packets@,
    {
        let buffers = match self.acquire_buffers(timeout_ms) {
            Ok(buffers) => buffers,
            Err(e) => {
                return Err(e);
            }
        };
        self.release_buffers(buffers.frames);
        Ok(buffers.frames)
    }

    /// Destroys the device, releasing the native stream handle and its
    /// fence exactly once, whether or not start or stop was ever called.
    /// Taking the device by value makes any later use impossible.
    pub fn destroy(self) {
        match self.device_stream {
            DeviceStream::Input(s) => s.fence.destroy(),
            DeviceStream::Output(s) => s.fence.destroy(),
        }
    }
}

} // verus!
