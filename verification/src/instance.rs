//! The process-scoped root object: owns the registry, the hot-plug event
//! queue, and device-creation logic.
//!
//! The platform layer connects to the OS engine, takes one snapshot of both
//! enumeration passes and the default endpoints, and hands it in here; the
//! instance builds the registry by merging the capture pass, then the
//! render pass. Afterwards the registry changes only by applying queued
//! events, never by a wholesale re-scan.

use vstd::prelude::*;

use crate::device::{Device, DeviceStream, InputStream, OutputStream, PlayState, Stream,
    StreamProperties};
use crate::events::{DataFlow, Event, NotificationClient};
use crate::flags::{ChannelMask, StreamFlags};
use crate::format::{map_frame_desc, map_waveformat, spec_frame_desc_wave_format,
    spec_wave_format_frame_desc, spec_wave_format_recognized, Format, FrameDesc, SampleDesc,
    SharingMode};
use crate::registry::{spec_in_pass, EndpointDesc, PhysicalDeviceProperties, Registry,
    spec_event_applied};
use crate::session::Session;
use crate::Error;

verus! {

/// Which backend family serves this instance.
#[derive(Clone, Copy, PartialEq, Eq, Structural, Debug)]
pub enum DriverId {
    /// The Windows session audio engine.
    Wasapi,
}

/// How the backend hands buffers to the application.
#[derive(Clone, Copy, PartialEq, Eq, Structural, Debug)]
pub enum StreamMode {
    /// The application polls: it drives the submit cycle itself.
    Polling,
    /// The backend calls back when a buffer is ready.
    Callback,
}

/// Which sharing modes a backend offers.
#[derive(Clone, Copy, PartialEq, Eq, Structural, Debug)]
pub struct SharingModeFlags {
    /// Shared operation is offered.
    pub concurrent: bool,
    /// Exclusive operation is offered.
    pub exclusive: bool,
}

/// The static capability report of the backend.
#[derive(Clone, Copy, PartialEq, Eq, Structural, Debug)]
pub struct InstanceProperties {
    /// Which backend family serves this instance.
    pub driver_id: DriverId,
    /// Whether the caller polls for buffers or is called back.
    pub stream_mode: StreamMode,
    /// Which sharing modes the backend offers.
    pub sharing: SharingModeFlags,
}

/// What a device is opened with: which physical device, the sharing mode,
/// and the sample descriptor (format and rate; channels come separately,
/// per direction).
#[derive(Clone, Copy, PartialEq, Eq, Structural, Debug)]
pub struct DeviceDesc {
    /// The registry handle of the physical device to open.
    pub physical_device: usize,
    /// Exclusive or shared operation.
    pub sharing: SharingMode,
    /// Sample format and rate.
    pub sample_desc: SampleDesc,
}

/// The channel masks requested per direction. At most one of the two may be
/// non-empty: duplex is explicitly unsupported and is rejected.
#[derive(Clone, Copy, PartialEq, Eq, Structural, Debug)]
pub struct Channels {
    /// The capture-side mask.
    pub input: ChannelMask,
    /// The render-side mask.
    pub output: ChannelMask,
}

/// One snapshot of the OS engine's endpoint world, taken by the platform
/// layer when the instance is created: the capture and render enumeration
/// passes and the current default endpoint id per direction.
#[derive(Debug)]
pub struct EngineSnapshot {
    /// The capture-side enumeration pass.
    pub capture: Vec<EndpointDesc>,
    /// The render-side enumeration pass.
    pub render: Vec<EndpointDesc>,
    /// The default capture endpoint's id, if the OS reports one.
    pub default_input: Option<String>,
    /// The default render endpoint's id, if the OS reports one.
    pub default_output: Option<String>,
}

/// The process-scoped root object.
#[derive(Debug)]
pub struct Instance {
    /// The physical-device registry.
    pub registry: Registry,
    /// The installed hot-plug listener and its event queue.
    pub notifier: NotificationClient,
    /// The default capture endpoint id the OS last reported.
    pub default_input: Option<String>,
    /// The default render endpoint id the OS last reported.
    pub default_output: Option<String>,
}

impl Instance {
    /// The backend's static capability report: the caller polls for
    /// buffers, and both sharing modes are offered.
    pub fn properties() -> (r: InstanceProperties)
        ensures
            r == (InstanceProperties {
                driver_id: DriverId::Wasapi,
                stream_mode: StreamMode::Polling,
                sharing: SharingModeFlags { concurrent: true, exclusive: true },
            }),
    {
        InstanceProperties {
            driver_id: DriverId::Wasapi,
            stream_mode: StreamMode::Polling,
            sharing: SharingModeFlags { concurrent: true, exclusive: true },
        }
    }

    /// Creates the instance from one engine snapshot: merges the capture
    /// pass, then the render pass, into the registry, installs the listener
    /// with an empty queue, and records the default endpoints.
    ///
    /// Merging the same physical id across the two passes yields exactly
    /// one registry entry (ids stay unique) whose capability flags are the
    /// bitwise OR of both passes' flags: every record's flags read exactly
    /// "reported by capture, reported by render".
    pub fn create(name: &str, snapshot: EngineSnapshot) -> (r: Instance)
        ensures
            r.registry.wf(),
            r.notifier.tx.queued@ =~= Seq::<Event>::empty(),
            // the defaults are taken from the snapshot
            r.default_input == snapshot.default_input,
            r.default_output == snapshot.default_output,
            // every enumerated id is registered
            forall|k: int|
                0 <= k < snapshot.capture@.len() ==> r.registry.contains_id(
                    (#[trigger] snapshot.capture@[k]).id@,
                ),
            forall|k: int|
                0 <= k < snapshot.render@.len() ==> r.registry.contains_id(
                    (#[trigger] snapshot.render@[k]).id@,
                ),
            // each record carries exactly the OR of the two passes' flags
            forall|i: int|
                0 <= i < r.registry.devices@.len() ==> {
                    let d = #[trigger] r.registry.devices@[i];
                    d.streams == (StreamFlags {
                        input: spec_in_pass(snapshot.capture@, d.id@),
                        output: spec_in_pass(snapshot.render@, d.id@),
                    })
                },
            // and nothing else is registered
            forall|i: int|
                0 <= i < r.registry.devices@.len() ==> spec_in_pass(
                    snapshot.capture@,
                    (#[trigger] r.registry.devices@[i]).id@,
                ) || spec_in_pass(snapshot.render@, r.registry.devices@[i].id@),
    {
        let _ = name;
        let mut registry = Registry::new();
        registry.merge_pass(&snapshot.capture, StreamFlags::input_flag());
        let ghost mid = registry;
        registry.merge_pass(&snapshot.render, StreamFlags::output_flag());

        proof {
            // after the capture pass, the registry holds exactly the
            // capture ids, each flagged input-only
            assert(forall|i: int|
                0 <= i < mid.devices@.len() ==> (#[trigger] mid.devices@[i]).streams == (
                StreamFlags { input: true, output: false }) && spec_in_pass(
                    snapshot.capture@,
                    mid.devices@[i].id@,
                ));
            assert(forall|id: Seq<char>|
                #[trigger] mid.contains_id(id) ==> spec_in_pass(snapshot.capture@, id));
            assert forall|i: int| 0 <= i < registry.devices@.len() implies {
                let d = #[trigger] registry.devices@[i];
                d.streams == (StreamFlags {
                    input: spec_in_pass(snapshot.capture@, d.id@),
                    output: spec_in_pass(snapshot.render@, d.id@),
                })
            } by {
                let d = registry.devices@[i];
                if i < mid.devices@.len() {
                    assert(mid.contains_id(mid.devices@[i].id@));
                } else {
                    assert(spec_in_pass(snapshot.render@, d.id@));
                }
            }
        }

        Instance {
            registry,
            notifier: NotificationClient::new(),
            default_input: snapshot.default_input,
            default_output: snapshot.default_output,
        }
    }

    /// The handles of the currently usable physical devices, in insertion
    /// order: exactly the records whose state is active.
    pub fn enumerate_physical_devices(&self) -> (r: Vec<usize>)
        ensures
            forall|p: int|
                0 <= p < r@.len() ==> (#[trigger] r@[p]) < self.registry.devices@.len()
                    && self.registry.devices@[r@[p] as int].state is Active,
            forall|j: int|
                0 <= j < self.registry.devices@.len() && (
                #[trigger] self.registry.devices@[j]).state is Active ==> exists|p: int|
                    0 <= p < r@.len() && #[trigger] r@[p] == j,
            forall|p: int, q: int| 0 <= p < q < r@.len() ==> #[trigger] r@[p] < #[trigger] r@[q],
    {
        self.registry.list_active()
    }

    /// The registry handle of the default capture endpoint: `Ok(None)` when
    /// the OS reports no default, and `NotFound` when the OS reports a
    /// device that is not present in the registry.
    pub fn default_physical_input_device(&self) -> (r: Result<Option<usize>, Error>)
        ensures
            self.default_input is None ==> r == Result::<Option<usize>, Error>::Ok(None),
            self.default_input is Some ==> {
                &&& r is Ok <==> self.registry.contains_id(self.default_input->0@)
                &&& r is Ok ==> r->Ok_0 is Some && r->Ok_0->0 < self.registry.devices@.len()
                    && self.registry.devices@[r->Ok_0->0 as int].id@ == self.default_input->0@
                &&& r is Err ==> r->Err_0 == Error::NotFound
            },
    {
        match &self.default_input {
            None => Ok(None),
            Some(id) => match self.registry.find_by_id(id) {
                Some(i) => Ok(Some(i)),
                None => Err(Error::NotFound),
            },
        }
    }

    /// The registry handle of the default render endpoint: `Ok(None)` when
    /// the OS reports no default, and `NotFound` when the OS reports a
    /// device that is not present in the registry.
    pub fn default_physical_output_device(&self) -> (r: Result<Option<usize>, Error>)
        ensures
            self.default_output is None ==> r == Result::<Option<usize>, Error>::Ok(None),
            self.default_output is Some ==> {
                &&& r is Ok <==> self.registry.contains_id(self.default_output->0@)
                &&& r is Ok ==> r->Ok_0 is Some && r->Ok_0->0 < self.registry.devices@.len()
                    && self.registry.devices@[r->Ok_0->0 as int].id@ == self.default_output->0@
                &&& r is Err ==> r->Err_0 == Error::NotFound
            },
    {
        match &self.default_output {
            None => Ok(None),
            Some(id) => match self.registry.find_by_id(id) {
                Some(i) => Ok(Some(i)),
                None => Err(Error::NotFound),
            },
        }
    }

    /// The static report of one physical device: its friendly name and its
    /// merged capability flags. Fails with `Validation` when the handle is
    /// stale or unknown.
    pub fn physical_device_properties(&self, physical_device: usize) -> (r: Result<
        PhysicalDeviceProperties,
        Error,
    >)
        ensures
            r is Ok <==> physical_device < self.registry.devices@.len(),
            r is Ok ==> {
                let d = self.registry.devices@[physical_device as int];
                r->Ok_0.device_name@ == d.name@ && r->Ok_0.streams == d.streams
            },
            r is Err ==> r->Err_0 == Error::Validation,
    {
        if physical_device >= self.registry.len() {
            return Err(Error::Validation);
        }
        let device = &self.registry.devices[physical_device];
        Ok(PhysicalDeviceProperties { device_name: device.name.clone(), streams: device.streams })
    }

    /// Why a device request is rejected, checked in this order: duplex
    /// channels first (before any native resource is touched), then a
    /// stale handle, an endpoint that was never activated, a byte rate
    /// beyond the native descriptor's field, an unsupported sample format,
    /// and finally an engine mix format this design does not recognize.
    pub open spec fn spec_create_device_error(
        self,
        desc: DeviceDesc,
        channels: Channels,
    ) -> Option<Error> {
        let mask = if !channels.input.spec_is_empty() {
            channels.input
        } else {
            channels.output
        };
        if !channels.input.spec_is_empty() && !channels.output.spec_is_empty() {
            Some(Error::Validation)
        } else if desc.physical_device >= self.registry.devices@.len() {
            Some(Error::NotFound)
        } else if self.registry.devices@[desc.physical_device as int].audio_client is None {
            Some(Error::Validation)
        } else if mask.spec_num_channels() * desc.sample_desc.sample_rate * 4 > u32::MAX {
            Some(Error::Validation)
        } else if !(desc.sample_desc.format is F32) {
            Some(Error::Validation)
        } else if !spec_wave_format_recognized(
            self.registry.devices@[desc.physical_device as int].audio_client->0.mix_format,
        ) {
            Some(Error::Validation)
        } else {
            None
        }
    }

    /// Opens a device on one physical endpoint, bound to one direction.
    ///
    /// The no-duplex invariant is validated first: a request with both
    /// channel masks non-empty always fails with `Validation`, whatever the
    /// rest of the request holds, before any native resource is opened.
    /// Negotiation is exact: an unsupported format is rejected, never
    /// approximated. On success the device starts in the created state with
    /// a fresh, unsignaled fence, an empty exchange, and stream properties
    /// read back from the engine's mix format and buffer capacity.
    pub fn create_device(&self, desc: DeviceDesc, channels: Channels) -> (r: Result<Device, Error>)
        ensures
            !channels.input.spec_is_empty() && !channels.output.spec_is_empty() ==> r
                == Result::<Device, Error>::Err(Error::Validation),
            r is Err <==> self.spec_create_device_error(desc, channels) is Some,
            r is Err ==> Some(r->Err_0) == self.spec_create_device_error(desc, channels),
            r is Ok ==> {
                let d = r->Ok_0;
                let client = self.registry.devices@[
                    desc.physical_device as int
                ].audio_client->0;
                &&& d.wf()
                &&& d.state is Created
                &&& (d.device_stream is Input <==> !channels.input.spec_is_empty())
                &&& d.device_stream.spec_acquired() is None
                &&& !d.device_stream.spec_signaled()
                &&& d.device_stream.spec_buffer_size() == client.buffer_size
                &&& d.stream.properties == (StreamProperties {
                    channels: spec_wave_format_frame_desc(client.mix_format).channels,
                    sample_rate: client.mix_format.samples_per_sec,
                    buffer_size: client.buffer_size,
                })
                &&& (d.device_stream is Output ==> d.device_stream->Output_0.padding == 0)
                &&& (d.device_stream is Input ==> d.device_stream->Input_0.packets@.len() == 0)
            },
    {
        if !channels.input.is_empty() && !channels.output.is_empty() {
            // no duplex
            return Err(Error::Validation);
        }

        if desc.physical_device >= self.registry.len() {
            return Err(Error::NotFound);
        }
        let physical_device = &self.registry.devices[desc.physical_device];
        let client = match &physical_device.audio_client {
            Some(client) => client,
            None => {
                return Err(Error::Validation);
            }
        };

        let is_input = !channels.input.is_empty();
        let mask = if is_input {
            channels.input
        } else {
            channels.output
        };
        let num_channels = mask.num_channels();
        proof {
            assert((num_channels as int) * (desc.sample_desc.sample_rate as int) * 4 < 0x10_0000_0000_0000int)
                by (nonlinear_arith)
                requires
                    num_channels <= 3,
                    desc.sample_desc.sample_rate <= u32::MAX,
            ;
        }
        if (num_channels as u64) * (desc.sample_desc.sample_rate as u64) * 4 > u32::MAX as u64 {
            return Err(Error::Validation);
        }

        let frame_desc = FrameDesc {
            format: desc.sample_desc.format,
            channels: mask,
            sample_rate: desc.sample_desc.sample_rate,
        };
        // negotiate: the encoded descriptor is what the engine's initialize
        // call takes; an unsupported format fails here, before any native
        // resource is opened
        if map_frame_desc(&frame_desc).is_none() {
            return Err(Error::Validation);
        }

        // the stream properties are read back from the engine, not assumed
        // from the request
        let engine_desc = match map_waveformat(&client.mix_format) {
            Ok(engine_desc) => engine_desc,
            Err(e) => {
                return Err(e);
            }
        };

        let buffer_size = client.buffer_size;
        let stream = Stream {
            properties: StreamProperties {
                channels: engine_desc.channels,
                sample_rate: engine_desc.sample_rate,
                buffer_size,
            },
        };
        let device_stream = if is_input {
            DeviceStream::Input(InputStream::new(buffer_size))
        } else {
            DeviceStream::Output(OutputStream::new(buffer_size))
        };

        Ok(Device { state: PlayState::Created, device_stream, stream })
    }

    /// Asks whether the endpoint supports this exact frame description
    /// under this sharing mode. Negotiation is exact-match: the engine's
    /// closest-match offers count as unsupported, because real-time buffers
    /// are pre-sized for one negotiated layout. In this design the engine
    /// validates a request exactly when it encodes to the endpoint's own
    /// mix format, in either sharing mode.
    pub fn physical_device_supports_format(
        &self,
        physical_device: usize,
        sharing: SharingMode,
        frame_desc: FrameDesc,
    ) -> (r: bool)
        ensures
            r <==> {
                &&& physical_device < self.registry.devices@.len()
                &&& self.registry.devices@[physical_device as int].audio_client is Some
                &&& frame_desc.format is F32
                &&& frame_desc.spec_num_channels() * frame_desc.sample_rate * 4 <= u32::MAX
                &&& spec_frame_desc_wave_format(frame_desc) == self.registry.devices@[
                    physical_device as int
                ].audio_client->0.mix_format
            },
    {
        let _ = sharing;
        if physical_device >= self.registry.len() {
            return false;
        }
        let client = match &self.registry.devices[physical_device].audio_client {
            Some(client) => client,
            None => {
                return false;
            }
        };
        let num_channels = frame_desc.num_channels();
        proof {
            assert((num_channels as int) * (frame_desc.sample_rate as int) * 4 < 0x10_0000_0000_0000int)
                by (nonlinear_arith)
                requires
                    num_channels <= 3,
                    frame_desc.sample_rate <= u32::MAX,
            ;
        }
        if (num_channels as u64) * (frame_desc.sample_rate as u64) * 4 > u32::MAX as u64 {
            return false;
        }
        let wave_format = match map_frame_desc(&frame_desc) {
            Some(wave_format) => wave_format,
            None => {
                return false;
            }
        };
        wave_format == client.mix_format
    }

    /// Enters a real-time session: the calling thread's priority is raised
    /// for audio work at this sample rate until the session value ends.
    /// Fails with `Validation` when the rate does not fit the service's
    /// field, and with `Unavailable` when the OS declines the elevation.
    pub fn create_session(&self, sample_rate: usize) -> (r: Result<Session, Error>)
        ensures
            sample_rate > u32::MAX ==> r == Result::<Session, Error>::Err(Error::Validation),
            r is Err ==> r->Err_0 == Error::Validation || r->Err_0 == Error::Unavailable,
            r is Err && sample_rate <= u32::MAX ==> r->Err_0 == Error::Unavailable,
            r is Ok ==> r->Ok_0.spec_active() && r->Ok_0.sample_rate_hint == sample_rate,
    {
        Session::promote(sample_rate)
    }

    /// Drains the event queue without blocking: returns the queued events
    /// in arrival order and leaves the queue empty. Nothing else changes —
    /// draining an empty queue is a no-op that returns no events. The
    /// single consumer hands each event on, typically to `apply_event`.
    pub fn poll_events(&mut self) -> (r: Vec<Event>)
        ensures
            r@ =~= old(self).notifier.tx.queued@,
            final(self).notifier.tx.queued@ =~= Seq::<Event>::empty(),
            final(self).registry == old(self).registry,
            final(self).default_input == old(self).default_input,
            final(self).default_output == old(self).default_output,
    {
        let mut drained: Vec<Event> = Vec::new();
        while self.notifier.tx.len() > 0
            invariant
                drained@ + self.notifier.tx.queued@ =~= old(self).notifier.tx.queued@,
                self.registry == old(self).registry,
                self.default_input == old(self).default_input,
                self.default_output == old(self).default_output,
            decreases self.notifier.tx.queued@.len(),
        {
            match self.notifier.tx.pop_front() {
                Some(event) => {
                    drained.push(event);
                }
                None => {}
            }
        }
        drained
    }

    /// Applies one drained event: the registry changes as the event says,
    /// and a default-device notification updates the tracked default id of
    /// its direction.
    pub fn apply_event(&mut self, event: &Event)
        requires
            old(self).registry.wf(),
        ensures
            final(self).registry.wf(),
            spec_event_applied(
                old(self).registry.devices@,
                *event,
                final(self).registry.devices@,
            ),
            final(self).notifier.tx.queued@ =~= old(self).notifier.tx.queued@,
            match *event {
                Event::Default { ref device, flow } => {
                    if flow is Capture {
                        final(self).default_input is Some && final(self).default_input->0@
                            == device@ && final(self).default_output == old(self).default_output
                    } else {
                        final(self).default_output is Some && final(self).default_output->0@
                            == device@ && final(self).default_input == old(self).default_input
                    }
                },
                _ => final(self).default_input == old(self).default_input && final(self).default_output == old(self).default_output,
            },
    {
        self.registry.apply_event(event);
        match event {
            Event::Default { device, flow } => {
                match flow {
                    DataFlow::Capture => {
                        self.default_input = Some(device.clone());
                    }
                    DataFlow::Render => {
                        self.default_output = Some(device.clone());
                    }
                }
            }
            _ => {}
        }
    }

    /// Destroys a device, releasing its native handle and fence exactly
    /// once.
    pub fn destroy_device(&self, device: Device) {
        device.destroy()
    }
}

} // verus!
