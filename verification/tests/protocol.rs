//! The device lifecycle and the acquire/process/release buffer protocol.

use audir::device::{DeviceStream, PlayState};
use audir::events::DeviceState;
use audir::fence::{Fence, WaitStatus};
use audir::flags::ChannelMask;
use audir::format::{Format, FrameDesc, SampleDesc, SharingMode, SubFormat, WaveFormat};
use audir::instance::{Channels, DeviceDesc, EngineSnapshot, Instance, StreamMode};
use audir::Error;

const BUFFER_FRAMES: u32 = 480;

fn mix_format() -> WaveFormat {
    WaveFormat {
        format_tag: 0xFFFE,
        channels: 2,
        samples_per_sec: 48_000,
        avg_bytes_per_sec: 384_000,
        block_align: 8,
        bits_per_sample: 32,
        cb_size: 22,
        valid_bits_per_sample: 32,
        channel_mask: 0x3,
        sub_format: SubFormat::IeeeFloat,
    }
}

fn single_device_instance(state: DeviceState) -> Instance {
    Instance::create(
        "protocol",
        EngineSnapshot {
            capture: vec![audir::registry::EndpointDesc {
                id: "duplex endpoint".to_owned(),
                name: "duplex endpoint".to_owned(),
                state,
                mix_format: mix_format(),
                buffer_size: BUFFER_FRAMES,
            }],
            render: vec![audir::registry::EndpointDesc {
                id: "duplex endpoint".to_owned(),
                name: "duplex endpoint".to_owned(),
                state,
                mix_format: mix_format(),
                buffer_size: BUFFER_FRAMES,
            }],
            default_input: None,
            default_output: None,
        },
    )
}

fn stereo() -> ChannelMask {
    ChannelMask { front_left: true, front_right: true, front_center: false }
}

fn device_desc(format: Format) -> DeviceDesc {
    DeviceDesc {
        physical_device: 0,
        sharing: SharingMode::Concurrent,
        sample_desc: SampleDesc { format, sample_rate: 48_000 },
    }
}

fn output_channels() -> Channels {
    Channels { input: ChannelMask::empty(), output: stereo() }
}

fn input_channels() -> Channels {
    Channels { input: stereo(), output: ChannelMask::empty() }
}

#[test]
fn fence_zero_timeout_never_signaled_times_out() {
    let mut fence = Fence::create(false);
    assert_eq!(fence.wait(0), WaitStatus::Timeout);
}

#[test]
fn fence_signal_is_consumed_by_one_wait() {
    let mut fence = Fence::create(false);
    fence.signal();
    assert_eq!(fence.wait(0), WaitStatus::Signaled);
    assert_eq!(fence.wait(0), WaitStatus::Timeout);
}

#[test]
fn create_device_duplex_is_validation() {
    let instance = single_device_instance(DeviceState::Active);
    let duplex = Channels { input: stereo(), output: stereo() };
    let result = instance.create_device(device_desc(Format::F32), duplex);
    assert!(matches!(result, Err(Error::Validation)));
}

#[test]
fn create_device_u32_is_validation_not_lossy() {
    let instance = single_device_instance(DeviceState::Active);
    let result = instance.create_device(device_desc(Format::U32), output_channels());
    assert!(matches!(result, Err(Error::Validation)));
}

#[test]
fn create_device_unknown_handle_is_not_found() {
    let instance = single_device_instance(DeviceState::Active);
    let mut desc = device_desc(Format::F32);
    desc.physical_device = 7;
    let result = instance.create_device(desc, output_channels());
    assert!(matches!(result, Err(Error::NotFound)));
}

#[test]
fn create_device_on_inactive_endpoint_is_validation() {
    let instance = single_device_instance(DeviceState::Unplugged);
    let result = instance.create_device(device_desc(Format::F32), output_channels());
    assert!(matches!(result, Err(Error::Validation)));
}

#[test]
fn created_device_reports_engine_properties() {
    let instance = single_device_instance(DeviceState::Active);
    let device = instance.create_device(device_desc(Format::F32), output_channels()).unwrap();

    assert_eq!(device.state, PlayState::Created);
    let properties = device.stream().properties();
    assert_eq!(properties.channels, stereo());
    assert_eq!(properties.sample_rate, 48_000);
    assert_eq!(properties.buffer_size, BUFFER_FRAMES);

    let report = device.properties();
    assert_eq!(report.num_channels, 2);
    assert_eq!(report.channel_mask, stereo());
    assert_eq!(report.sample_rate, 48_000);
    assert_eq!(report.buffer_size, BUFFER_FRAMES as u32);
    instance.destroy_device(device);
}

#[test]
fn stop_on_stopped_device_is_noop() {
    let instance = single_device_instance(DeviceState::Active);
    let mut device = instance.create_device(device_desc(Format::F32), output_channels()).unwrap();

    device.start();
    assert_eq!(device.state, PlayState::Started);
    device.stop();
    assert_eq!(device.state, PlayState::Stopped);
    device.stop();
    assert_eq!(device.state, PlayState::Stopped);
    device.start();
    assert_eq!(device.state, PlayState::Started);
}

#[test]
fn output_submit_never_exceeds_capacity() {
    let instance = single_device_instance(DeviceState::Active);
    let mut device = instance.create_device(device_desc(Format::F32), output_channels()).unwrap();
    device.start();

    // nothing signaled yet: the wait elapses, and that is retryable
    assert!(matches!(device.submit_buffers(0), Err(Error::Timeout)));

    // the engine signals room; the first window is the whole buffer
    device.get_output_stream().consume(0);
    let frames = device.submit_buffers(0).unwrap();
    assert_eq!(frames, BUFFER_FRAMES);

    // the buffer is full: a fresh signal offers a zero-frame window
    device.get_output_stream().consume(0);
    assert_eq!(device.submit_buffers(0).unwrap(), 0);

    // the hardware consumes 100 frames; exactly that much room comes back
    device.get_output_stream().consume(100);
    let frames = device.submit_buffers(0).unwrap();
    assert_eq!(frames, 100);
    assert!(frames <= BUFFER_FRAMES);
}

#[test]
fn output_acquire_release_moves_padding() {
    let instance = single_device_instance(DeviceState::Active);
    let mut device = instance.create_device(device_desc(Format::F32), output_channels()).unwrap();
    device.start();

    let stream = device.get_output_stream();
    assert_eq!(stream.padding, 0);
    stream.consume(0);
    let buffers = stream.acquire_buffer(0).unwrap();
    assert_eq!(buffers.frames, BUFFER_FRAMES);
    assert_eq!(stream.padding, 0);
    stream.release_buffer(buffers.frames);
    // after release, the padding reflects the newly queued frames
    assert_eq!(stream.padding, BUFFER_FRAMES);

    stream.consume(64);
    assert_eq!(stream.padding, BUFFER_FRAMES - 64);
    let buffers = stream.acquire_buffer(0).unwrap();
    assert_eq!(buffers.frames, 64);
    stream.release_buffer(buffers.frames);
    assert_eq!(stream.padding, BUFFER_FRAMES);
}

#[test]
fn device_level_acquire_release_cycle() {
    let instance = single_device_instance(DeviceState::Active);
    let mut device = instance.create_device(device_desc(Format::F32), output_channels()).unwrap();
    device.start();

    device.get_output_stream().consume(0);
    let buffers = device.acquire_buffers(0).unwrap();
    assert_eq!(buffers.frames, BUFFER_FRAMES);
    device.release_buffers(buffers.frames);
    assert_eq!(device.get_output_stream().padding, BUFFER_FRAMES);

    // a mismatched release count is a programming error, so the protocol
    // is exercised only with the exact acquired count
    device.get_output_stream().consume(32);
    let buffers = device.acquire_buffers(0).unwrap();
    assert_eq!(buffers.frames, 32);
    device.release_buffers(buffers.frames);
    assert_eq!(device.get_output_stream().padding, BUFFER_FRAMES);
}

#[test]
fn input_packets_are_drained_in_order() {
    let instance = single_device_instance(DeviceState::Active);
    let mut device = instance.create_device(device_desc(Format::F32), input_channels()).unwrap();
    assert!(matches!(device.device_stream, DeviceStream::Input(_)));
    device.start();

    let stream = device.get_input_stream();
    stream.deliver_packet(128);
    stream.deliver_packet(64);

    let buffers = stream.acquire_buffer(0).unwrap();
    assert_eq!(buffers.frames, 128);
    stream.release_buffer(buffers.frames);

    // the second packet is already there, but the signal was consumed:
    // the next wait must see a fresh signal
    assert!(matches!(stream.acquire_buffer(0), Err(Error::Timeout)));
    stream.fence.signal();
    let buffers = stream.acquire_buffer(0).unwrap();
    assert_eq!(buffers.frames, 64);
    stream.release_buffer(buffers.frames);
}

#[test]
fn input_signal_without_packet_yields_empty_window() {
    let instance = single_device_instance(DeviceState::Active);
    let mut device = instance.create_device(device_desc(Format::F32), input_channels()).unwrap();
    device.start();

    let stream = device.get_input_stream();
    stream.fence.signal();
    let buffers = stream.acquire_buffer(0).unwrap();
    assert_eq!(buffers.frames, 0);
    stream.release_buffer(0);
}

#[test]
fn submit_timeout_is_retryable() {
    let instance = single_device_instance(DeviceState::Active);
    let mut device = instance.create_device(device_desc(Format::F32), output_channels()).unwrap();
    device.start();

    assert!(matches!(device.submit_buffers(0), Err(Error::Timeout)));
    assert!(matches!(device.submit_buffers(0), Err(Error::Timeout)));
    device.get_output_stream().consume(0);
    assert!(device.submit_buffers(0).is_ok());
}

#[test]
fn supports_format_is_exact_match() {
    let instance = single_device_instance(DeviceState::Active);
    let supported = FrameDesc { format: Format::F32, channels: stereo(), sample_rate: 48_000 };
    assert!(instance.physical_device_supports_format(0, SharingMode::Concurrent, supported));
    assert!(instance.physical_device_supports_format(0, SharingMode::Exclusive, supported));

    let wrong_rate = FrameDesc { format: Format::F32, channels: stereo(), sample_rate: 44_100 };
    assert!(!instance.physical_device_supports_format(0, SharingMode::Concurrent, wrong_rate));

    let wrong_format = FrameDesc { format: Format::U32, channels: stereo(), sample_rate: 48_000 };
    assert!(!instance.physical_device_supports_format(0, SharingMode::Concurrent, wrong_format));

    assert!(!instance.physical_device_supports_format(9, SharingMode::Concurrent, supported));
}

#[test]
fn instance_reports_polling_and_both_sharing_modes() {
    let properties = Instance::properties();
    assert_eq!(properties.stream_mode, StreamMode::Polling);
    assert!(properties.sharing.concurrent);
    assert!(properties.sharing.exclusive);
}

#[test]
fn session_scope_is_active_until_ended() {
    let instance = single_device_instance(DeviceState::Active);
    // whether the OS grants real-time scheduling depends on the machine;
    // the session contract covers both outcomes
    match instance.create_session(48_000) {
        Ok(session) => {
            assert!(session.is_active());
            assert_eq!(session.sample_rate_hint, 48_000);
            session.end();
        }
        Err(e) => assert_eq!(e, audir::Error::Unavailable),
    }
}

#[test]
fn session_zero_rate_is_unavailable() {
    let instance = single_device_instance(DeviceState::Active);
    // the service itself declines a zero rate, so no elevation is in force
    match instance.create_session(0) {
        Ok(_) => panic!("a zero-rate session must be declined"),
        Err(e) => assert_eq!(e, Error::Unavailable),
    }
}

#[test]
fn session_rate_beyond_field_is_validation() {
    let instance = single_device_instance(DeviceState::Active);
    match instance.create_session(u32::MAX as usize + 1) {
        Ok(_) => panic!("an oversized rate must be declined"),
        Err(e) => assert_eq!(e, Error::Validation),
    }
}
