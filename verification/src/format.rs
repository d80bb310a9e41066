//! Format negotiation: translating an abstract frame description to and from
//! the native format descriptor exchanged with the OS audio engine.

use vstd::prelude::*;

use crate::flags::ChannelMask;
use crate::Error;

verus! {

/// The native format tag that marks an extensible descriptor.
pub const WAVE_FORMAT_EXTENSIBLE: u16 = 0xFFFE;

/// The size of the extensible tail that follows the base descriptor fields.
pub const WAVE_FORMAT_EXTENSIBLE_CB_SIZE: u16 = 22;

/// The native shared sharing-mode value.
pub const AUDCLNT_SHAREMODE_SHARED: u32 = 0;
/// The native exclusive sharing-mode value.
pub const AUDCLNT_SHAREMODE_EXCLUSIVE: u32 = 1;

/// A sample format.
#[derive(Clone, Copy, PartialEq, Eq, Structural, Debug)]
pub enum Format {
    /// 32-bit IEEE float samples: the one format this design supports.
    F32,
    /// 32-bit unsigned samples: an explicit non-goal, surfaced as
    /// unsupported rather than converted.
    U32,
}

/// The sub-format identity carried by an extensible native descriptor,
/// standing for the data-format GUID of the platform.
#[derive(Clone, Copy, PartialEq, Eq, Structural, Debug)]
pub enum SubFormat {
    /// IEEE floating-point samples.
    IeeeFloat,
    /// Integer PCM samples.
    Pcm,
    /// Any other sub-format: not recognized by this design.
    Unknown,
}

/// An abstract frame description: what one frame of the stream holds.
#[derive(Clone, Copy, PartialEq, Eq, Structural, Debug)]
pub struct FrameDesc {
    /// The sample format.
    pub format: Format,
    /// The set of speaker positions; one sample per position and frame.
    pub channels: ChannelMask,
    /// Sample rate in Hz.
    pub sample_rate: u32,
}

impl FrameDesc {
    /// The channel count derived from the position mask.
    pub open spec fn spec_num_channels(self) -> int {
        self.channels.spec_num_channels()
    }

    /// The channel count derived from the position mask.
    pub fn num_channels(&self) -> (n: u16)
        ensures
            n == self.spec_num_channels(),
            n <= 3,
    {
        self.channels.num_channels()
    }
}

/// A sample description without channel positions: format and rate alone.
/// The channels are supplied separately, per direction.
#[derive(Clone, Copy, PartialEq, Eq, Structural, Debug)]
pub struct SampleDesc {
    /// The sample format.
    pub format: Format,
    /// Sample rate in Hz.
    pub sample_rate: u32,
}

/// How the opened stream shares the endpoint with other clients.
#[derive(Clone, Copy, PartialEq, Eq, Structural, Debug)]
pub enum SharingMode {
    /// The application owns the hardware format exclusively.
    Exclusive,
    /// The OS mixes multiple clients.
    Concurrent,
}

/// The native format descriptor exchanged with the OS engine: format tag,
/// channel count, sample rate, derived byte rate, block alignment,
/// bits per sample, and the channel-position bitmask of the extensible tail.
#[derive(Clone, Copy, PartialEq, Eq, Structural, Debug)]
pub struct WaveFormat {
    /// The format tag; an extensible descriptor carries
    /// `WAVE_FORMAT_EXTENSIBLE`.
    pub format_tag: u16,
    /// Channels per frame.
    pub channels: u16,
    /// Sample rate in Hz.
    pub samples_per_sec: u32,
    /// Derived byte rate: `channels * samples_per_sec * bytes per sample`.
    pub avg_bytes_per_sec: u32,
    /// Derived frame stride in bytes: `channels * bytes per sample`.
    pub block_align: u16,
    /// Bits in one sample slot.
    pub bits_per_sample: u16,
    /// Size of the extensible tail in bytes.
    pub cb_size: u16,
    /// Valid bits in one sample of the extensible tail.
    pub valid_bits_per_sample: u16,
    /// The speaker-position bitmask.
    pub channel_mask: u32,
    /// The data-format identity of the extensible tail.
    pub sub_format: SubFormat,
}

/// The native descriptor that a frame description encodes to, defined for
/// the supported format.
pub open spec fn spec_frame_desc_wave_format(desc: FrameDesc) -> WaveFormat {
    WaveFormat {
        format_tag: WAVE_FORMAT_EXTENSIBLE,
        channels: desc.spec_num_channels() as u16,
        samples_per_sec: desc.sample_rate,
        avg_bytes_per_sec: (desc.spec_num_channels() * desc.sample_rate * 4) as u32,
        block_align: (desc.spec_num_channels() * 4) as u16,
        bits_per_sample: 32,
        cb_size: WAVE_FORMAT_EXTENSIBLE_CB_SIZE,
        valid_bits_per_sample: 32,
        channel_mask: desc.channels.spec_bits(),
        sub_format: SubFormat::IeeeFloat,
    }
}

/// Encodes a frame description to a native descriptor. Only `F32` is
/// supported; any other requested format is surfaced as unsupported
/// (`None`) rather than approximated.
pub fn map_frame_desc(frame_desc: &FrameDesc) -> (r: Option<WaveFormat>)
    requires
        frame_desc.spec_num_channels() * frame_desc.sample_rate * 4 <= u32::MAX,
    ensures
        r is Some <==> frame_desc.format is F32,
        r is Some ==> r->0 == spec_frame_desc_wave_format(*frame_desc),
{
    match frame_desc.format {
        Format::F32 => {}
        Format::U32 => {
            return None;
        }
    }

    let num_channels = frame_desc.num_channels();
    let byte_rate = (num_channels as u64) * (frame_desc.sample_rate as u64) * 4;

    Some(WaveFormat {
        format_tag: WAVE_FORMAT_EXTENSIBLE,
        channels: num_channels,
        samples_per_sec: frame_desc.sample_rate,
        avg_bytes_per_sec: byte_rate as u32,
        block_align: num_channels * 4,
        bits_per_sample: 32,
        cb_size: WAVE_FORMAT_EXTENSIBLE_CB_SIZE,
        valid_bits_per_sample: 32,
        channel_mask: frame_desc.channels.bits(),
        sub_format: SubFormat::IeeeFloat,
    })
}

/// Encodes a sample description with a bare channel count (no position
/// mask) to a native descriptor; the mask field stays empty.
pub fn map_sample_desc(sample_desc: &SampleDesc, channels: u16) -> (r: Option<WaveFormat>)
    requires
        channels * 4 <= u16::MAX,
        channels * sample_desc.sample_rate * 4 <= u32::MAX,
    ensures
        r is Some <==> sample_desc.format is F32,
        r is Some ==> r->0 == (WaveFormat {
            format_tag: WAVE_FORMAT_EXTENSIBLE,
            channels,
            samples_per_sec: sample_desc.sample_rate,
            avg_bytes_per_sec: (channels * sample_desc.sample_rate * 4) as u32,
            block_align: (channels * 4) as u16,
            bits_per_sample: 32,
            cb_size: WAVE_FORMAT_EXTENSIBLE_CB_SIZE,
            valid_bits_per_sample: 32,
            channel_mask: 0,
            sub_format: SubFormat::IeeeFloat,
        }),
{
    match sample_desc.format {
        Format::F32 => {}
        Format::U32 => {
            return None;
        }
    }

    let byte_rate = (channels as u64) * (sample_desc.sample_rate as u64) * 4;

    Some(WaveFormat {
        format_tag: WAVE_FORMAT_EXTENSIBLE,
        channels,
        samples_per_sec: sample_desc.sample_rate,
        avg_bytes_per_sec: byte_rate as u32,
        block_align: channels * 4,
        bits_per_sample: 32,
        cb_size: WAVE_FORMAT_EXTENSIBLE_CB_SIZE,
        valid_bits_per_sample: 32,
        channel_mask: 0,
        sub_format: SubFormat::IeeeFloat,
    })
}

/// True when a native descriptor is a recognized layout: an extensible
/// descriptor of 32-bit IEEE float samples.
pub open spec fn spec_wave_format_recognized(format: WaveFormat) -> bool {
    format.format_tag == WAVE_FORMAT_EXTENSIBLE && format.sub_format is IeeeFloat
        && format.valid_bits_per_sample == 32
}

/// The frame description a recognized native descriptor decodes to.
pub open spec fn spec_wave_format_frame_desc(format: WaveFormat) -> FrameDesc {
    FrameDesc {
        format: Format::F32,
        channels: ChannelMask::spec_from_bits(format.channel_mask),
        sample_rate: format.samples_per_sec,
    }
}

/// Decodes a native descriptor back to a frame description. Fails with
/// `Validation` when the descriptor is not a recognized extensible layout.
pub fn map_waveformat(format: &WaveFormat) -> (r: Result<FrameDesc, Error>)
    ensures
        r is Ok <==> spec_wave_format_recognized(*format),
        r is Ok ==> r->Ok_0 == spec_wave_format_frame_desc(*format),
        r is Err ==> r->Err_0 == Error::Validation,
{
    if format.format_tag != WAVE_FORMAT_EXTENSIBLE {
        return Err(Error::Validation);
    }
    let float_sub = match format.sub_format {
        SubFormat::IeeeFloat => true,
        _ => false,
    };
    if !(float_sub && format.valid_bits_per_sample == 32) {
        return Err(Error::Validation);
    }

    Ok(FrameDesc {
        format: Format::F32,
        channels: ChannelMask::from_bits(format.channel_mask),
        sample_rate: format.samples_per_sec,
    })
}

/// Maps the abstract sharing mode to the native sharing-mode value.
pub fn map_sharing_mode(sharing: SharingMode) -> (r: u32)
    ensures
        sharing is Exclusive ==> r == AUDCLNT_SHAREMODE_EXCLUSIVE,
        sharing is Concurrent ==> r == AUDCLNT_SHAREMODE_SHARED,
{
    match sharing {
        SharingMode::Exclusive => AUDCLNT_SHAREMODE_EXCLUSIVE,
        SharingMode::Concurrent => AUDCLNT_SHAREMODE_SHARED,
    }
}

/// Round trip: every supported frame description, encoded to a native
/// descriptor and decoded back, yields an equal frame description.
pub proof fn lemma_frame_desc_round_trip(desc: FrameDesc)
    requires
        desc.format is F32,
    ensures
        spec_wave_format_recognized(spec_frame_desc_wave_format(desc)),
        spec_wave_format_frame_desc(spec_frame_desc_wave_format(desc)) == desc,
{
    crate::flags::lemma_channel_mask_bits_round_trip(desc.channels);
}

} // verus!
