//! Format negotiation: encoding, decoding, and the round trip.

use audir::flags::ChannelMask;
use audir::format::{
    map_frame_desc, map_sample_desc, map_sharing_mode, map_waveformat, Format, FrameDesc,
    SampleDesc, SharingMode, SubFormat, WaveFormat,
};

fn stereo_mask() -> ChannelMask {
    ChannelMask { front_left: true, front_right: true, front_center: false }
}

fn stereo_float_48k_wave_format() -> WaveFormat {
    WaveFormat {
        format_tag: 0xFFFE,
        channels: 2,
        samples_per_sec: 48_000,
        avg_bytes_per_sec: 384_000,
        block_align: 8,
        bits_per_sample: 32,
        cb_size: 22,
        valid_bits_per_sample: 32,
        channel_mask: 0x3,
        sub_format: SubFormat::IeeeFloat,
    }
}

#[test]
fn frame_desc_round_trip_stereo_48k() {
    let desc = FrameDesc { format: Format::F32, channels: stereo_mask(), sample_rate: 48_000 };
    let encoded = map_frame_desc(&desc).expect("float stereo must encode");
    assert_eq!(encoded, stereo_float_48k_wave_format());
    let decoded = map_waveformat(&encoded).expect("own encoding must decode");
    assert_eq!(decoded, desc);
}

#[test]
fn frame_desc_encodes_exact_fields() {
    let desc = FrameDesc {
        format: Format::F32,
        channels: ChannelMask { front_left: true, front_right: true, front_center: true },
        sample_rate: 44_100,
    };
    let encoded = map_frame_desc(&desc).unwrap();
    assert_eq!(encoded.channels, 3);
    assert_eq!(encoded.samples_per_sec, 44_100);
    assert_eq!(encoded.avg_bytes_per_sec, 3 * 44_100 * 4);
    assert_eq!(encoded.block_align, 12);
    assert_eq!(encoded.bits_per_sample, 32);
    assert_eq!(encoded.channel_mask, 0x7);
}

#[test]
fn unsupported_u32_format_is_none() {
    let desc = FrameDesc { format: Format::U32, channels: stereo_mask(), sample_rate: 48_000 };
    assert!(map_frame_desc(&desc).is_none());
}

#[test]
fn decode_rejects_non_extensible_tag() {
    let mut format = stereo_float_48k_wave_format();
    format.format_tag = 1;
    assert_eq!(map_waveformat(&format), Err(audir::Error::Validation));
}

#[test]
fn decode_rejects_pcm_subformat() {
    let mut format = stereo_float_48k_wave_format();
    format.sub_format = SubFormat::Pcm;
    assert_eq!(map_waveformat(&format), Err(audir::Error::Validation));
}

#[test]
fn decode_rejects_narrow_samples() {
    let mut format = stereo_float_48k_wave_format();
    format.valid_bits_per_sample = 16;
    assert_eq!(map_waveformat(&format), Err(audir::Error::Validation));
}

#[test]
fn decode_ignores_unrecognized_mask_bits() {
    let mut format = stereo_float_48k_wave_format();
    format.channel_mask = 0x3 | 0x10;
    let decoded = map_waveformat(&format).unwrap();
    assert_eq!(decoded.channels, stereo_mask());
}

#[test]
fn sample_desc_encodes_without_mask() {
    let desc = SampleDesc { format: Format::F32, sample_rate: 44_100 };
    let encoded = map_sample_desc(&desc, 2).unwrap();
    assert_eq!(encoded.channels, 2);
    assert_eq!(encoded.avg_bytes_per_sec, 352_800);
    assert_eq!(encoded.block_align, 8);
    assert_eq!(encoded.channel_mask, 0);
    assert!(map_sample_desc(&SampleDesc { format: Format::U32, sample_rate: 44_100 }, 2).is_none());
}

#[test]
fn sharing_mode_maps_to_native_values() {
    assert_eq!(map_sharing_mode(SharingMode::Concurrent), 0);
    assert_eq!(map_sharing_mode(SharingMode::Exclusive), 1);
}

#[test]
fn channel_mask_counts_and_bits() {
    let empty = ChannelMask::empty();
    assert!(empty.is_empty());
    assert_eq!(empty.num_channels(), 0);
    assert_eq!(empty.bits(), 0);

    let stereo = stereo_mask();
    assert!(!stereo.is_empty());
    assert_eq!(stereo.num_channels(), 2);
    assert_eq!(stereo.bits(), 0x3);
    assert_eq!(ChannelMask::from_bits(0x3), stereo);

    let center = ChannelMask { front_left: false, front_right: false, front_center: true };
    assert_eq!(center.bits(), 0x4);
    assert_eq!(stereo.union(&center).num_channels(), 3);
}
