use audio_relay::error::Error;
use audio_relay::format::{AudioFormat, WIRE_BYTES_PER_SAMPLE};

#[test]
fn wire_format_is_48k_16_bit_stereo() {
    let wire: AudioFormat = AudioFormat::wire();
    assert_eq!(wire.sample_rate, 48000u32);
    assert_eq!(wire.bits_per_sample, 16u16);
    assert_eq!(wire.channel_count, 2u16);
    assert!(wire.is_supported());
    assert_eq!(WIRE_BYTES_PER_SAMPLE, 2u32);
}

#[test]
fn frame_size_is_channels_times_bytes_per_sample() {
    assert_eq!(AudioFormat::wire().frame_size(), 4u32);
    let float_stereo = AudioFormat { sample_rate: 48000, bits_per_sample: 32, channel_count: 2 };
    assert_eq!(float_stereo.frame_size(), 8u32);
    assert_eq!(float_stereo.wire_frame_size(), 4u32);
    let mono = AudioFormat { sample_rate: 44100, bits_per_sample: 16, channel_count: 1 };
    assert_eq!(mono.frame_size(), 2u32);
    let wide = AudioFormat { sample_rate: 1, bits_per_sample: 32, channel_count: u16::MAX };
    assert_eq!(wide.frame_size(), 262_140u32);
}

#[test]
fn buffer_lengths_are_frames_times_frame_size() {
    let float_stereo = AudioFormat { sample_rate: 48000, bits_per_sample: 32, channel_count: 2 };
    assert_eq!(float_stereo.buffer_len(480), 3840u64);
    assert_eq!(float_stereo.wire_len(480), 1920u64);
    assert_eq!(float_stereo.buffer_len(0), 0u64);
    let wide = AudioFormat { sample_rate: 1, bits_per_sample: 32, channel_count: u16::MAX };
    assert_eq!(wide.buffer_len(u32::MAX), 262_140u64 * 4_294_967_295u64);
}

#[test]
fn ten_milliseconds_on_the_wire_are_1920_bytes() {
    assert_eq!(AudioFormat::wire().block_len(10), 1920u64);
    assert_eq!(AudioFormat::wire().block_len(0), 0u64);
    assert_eq!(AudioFormat::wire().block_len(1), 192u64);
    let cd = AudioFormat { sample_rate: 44100, bits_per_sample: 16, channel_count: 2 };
    // 44.1 frames round down to 44.
    assert_eq!(cd.block_len(1), 176u64);
}

#[test]
fn new_accepts_what_the_core_can_convert() {
    assert_eq!(AudioFormat::new(48000, 16, 2), Ok(AudioFormat::wire()));
    assert_eq!(
        AudioFormat::new(44100, 32, 6),
        Ok(AudioFormat { sample_rate: 44100, bits_per_sample: 32, channel_count: 6 })
    );
}

#[test]
fn new_rejects_what_the_core_cannot_convert() {
    assert_eq!(AudioFormat::new(48000, 24, 2), Err(Error::FormatNegotiationFailed));
    assert_eq!(AudioFormat::new(48000, 8, 2), Err(Error::FormatNegotiationFailed));
    assert_eq!(AudioFormat::new(48000, 0, 2), Err(Error::FormatNegotiationFailed));
    assert_eq!(AudioFormat::new(0, 16, 2), Err(Error::FormatNegotiationFailed));
    assert_eq!(AudioFormat::new(48000, 16, 0), Err(Error::FormatNegotiationFailed));
}

#[test]
fn sixteen_bit_formats_pass_the_wire_through() {
    let wire: AudioFormat = AudioFormat::wire();
    let block: Vec<u8> = vec![1, 2, 3, 4, 5, 6, 7, 8];
    assert_eq!(wire.convert_to_wire(block.clone()), block);
    assert_eq!(wire.convert_from_wire(block.clone()), block);
}

#[test]
fn float_formats_convert_to_and_from_the_wire() {
    let float_stereo = AudioFormat { sample_rate: 48000, bits_per_sample: 32, channel_count: 2 };
    let wire: Vec<u8> = vec![0xff, 0x7f, 0x01, 0x80];
    let native: Vec<u8> = float_stereo.convert_from_wire(wire.clone());
    assert_eq!(native, vec![0x00u8, 0x00, 0x80, 0x3f, 0x00, 0x00, 0x80, 0xbf]);
    assert_eq!(float_stereo.convert_to_wire(native), wire);
}
