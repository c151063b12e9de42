//! The sample format that the core and the audio endpoint agree on.

use crate::codec::{
    convert_floating_point_to_signed_pcm, convert_signed_pcm_to_floating_point, float32_to_pcm16,
    pcm16_to_float32,
};
use crate::error::Error;
use vstd::prelude::*;

verus! {

/// Bytes of one sample on the wire: signed 16-bit PCM.
pub const WIRE_BYTES_PER_SAMPLE: u32 = 2;

/// A sample format: frames per second, bits per sample and samples per
/// frame. A value is never changed once a session has been opened with it.
#[derive(Clone, Copy, Debug, PartialEq, Eq, Structural)]
pub struct AudioFormat {
    pub sample_rate: u32,
    pub bits_per_sample: u16,
    pub channel_count: u16,
}

impl AudioFormat {
    /// Whether the core can work with the format: at least one frame per
    /// second and one channel, and samples that are 16-bit PCM or 32-bit
    /// float.
    pub open spec fn supported(self) -> bool {
        &&& self.sample_rate > 0
        &&& self.channel_count > 0
        &&& (self.bits_per_sample == 16 || self.bits_per_sample == 32)
    }

    /// Bytes of one frame: one sample for each channel.
    pub open spec fn frame_bytes(self) -> int {
        self.channel_count * (self.bits_per_sample / 8)
    }

    /// Bytes of one frame on the wire.
    pub open spec fn wire_frame_bytes(self) -> int {
        self.channel_count * 2
    }

    /// Bytes that `frames` frames take in a buffer of this format.
    pub open spec fn buffer_bytes(self, frames: int) -> int {
        frames * self.frame_bytes()
    }

    /// Bytes that `frames` frames take on the wire.
    pub open spec fn wire_bytes(self, frames: int) -> int {
        frames * self.wire_frame_bytes()
    }

    /// The buffer in this format for a buffer of wire samples.
    pub open spec fn from_wire(self, wire: Seq<u8>) -> Seq<u8> {
        if self.bits_per_sample == 32 {
            pcm16_to_float32(wire)
        } else {
            wire
        }
    }

    /// The buffer of wire samples for a buffer in this format.
    pub open spec fn to_wire(self, native: Seq<u8>) -> Seq<u8> {
        if self.bits_per_sample == 32 {
            float32_to_pcm16(native)
        } else {
            native
        }
    }

    /// The format with the given parameters, if the core can work with it.
    pub fn new(sample_rate: u32, bits_per_sample: u16, channel_count: u16) -> (format: Result<
        AudioFormat,
        Error,
    >)
        ensures
            format == (if (AudioFormat { sample_rate, bits_per_sample, channel_count }).supported() {
                Ok::<AudioFormat, Error>(AudioFormat { sample_rate, bits_per_sample, channel_count })
            } else {
                Err::<AudioFormat, Error>(Error::FormatNegotiationFailed)
            }),
    {
        let format = AudioFormat { sample_rate, bits_per_sample, channel_count };
        if format.is_supported() {
            Ok(format)
        } else {
            Err(Error::FormatNegotiationFailed)
        }
    }

    /// The format of the wire: 48000 frames per second of two 16-bit samples.
    pub fn wire() -> (format: AudioFormat)
        ensures
            format == (AudioFormat { sample_rate: 48000, bits_per_sample: 16, channel_count: 2 }),
            format.supported(),
    {
        AudioFormat { sample_rate: 48000, bits_per_sample: 16, channel_count: 2 }
    }

    /// Whether the core can work with the format.
    pub fn is_supported(&self) -> (supported: bool)
        ensures
            supported == self.supported(),
    {
        self.sample_rate > 0 && self.channel_count > 0 && (self.bits_per_sample == 16
            || self.bits_per_sample == 32)
    }

    /// Bytes of one frame.
    pub fn frame_size(&self) -> (bytes: u32)
        ensures
            bytes == self.frame_bytes(),
    {
        let bytes_per_sample: u32 = (self.bits_per_sample / 8) as u32;
        assert(self.channel_count * bytes_per_sample <= 0xffff * 0x1fff) by (nonlinear_arith)
            requires
                self.channel_count <= 0xffff,
                bytes_per_sample <= 0x1fff,
        ;
        self.channel_count as u32 * bytes_per_sample
    }

    /// Bytes of one frame on the wire.
    pub fn wire_frame_size(&self) -> (bytes: u32)
        ensures
            bytes == self.wire_frame_bytes(),
    {
        self.channel_count as u32 * WIRE_BYTES_PER_SAMPLE
    }

    /// Bytes that `frames` frames take in a buffer of this format.
    pub fn buffer_len(&self, frames: u32) -> (bytes: u64)
        ensures
            bytes == self.buffer_bytes(frames as int),
    {
        let frame: u64 = self.frame_size() as u64;
        assert(frames * frame <= 0xffff_ffff * 0xffff_ffff) by (nonlinear_arith)
            requires
                frames <= 0xffff_ffff,
                frame <= 0xffff_ffff,
        ;
        frames as u64 * frame
    }

    /// Bytes that `frames` frames take on the wire.
    pub fn wire_len(&self, frames: u32) -> (bytes: u64)
        ensures
            bytes == self.wire_bytes(frames as int),
    {
        let frame: u64 = self.wire_frame_size() as u64;
        assert(frames * frame <= 0xffff_ffff * 0xffff_ffff) by (nonlinear_arith)
            requires
                frames <= 0xffff_ffff,
                frame <= 0xffff_ffff,
        ;
        frames as u64 * frame
    }

    /// Bytes of the block that holds `millis` milliseconds of audio on the
    /// wire, rounded down to whole frames.
    pub fn block_len(&self, millis: u16) -> (bytes: u64)
        ensures
            bytes == (self.sample_rate * millis / 1000) * self.wire_frame_bytes(),
    {
        let rate: u64 = self.sample_rate as u64;
        assert(rate * millis <= 0xffff_ffff * 0xffff) by (nonlinear_arith)
            requires
                rate <= 0xffff_ffff,
                millis <= 0xffff,
        ;
        let frames: u64 = rate * (millis as u64) / 1000;
        let frame: u64 = self.wire_frame_size() as u64;
        assert(frames * frame <= 0xff_ffff_ffff * 0x2_0000) by (nonlinear_arith)
            requires
                frames <= 0xff_ffff_ffff,
                frame <= 0x2_0000,
        ;
        frames * frame
    }

    /// Converts a buffer of wire samples, whole frames of them, to this
    /// format.
    pub fn convert_from_wire(&self, wire: Vec<u8>) -> (native: Vec<u8>)
        requires
            wire@.len() % 2 == 0,
        ensures
            native@ == self.from_wire(wire@),
    {
        if self.bits_per_sample == 32 {
            convert_signed_pcm_to_floating_point(wire)
        } else {
            wire
        }
    }

    /// Converts a buffer in this format, whole frames of it, to wire samples.
    pub fn convert_to_wire(&self, native: Vec<u8>) -> (wire: Vec<u8>)
        requires
            self.bits_per_sample == 32 ==> native@.len() % 4 == 0,
        ensures
            wire@ == self.to_wire(native@),
    {
        if self.bits_per_sample == 32 {
            convert_floating_point_to_signed_pcm(native.as_slice())
        } else {
            native
        }
    }
}

} // verus!
