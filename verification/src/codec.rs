//! Conversion of whole sample buffers between the wire's representation,
//! little-endian signed 16-bit PCM, and the device's, little-endian IEEE-754
//! binary32.

use crate::bytes::{
    i16_from_le, le_byte, lemma_i16_le_bytes, lemma_u32_le_round_trip, read_i16, read_u32,
    u32_from_le, write_i16, write_u32,
};
use crate::sample::{
    float32_of_pcm16, lemma_float32_of_pcm16_nearest, lemma_sample_round_trip, pcm16_of_float32,
    sample_to_float32, sample_to_pcm16,
};
use vstd::prelude::*;

verus! {

/// Sample `i` of a PCM16 buffer.
pub open spec fn pcm16_sample(pcm: Seq<u8>, i: int) -> int {
    i16_from_le(pcm[2 * i], pcm[2 * i + 1])
}

/// The encoding of sample `i` of a binary32 buffer.
pub open spec fn float32_sample(samples: Seq<u8>, i: int) -> int {
    u32_from_le(samples[4 * i], samples[4 * i + 1], samples[4 * i + 2], samples[4 * i + 3])
}

/// The binary32 buffer for a PCM16 buffer of even length: sample by sample,
/// the binary32 number nearest to the sample divided by 32767. The result is
/// twice as long as the input.
pub open spec fn pcm16_to_float32(pcm: Seq<u8>) -> Seq<u8> {
    Seq::new(
        (2 * pcm.len()) as nat,
        |j: int| le_byte(float32_of_pcm16(pcm16_sample(pcm, j / 4)), j % 4),
    )
}

/// The PCM16 buffer for a binary32 buffer whose length is a multiple of 4:
/// sample by sample, the value times 32767, rounded to the nearest integer
/// and limited to the 16-bit range. The result is half as long as the input.
pub open spec fn float32_to_pcm16(samples: Seq<u8>) -> Seq<u8> {
    Seq::new(
        (samples.len() / 2) as nat,
        |j: int| le_byte(pcm16_of_float32(float32_sample(samples, j / 2)), j % 2),
    )
}

/// Converts a buffer of PCM16 samples to binary32 samples.
pub fn convert_signed_pcm_to_floating_point(signed_pcm: Vec<u8>) -> (floating_point: Vec<u8>)
    requires
        signed_pcm@.len() % 2 == 0,
    ensures
        floating_point@ == pcm16_to_float32(signed_pcm@),
        floating_point@.len() == 2 * signed_pcm@.len(),
{
    let len: usize = signed_pcm.len();
    let mut floating_point: Vec<u8> = if len <= usize::MAX / 4 {
        Vec::with_capacity(len * 2)
    } else {
        Vec::new()
    };
    let mut i: usize = 0;
    while i < len
        invariant
            len == signed_pcm@.len(),
            len % 2 == 0,
            i % 2 == 0,
            i <= len,
            floating_point@.len() == 2 * i,
            forall|j: int|
                0 <= j < 2 * i ==> floating_point@[j] == #[trigger] pcm16_to_float32(
                    signed_pcm@,
                )[j],
        decreases len - i,
    {
        let sample: i16 = read_i16([signed_pcm[i], signed_pcm[i + 1]]);
        let buffer: [u8; 4] = write_u32(sample_to_float32(sample));
        floating_point.push(buffer[0]);
        floating_point.push(buffer[1]);
        floating_point.push(buffer[2]);
        floating_point.push(buffer[3]);
        assert(sample as int == pcm16_sample(signed_pcm@, i as int / 2));
        i = i + 2;
    }
    floating_point
}

/// Converts a buffer of binary32 samples to PCM16 samples. Values beyond
/// full scale are limited to the 16-bit range.
pub fn convert_floating_point_to_signed_pcm(floating_point: &[u8]) -> (signed_pcm: Vec<u8>)
    requires
        floating_point@.len() % 4 == 0,
    ensures
        signed_pcm@ == float32_to_pcm16(floating_point@),
        signed_pcm@.len() == floating_point@.len() / 2,
{
    let len: usize = floating_point.len();
    let mut signed_pcm: Vec<u8> = Vec::with_capacity(len / 2);
    let mut i: usize = 0;
    while i < len
        invariant
            len == floating_point@.len(),
            len % 4 == 0,
            i % 4 == 0,
            i <= len,
            signed_pcm@.len() == i / 2,
            forall|j: int|
                0 <= j < i / 2 ==> signed_pcm@[j] == #[trigger] float32_to_pcm16(
                    floating_point@,
                )[j],
        decreases len - i,
    {
        let bits: u32 = read_u32(
            [floating_point[i], floating_point[i + 1], floating_point[i + 2], floating_point[i + 3]],
        );
        let buffer: [u8; 2] = write_i16(sample_to_pcm16(bits));
        signed_pcm.push(buffer[0]);
        signed_pcm.push(buffer[1]);
        assert(bits as int == float32_sample(floating_point@, i as int / 4));
        i = i + 4;
    }
    signed_pcm
}

/// A PCM16 buffer survives the conversion to binary32 and back unchanged.
/// This holds for every buffer of even length: no 16-bit sample is so large
/// that the way back has to limit it.
pub proof fn lemma_pcm16_round_trip(pcm: Seq<u8>)
    requires
        pcm.len() % 2 == 0,
    ensures
        pcm16_to_float32(pcm).len() == 2 * pcm.len(),
        float32_to_pcm16(pcm16_to_float32(pcm)) == pcm,
{
    let wide: Seq<u8> = pcm16_to_float32(pcm);
    let back: Seq<u8> = float32_to_pcm16(wide);
    assert(back.len() == pcm.len());
    assert forall|j: int| 0 <= j < pcm.len() implies back[j] == pcm[j] by {
        let i: int = j / 2;
        let v: int = pcm16_sample(pcm, i);
        let bits: int = float32_of_pcm16(v);
        assert(0 <= bits < 0x1_0000_0000) by {
            if v != 0 {
                lemma_float32_of_pcm16_nearest(v);
            }
        }
        assert(wide[4 * i] == le_byte(bits, 0));
        assert(wide[4 * i + 1] == le_byte(bits, 1));
        assert(wide[4 * i + 2] == le_byte(bits, 2));
        assert(wide[4 * i + 3] == le_byte(bits, 3));
        lemma_u32_le_round_trip(bits);
        assert(float32_sample(wide, i) == bits);
        lemma_sample_round_trip(v);
        lemma_i16_le_bytes(pcm[2 * i], pcm[2 * i + 1]);
    }
    assert(back =~= pcm);
}

} // verus!
