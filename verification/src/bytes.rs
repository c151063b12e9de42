//! Little-endian integers in byte buffers.

use byteorder::{ByteOrder, LittleEndian};
use vstd::prelude::*;

verus! {

/// Byte `k` of the little-endian two's-complement encoding of `v`, where
/// byte 0 is the least significant.
pub open spec fn le_byte(v: int, k: int) -> u8 {
    if k == 0 {
        (v % 256) as u8
    } else if k == 1 {
        ((v / 0x100) % 256) as u8
    } else if k == 2 {
        ((v / 0x1_0000) % 256) as u8
    } else {
        ((v / 0x100_0000) % 256) as u8
    }
}

/// The signed 16-bit integer that two little-endian bytes denote.
pub open spec fn i16_from_le(b0: u8, b1: u8) -> int {
    let raw = b0 as int + 0x100 * (b1 as int);
    if raw < 0x8000 {
        raw
    } else {
        raw - 0x1_0000
    }
}

/// The unsigned 32-bit integer that four little-endian bytes denote.
pub open spec fn u32_from_le(b0: u8, b1: u8, b2: u8, b3: u8) -> int {
    b0 as int + 0x100 * (b1 as int) + 0x1_0000 * (b2 as int) + 0x100_0000 * (b3 as int)
}

/// `byteorder::LittleEndian::read_i16` on a two-byte buffer: the result is
/// the signed integer whose low byte is `bytes[0]` and whose high byte is
/// `bytes[1]`.
#[verifier::external_body]
pub(crate) fn read_i16(bytes: [u8; 2]) -> (v: i16)
    ensures
        v as int == i16_from_le(bytes@[0], bytes@[1]),
{
    LittleEndian::read_i16(&bytes)
}

/// `byteorder::LittleEndian::write_i16` into a fresh two-byte buffer: the
/// buffer holds the low byte of `v`, then its high byte.
#[verifier::external_body]
pub(crate) fn write_i16(v: i16) -> (bytes: [u8; 2])
    ensures
        bytes@[0] == le_byte(v as int, 0),
        bytes@[1] == le_byte(v as int, 1),
{
    let mut bytes = [0u8; 2];
    LittleEndian::write_i16(&mut bytes, v);
    bytes
}

/// `byteorder::LittleEndian::read_u32` on a four-byte buffer: the result is
/// the unsigned integer whose bytes, least significant first, are those of
/// the buffer.
#[verifier::external_body]
pub(crate) fn read_u32(bytes: [u8; 4]) -> (v: u32)
    ensures
        v as int == u32_from_le(bytes@[0], bytes@[1], bytes@[2], bytes@[3]),
{
    LittleEndian::read_u32(&bytes)
}

/// `byteorder::LittleEndian::write_u32` into a fresh four-byte buffer: the
/// buffer holds the bytes of `v`, least significant first.
#[verifier::external_body]
pub(crate) fn write_u32(v: u32) -> (bytes: [u8; 4])
    ensures
        bytes@[0] == le_byte(v as int, 0),
        bytes@[1] == le_byte(v as int, 1),
        bytes@[2] == le_byte(v as int, 2),
        bytes@[3] == le_byte(v as int, 3),
{
    let mut bytes = [0u8; 4];
    LittleEndian::write_u32(&mut bytes, v);
    bytes
}

/// Writing what was read gives back the same two bytes.
pub proof fn lemma_i16_le_bytes(b0: u8, b1: u8)
    ensures
        le_byte(i16_from_le(b0, b1), 0) == b0,
        le_byte(i16_from_le(b0, b1), 1) == b1,
{
}

/// Reading back what was written gives the value that was written.
pub proof fn lemma_u32_le_round_trip(v: int)
    requires
        0 <= v < 0x1_0000_0000,
    ensures
        u32_from_le(le_byte(v, 0), le_byte(v, 1), le_byte(v, 2), le_byte(v, 3)) == v,
{
}

} // verus!
