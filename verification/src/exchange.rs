//! Leases on the hardware ring buffer.
//!
//! The hardware paces the exchange. On the render side it reports its
//! padding, the frames that are queued and not yet played, and the frames
//! that can be written are what is left of the buffer. On the capture side it
//! reports the size of the next packet. A lease on that many frames is
//! acquired, the frames are moved, and the lease is released before the next
//! one is acquired.

use crate::error::Error;
use crate::format::AudioFormat;
use crate::session::Mode;
use crate::status::{status_ok, succeeded};
use vstd::prelude::*;

verus! {

/// What a buffer exchange is, as a value.
pub struct ExchangeModel {
    pub mode: Mode,
    pub capacity: u32,
    pub format: AudioFormat,
    pub in_flight: Option<u32>,
}

impl ExchangeModel {
    /// The frames to acquire after the hardware reported `reading`: on the
    /// render side what the padding leaves of the buffer, on the capture side
    /// the packet as it is. Zero says that there is nothing to acquire.
    pub open spec fn wanted(self, reading: u32) -> u32 {
        match self.mode {
            Mode::Render => if reading >= self.capacity {
                0
            } else {
                (self.capacity - reading) as u32
            },
            Mode::Capture => reading,
        }
    }

    /// The bytes that are moved under a lease on `frames` frames: on the
    /// capture side the lease's own bytes, which are copied out; on the render
    /// side the bytes to fetch from the wire for it.
    pub open spec fn transfer_bytes(self, frames: u32) -> int {
        match self.mode {
            Mode::Capture => self.format.buffer_bytes(frames as int),
            Mode::Render => self.format.wire_bytes(frames as int),
        }
    }

    /// What becomes of the bytes that were moved: on the capture side the
    /// block for the wire, on the render side the bytes to write into the
    /// lease.
    pub open spec fn converted(self, data: Seq<u8>) -> Seq<u8> {
        match self.mode {
            Mode::Capture => self.format.to_wire(data),
            Mode::Render => self.format.from_wire(data),
        }
    }

    /// The frames to declare when a lease is given up without its data: on
    /// the capture side all of them, which drops the packet; on the render
    /// side none, since nothing was written.
    pub open spec fn forfeit(self, frames: u32) -> u32 {
        match self.mode {
            Mode::Capture => frames,
            Mode::Render => 0,
        }
    }

    /// Whether acquiring succeeds: no lease is in flight, the hardware
    /// reported success, and it granted at least one frame.
    pub open spec fn can_acquire(self, status: int, granted: u32) -> bool {
        self.in_flight is None && status_ok(status) && granted > 0
    }

    /// The exchange after an attempt to acquire.
    pub open spec fn acquired(self, status: int, granted: u32) -> ExchangeModel {
        if self.can_acquire(status, granted) {
            ExchangeModel { in_flight: Some(granted), ..self }
        } else {
            self
        }
    }

    /// Whether the lease on `frames` frames is the one in flight.
    pub open spec fn holds(self, frames: u32) -> bool {
        self.in_flight == Some(frames)
    }

    /// The exchange after an attempt to release the lease on `frames`
    /// frames: the lease in flight is gone, whatever the hardware said of the
    /// release; any other lease changes nothing.
    pub open spec fn released(self, frames: u32) -> ExchangeModel {
        if self.holds(frames) {
            ExchangeModel { in_flight: None, ..self }
        } else {
            self
        }
    }
}

/// A claim on a region of the hardware buffer, from the acquire that
/// granted it to the release that consumes it. It cannot be copied.
pub struct BufferLease {
    frames: u32,
}

impl View for BufferLease {
    type V = u32;

    closed spec fn view(&self) -> u32 {
        self.frames
    }
}

impl BufferLease {
    /// The frames under the lease.
    pub fn frames(&self) -> (frames: u32)
        ensures
            frames == self@,
    {
        self.frames
    }
}

/// The acquire and release cycle on one hardware buffer.
pub struct BufferExchange {
    mode: Mode,
    capacity: u32,
    format: AudioFormat,
    in_flight: Option<u32>,
}

impl View for BufferExchange {
    type V = ExchangeModel;

    closed spec fn view(&self) -> ExchangeModel {
        ExchangeModel {
            mode: self.mode,
            capacity: self.capacity,
            format: self.format,
            in_flight: self.in_flight,
        }
    }
}

impl BufferExchange {
    /// An exchange on a buffer of `capacity` frames, with no lease in flight.
    pub fn new(mode: Mode, capacity: u32, format: AudioFormat) -> (exchange: BufferExchange)
        ensures
            exchange@ == (ExchangeModel { mode, capacity, format, in_flight: None }),
    {
        BufferExchange { mode, capacity, format, in_flight: None }
    }

    /// The frames that the hardware buffer holds.
    pub fn capacity(&self) -> (frames: u32)
        ensures
            frames == self@.capacity,
    {
        self.capacity
    }

    /// The frames of the lease in flight, if there is one.
    pub fn in_flight(&self) -> (frames: Option<u32>)
        ensures
            frames == self@.in_flight,
    {
        self.in_flight
    }

    /// The frames to acquire after the hardware reported `reading`: its
    /// padding on the render side, the size of its next packet on the capture
    /// side. Zero says to skip this round.
    pub fn poll(&self, reading: u32) -> (frames: u32)
        ensures
            frames == self@.wanted(reading),
    {
        match self.mode {
            Mode::Render => if reading >= self.capacity {
                0
            } else {
                self.capacity - reading
            },
            Mode::Capture => reading,
        }
    }

    /// Records what the hardware answered to an acquire: its status code and
    /// the frames it granted. The lease is in flight from here on. Fails, and
    /// changes nothing, if a lease is in flight already, if the hardware
    /// reported a failure, or if it granted no frame.
    pub fn acquire(&mut self, status: i32, granted: u32) -> (lease: Result<BufferLease, Error>)
        ensures
            final(self)@ == old(self)@.acquired(status as int, granted),
            old(self)@.can_acquire(status as int, granted) ==> lease is Ok && lease->Ok_0@
                == granted,
            !old(self)@.can_acquire(status as int, granted) ==> lease is Err && lease->Err_0
                == Error::ResourceAcquisitionFailed,
    {
        if self.in_flight.is_some() || !succeeded(status) || granted == 0 {
            Err(Error::ResourceAcquisitionFailed)
        } else {
            self.in_flight = Some(granted);
            Ok(BufferLease { frames: granted })
        }
    }

    /// Records what the hardware answered to the release of a lease, and
    /// consumes the lease. Fails if the lease is not the one in flight, which
    /// changes nothing, or if the hardware reported a failure.
    pub fn release(&mut self, lease: BufferLease, status: i32) -> (outcome: Result<(), Error>)
        ensures
            final(self)@ == old(self)@.released(lease@),
            outcome == (if old(self)@.holds(lease@) && status_ok(status as int) {
                Ok::<(), Error>(())
            } else {
                Err::<(), Error>(Error::ResourceAcquisitionFailed)
            }),
    {
        let held: bool = match self.in_flight {
            Some(frames) => frames == lease.frames,
            None => false,
        };
        if !held {
            return Err(Error::ResourceAcquisitionFailed);
        }
        self.in_flight = None;
        if succeeded(status) {
            Ok(())
        } else {
            Err(Error::ResourceAcquisitionFailed)
        }
    }

    /// Writes off a lease whose release the hardware did not answer, and
    /// consumes it. A lease that is not the one in flight changes nothing.
    pub fn write_off(&mut self, lease: BufferLease)
        ensures
            final(self)@ == old(self)@.released(lease@),
    {
        let held: bool = match self.in_flight {
            Some(frames) => frames == lease.frames,
            None => false,
        };
        if held {
            self.in_flight = None;
        }
    }

    /// The bytes that are moved under a lease.
    pub fn transfer_len(&self, lease: &BufferLease) -> (bytes: u64)
        ensures
            bytes == self@.transfer_bytes(lease@),
    {
        match self.mode {
            Mode::Capture => self.format.buffer_len(lease.frames),
            Mode::Render => self.format.wire_len(lease.frames),
        }
    }

    /// The frames to declare when a lease is given up without its data.
    pub fn forfeit(&self, lease: &BufferLease) -> (frames: u32)
        ensures
            frames == self@.forfeit(lease@),
    {
        match self.mode {
            Mode::Capture => lease.frames,
            Mode::Render => 0,
        }
    }

    /// Converts the bytes that were moved under a lease to what the other
    /// side takes. Fails with the bytes unused if they are not as many as the
    /// lease calls for.
    pub fn convert(&self, lease: &BufferLease, data: Vec<u8>) -> (converted: Option<Vec<u8>>)
        ensures
            data@.len() == self@.transfer_bytes(lease@) ==> converted is Some
                && converted->Some_0@ == self@.converted(data@),
            data@.len() != self@.transfer_bytes(lease@) ==> converted is None,
    {
        if data.len() as u64 != self.transfer_len(lease) {
            return None;
        }
        proof {
            lemma_whole_samples(self.format, lease.frames as int);
        }
        match self.mode {
            Mode::Capture => Some(self.format.convert_to_wire(data)),
            Mode::Render => Some(self.format.convert_from_wire(data)),
        }
    }
}

/// Whole frames are whole samples: on the wire an even number of bytes, and
/// in a buffer of 32-bit samples a multiple of four.
pub proof fn lemma_whole_samples(format: AudioFormat, frames: int)
    ensures
        format.wire_bytes(frames) % 2 == 0,
        format.bits_per_sample == 32 ==> format.buffer_bytes(frames) % 4 == 0,
{
    let channels: int = format.channel_count as int;
    assert(frames * (channels * 2) == (frames * channels) * 2) by (nonlinear_arith);
    if format.bits_per_sample == 32 {
        assert(frames * (channels * 4) == (frames * channels) * 4) by (nonlinear_arith);
    }
}

/// When the padding fills the whole buffer, nothing is acquired on the
/// render side.
pub proof fn lemma_full_buffer_acquires_nothing(exchange: ExchangeModel, padding: u32)
    requires
        exchange.mode == Mode::Render,
        padding >= exchange.capacity,
    ensures
        exchange.wanted(padding) == 0,
{
}

/// On the capture side frames are acquired exactly when the hardware
/// reports a packet: an empty packet acquires nothing, and every other packet
/// is acquired whole.
pub proof fn lemma_capture_follows_packets(exchange: ExchangeModel, packet: u32)
    requires
        exchange.mode == Mode::Capture,
    ensures
        exchange.wanted(packet) == packet,
        exchange.wanted(packet) > 0 <==> packet > 0,
{
}

/// A lease that is in flight blocks every further acquire until it is
/// released, and its release makes room for the next.
pub proof fn lemma_one_lease_at_a_time(exchange: ExchangeModel, status: int, granted: u32, next: u32)
    requires
        exchange.can_acquire(status, granted),
    ensures
        exchange.acquired(status, granted).holds(granted),
        !exchange.acquired(status, granted).can_acquire(status, next),
        exchange.acquired(status, granted).acquired(status, next) == exchange.acquired(
            status,
            granted,
        ),
        exchange.acquired(status, granted).released(granted) == exchange,
{
}

} // verus!
