//! The decisions of an audio cable over TCP.
//!
//! A host captures what its audio device plays, or renders what arrives from
//! the network, through leases on the device's ring buffer, and relays raw
//! PCM to the peers that connect. This crate holds what is decided along the
//! way:
//!
//! - [`sample`] and [`codec`]: the conversion between the wire's 16-bit PCM
//!   and the device's 32-bit float samples;
//! - [`format`]: the sample format that was negotiated, and the sizes that
//!   follow from it;
//! - [`session`]: the life cycle of a session with an audio endpoint;
//! - [`exchange`]: the acquire and release cycle on the hardware buffer;
//! - [`stream`]: the capture loop and the render loop, as a state machine;
//! - [`network`]: the relay's set of subscribers and the fan-out of blocks;
//! - [`media`], [`status`], [`error`] and [`bytes`]: the interface of a
//!   backend, status codes, failures, and little-endian integers.
//!
//! Nothing in this crate performs I/O. The caller talks to the audio device
//! and to the sockets, reports what happened, and is told what to do next.

pub mod bytes;
pub mod codec;
pub mod error;
pub mod exchange;
pub mod format;
pub mod media;
pub mod network;
pub mod sample;
pub mod session;
pub mod status;
pub mod stream;
