//! The interface that a platform's audio backend offers to the program.

use vstd::prelude::*;

verus! {

/// An audio backend. A program picks one implementation when it starts, by
/// the platform it runs on, and drives it through this interface.
pub trait InterfaceTrait {
    /// Prepares the backend.
    fn init(&self);

    /// Plays what arrives from the network until the stream ends or fails.
    fn start_playback(&self) -> Result<(), ()>;

    /// Records from the device and relays to the network until the stream
    /// ends or fails.
    fn start_recording(&self) -> Result<(), ()>;
}

} // verus!
