//! The failures that the audio path and the relay distinguish.

use vstd::prelude::*;

verus! {

/// Why an operation of the audio path or of the relay failed.
#[derive(Clone, Copy, Debug, PartialEq, Eq, Structural)]
pub enum Error {
    /// The audio endpoint could not be resolved, activated or started.
    DeviceUnavailable,
    /// The endpoint and the core could not agree on a sample format.
    FormatNegotiationFailed,
    /// A lease on the hardware buffer could not be acquired or released.
    ResourceAcquisitionFailed,
    /// The relay could not bind its listening port.
    BindFailed,
    /// A peer's transport failed.
    TransportFailed,
}

} // verus!
