//! Status codes of the audio runtime. The runtime reports the outcome of
//! every call as a signed 32-bit code; a negative code is a failure.

use vstd::prelude::*;

verus! {

/// Whether a status code reports success.
pub open spec fn status_ok(status: int) -> bool {
    status >= 0
}

/// Whether a status code reports success.
pub fn succeeded(status: i32) -> (ok: bool)
    ensures
        ok == status_ok(status as int),
{
    status >= 0
}

/// The component runtime that the audio endpoints live in. It has to be
/// initialised on a thread before that thread resolves an endpoint.
pub struct COM();

impl COM {
    /// Judges the status code that initialising the runtime returned.
    pub fn init(status: i32) -> (outcome: Result<(), ()>)
        ensures
            outcome == (if status_ok(status as int) {
                Ok::<(), ()>(())
            } else {
                Err::<(), ()>(())
            }),
    {
        if succeeded(status) {
            Ok(())
        } else {
            Err(())
        }
    }
}

} // verus!
