//! The life cycle of a session with one audio endpoint.
//!
//! A session is opened once, for capture or for render, with the format that
//! was negotiated. It is started once and stopped on every way out; stopping
//! it again changes nothing.

use crate::error::Error;
use crate::format::AudioFormat;
use crate::status::{status_ok, succeeded};
use vstd::prelude::*;

verus! {

/// The stream flag that asks a render endpoint for what it plays.
pub const STREAMFLAGS_LOOPBACK: u32 = 0x0002_0000;

/// The length of the hardware buffer that a session asks for, in units of
/// 100 nanoseconds.
pub const BUFFER_DURATION: i64 = 1_000_000;

/// The direction of a session.
#[derive(Clone, Copy, Debug, PartialEq, Eq, Structural)]
pub enum Mode {
    /// Audio flows from the endpoint to the network.
    Capture,
    /// Audio flows from the network to the endpoint.
    Render,
}

impl Mode {
    /// Whether a session of this direction records what a render endpoint
    /// plays: capture is from the default render endpoint, in loopback.
    pub open spec fn loopback(self) -> bool {
        self == Mode::Capture
    }

    /// The stream flags to initialise the endpoint with.
    pub open spec fn flags(self) -> u32 {
        if self.loopback() {
            STREAMFLAGS_LOOPBACK
        } else {
            0
        }
    }

    /// Whether a session of this direction records what a render endpoint
    /// plays.
    pub fn is_loopback(&self) -> (loopback: bool)
        ensures
            loopback == self.loopback(),
    {
        match self {
            Mode::Capture => true,
            Mode::Render => false,
        }
    }

    /// The stream flags to initialise the endpoint with.
    pub fn stream_flags(&self) -> (flags: u32)
        ensures
            flags == self.flags(),
    {
        if self.is_loopback() {
            STREAMFLAGS_LOOPBACK
        } else {
            0
        }
    }
}

/// Where a session is in its life.
#[derive(Clone, Copy, Debug, PartialEq, Eq, Structural)]
pub enum SessionState {
    /// Opened; the hardware does not move data yet.
    Idle,
    /// The hardware moves data.
    Running,
    /// Stopped for good; the endpoint handle is released.
    Stopped,
}

/// What has to be done to the endpoint when a session stops.
#[derive(Clone, Copy, Debug, PartialEq, Eq, Structural)]
pub enum Teardown {
    /// Halt the data flow, then release the endpoint handle.
    HaltAndRelease,
    /// Release the endpoint handle; no data was flowing.
    Release,
    /// Nothing: the session was stopped before.
    Nothing,
}

/// A message of the audio pipeline backend about its transport.
#[derive(Clone, Copy, Debug, PartialEq, Eq, Structural)]
pub enum BackendMessage {
    /// The stream has ended.
    EndOfStream,
    /// The backend has failed.
    Failure,
    /// Anything else.
    Other,
}

/// What a session is, as a value.
pub struct SessionModel {
    pub mode: Mode,
    pub loopback: bool,
    pub format: AudioFormat,
    pub state: SessionState,
}

impl SessionModel {
    /// The session that opening gives, or why there is none: the endpoint
    /// must have been resolved, and the negotiation must have succeeded with
    /// a format that the core can work with. A capture session records what
    /// a render endpoint plays.
    pub open spec fn opened(
        mode: Mode,
        endpoint_status: int,
        negotiation_status: int,
        format: AudioFormat,
    ) -> Result<SessionModel, Error> {
        if !status_ok(endpoint_status) {
            Err(Error::DeviceUnavailable)
        } else if !status_ok(negotiation_status) || !format.supported() {
            Err(Error::FormatNegotiationFailed)
        } else {
            Ok(SessionModel { mode, loopback: mode.loopback(), format, state: SessionState::Idle })
        }
    }

    /// The session after it was stopped.
    pub open spec fn stopped(self) -> SessionModel {
        SessionModel { state: SessionState::Stopped, ..self }
    }

    /// What stopping the session asks of the endpoint.
    pub open spec fn teardown(self) -> Teardown {
        match self.state {
            SessionState::Running => Teardown::HaltAndRelease,
            SessionState::Idle => Teardown::Release,
            SessionState::Stopped => Teardown::Nothing,
        }
    }

    /// The session after a message of the backend: the end of the stream
    /// and a failure stop it, anything else leaves it as it is.
    pub open spec fn after_message(self, message: BackendMessage) -> SessionModel {
        if message == BackendMessage::Other {
            self
        } else {
            self.stopped()
        }
    }
}

/// A session with one audio endpoint, in shared mode.
pub struct DeviceSession {
    mode: Mode,
    loopback: bool,
    format: AudioFormat,
    state: SessionState,
}

impl View for DeviceSession {
    type V = SessionModel;

    closed spec fn view(&self) -> SessionModel {
        SessionModel {
            mode: self.mode,
            loopback: self.loopback,
            format: self.format,
            state: self.state,
        }
    }
}

impl DeviceSession {
    /// Opens a session from what resolving the endpoint and negotiating the
    /// format gave: the status code of each, and the format that the
    /// endpoint offered.
    pub fn open(mode: Mode, endpoint_status: i32, negotiation_status: i32, format: AudioFormat) -> (session:
        Result<DeviceSession, Error>)
        ensures
            match SessionModel::opened(
                mode,
                endpoint_status as int,
                negotiation_status as int,
                format,
            ) {
                Ok(model) => session is Ok && session->Ok_0@ == model,
                Err(error) => session is Err && session->Err_0 == error,
            },
    {
        if !succeeded(endpoint_status) {
            Err(Error::DeviceUnavailable)
        } else if !succeeded(negotiation_status) || !format.is_supported() {
            Err(Error::FormatNegotiationFailed)
        } else {
            let loopback: bool = mode.is_loopback();
            Ok(DeviceSession { mode, loopback, format, state: SessionState::Idle })
        }
    }

    /// The format that was negotiated when the session was opened.
    pub fn native_format(&self) -> (format: AudioFormat)
        ensures
            format == self@.format,
    {
        self.format
    }

    /// The direction of the session.
    pub fn mode(&self) -> (mode: Mode)
        ensures
            mode == self@.mode,
    {
        self.mode
    }

    /// Whether the session records what a render endpoint plays.
    pub fn loopback(&self) -> (loopback: bool)
        ensures
            loopback == self@.loopback,
    {
        self.loopback
    }

    /// Where the session is in its life.
    pub fn state(&self) -> (state: SessionState)
        ensures
            state == self@.state,
    {
        self.state
    }

    /// Takes an idle session to running. A session that is running or
    /// stopped is left as it is, and the call fails.
    pub fn start(&mut self) -> (outcome: Result<(), Error>)
        ensures
            old(self)@.state == SessionState::Idle ==> outcome is Ok && final(self)@ == (
            SessionModel { state: SessionState::Running, ..old(self)@ }),
            old(self)@.state != SessionState::Idle ==> outcome == Err::<(), Error>(
                Error::DeviceUnavailable,
            ) && final(self)@ == old(self)@,
    {
        match self.state {
            SessionState::Idle => {
                self.state = SessionState::Running;
                Ok(())
            },
            _ => Err(Error::DeviceUnavailable),
        }
    }

    /// Stops the session and says what that asks of the endpoint. A session
    /// that was stopped before stays stopped, and nothing is asked again.
    pub fn stop(&mut self) -> (teardown: Teardown)
        ensures
            final(self)@ == old(self)@.stopped(),
            teardown == old(self)@.teardown(),
    {
        let teardown = match self.state {
            SessionState::Running => Teardown::HaltAndRelease,
            SessionState::Idle => Teardown::Release,
            SessionState::Stopped => Teardown::Nothing,
        };
        self.state = SessionState::Stopped;
        teardown
    }

    /// Follows a message of the backend and says what it asks of the
    /// endpoint.
    pub fn handle_message(&mut self, message: BackendMessage) -> (teardown: Teardown)
        ensures
            final(self)@ == old(self)@.after_message(message),
            teardown == (if message == BackendMessage::Other {
                Teardown::Nothing
            } else {
                old(self)@.teardown()
            }),
    {
        match message {
            BackendMessage::Other => Teardown::Nothing,
            _ => self.stop(),
        }
    }
}

/// Stopping is idempotent: a second stop leaves the session as the first
/// left it and asks nothing of the endpoint.
pub proof fn lemma_stop_is_idempotent(session: SessionModel)
    ensures
        session.stopped().stopped() == session.stopped(),
        session.stopped().teardown() == Teardown::Nothing,
        session.stopped().state == SessionState::Stopped,
{
}

} // verus!
