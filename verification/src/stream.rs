//! The loop that drives a session: the capture loop or the render loop,
//! by the session's direction.
//!
//! The loop is a state machine. The caller performs the action it is given
//! on the hardware or the network, hands back what happened as an event, and
//! is given the next action. The machine starts the session, paces the
//! exchange by what the hardware reports, converts the samples between the
//! device and the wire, and stops the session on every way out, after the
//! last lease was released.

use crate::error::Error;
use crate::exchange::{BufferExchange, BufferLease, ExchangeModel};
use crate::session::{DeviceSession, Mode, SessionModel, SessionState, Teardown};
use crate::status::{status_ok, succeeded};
use vstd::prelude::*;

verus! {

/// Why a loop ended.
#[derive(Clone, Copy, Debug, PartialEq, Eq, Structural)]
pub enum Outcome {
    /// It was asked to shut down.
    Shutdown,
    /// It failed.
    Failed(Error),
}

/// Where a loop stands.
#[derive(Clone, Copy, Debug, PartialEq, Eq, Structural)]
pub enum Phase {
    /// Made, and waiting to begin.
    Ready,
    /// The hardware was asked to start the data flow.
    Starting,
    /// The hardware was asked for its padding or for its next packet.
    Polling,
    /// A lease on `frames` frames was asked for.
    Acquiring { frames: u32 },
    /// A lease is in flight, and its bytes are being moved.
    Reading,
    /// The release of the lease was asked for; the loop goes on after it.
    Releasing,
    /// The release of the lease was asked for; the loop ends after it.
    Aborting { outcome: Outcome },
    /// The loop has ended and the session is stopped.
    Stopped { outcome: Outcome },
}

/// What the caller reports to the loop.
pub enum Event {
    /// The caller is ready to run the loop.
    Begin,
    /// The hardware answered the request to start the data flow.
    Started { status: i32 },
    /// The hardware answered the poll: on the render side `reading` is its
    /// padding, on the capture side the size of its next packet, in frames.
    Polled { status: i32, reading: u32 },
    /// The hardware answered the request for a lease, and granted `granted`
    /// frames.
    Acquired { status: i32, granted: u32 },
    /// The bytes were moved: on the capture side copied out of the lease, on
    /// the render side fetched from the wire. Where fewer bytes could be had
    /// than were asked for, `data` holds those.
    Transferred { data: Vec<u8> },
    /// The hardware answered the release of the lease.
    Released { status: i32 },
}

/// What the loop asks of the caller.
#[derive(Clone, Copy, Debug, PartialEq, Eq, Structural)]
pub enum Action {
    /// Start the data flow, and report `Started`.
    Start,
    /// Ask the hardware for its padding or its next packet, and report
    /// `Polled`.
    Poll,
    /// Nothing can be moved now: yield for a moment, then do as for `Poll`.
    Wait,
    /// Acquire a lease on `frames` frames, and report `Acquired`.
    Acquire { frames: u32 },
    /// Move `bytes` bytes, and report `Transferred`: on the capture side
    /// copy them out of the lease, on the render side fetch them from the
    /// wire.
    Transfer { bytes: u64 },
    /// Release the lease, declaring `frames` frames, and report `Released`.
    /// On the render side the payload of the step is written into the lease
    /// first; on the capture side it is handed downstream afterwards, unless
    /// it is empty.
    Release { frames: u32 },
    /// Tear the endpoint down as `teardown` says. The loop has ended.
    Stop { teardown: Teardown, outcome: Outcome },
}

/// What a step of the loop gives: the action to perform, and the bytes
/// that go with a release.
pub struct Step {
    pub action: Action,
    pub payload: Vec<u8>,
}

/// What a loop is, as a value.
pub struct LoopModel {
    pub session: SessionModel,
    pub exchange: ExchangeModel,
    pub phase: Phase,
    pub shutdown: bool,
}

/// How a loop reacts to an event, as a value.
pub struct Reaction {
    pub next: LoopModel,
    pub action: Action,
    pub payload: Seq<u8>,
}

impl LoopModel {
    /// Whether a lease is in flight according to the phase.
    pub open spec fn leased(self) -> bool {
        self.phase is Reading || self.phase is Releasing || self.phase is Aborting
    }

    /// The exchange serves the session, a lease is in flight exactly in the
    /// phases that say so, and the session of a loop that has stopped is
    /// stopped.
    pub open spec fn wf(self) -> bool {
        &&& self.exchange.mode == self.session.mode
        &&& self.exchange.format == self.session.format
        &&& self.exchange.in_flight is Some <==> self.leased()
        &&& self.phase is Stopped ==> self.session.state == SessionState::Stopped
    }

    /// The loop ends: the session is stopped, and the caller tears the
    /// endpoint down as the session's state asks.
    pub open spec fn halted(self, outcome: Outcome) -> Reaction {
        Reaction {
            next: LoopModel {
                session: self.session.stopped(),
                exchange: ExchangeModel { in_flight: None, ..self.exchange },
                phase: Phase::Stopped { outcome },
                shutdown: self.shutdown,
            },
            action: Action::Stop { teardown: self.session.teardown(), outcome },
            payload: Seq::empty(),
        }
    }

    /// The loop moves to `phase` and asks for `action`.
    pub open spec fn moved(self, phase: Phase, action: Action) -> Reaction {
        Reaction { next: LoopModel { phase, ..self }, action, payload: Seq::empty() }
    }

    /// The loop goes on with no lease in flight: it honours a request to
    /// shut down, starts a session that is idle, and polls one that runs.
    pub open spec fn resumed(self) -> Reaction {
        if self.shutdown {
            self.halted(Outcome::Shutdown)
        } else {
            match self.session.state {
                SessionState::Idle => self.moved(Phase::Starting, Action::Start),
                SessionState::Running => self.moved(Phase::Polling, Action::Poll),
                SessionState::Stopped => self.halted(Outcome::Failed(Error::DeviceUnavailable)),
            }
        }
    }

    /// The lease in flight is given up without its data, and the loop ends
    /// once it is released.
    pub open spec fn forfeited(self, frames: u32, outcome: Outcome) -> Reaction {
        self.moved(
            Phase::Aborting { outcome },
            Action::Release { frames: self.exchange.forfeit(frames) },
        )
    }

    /// The failure that a short transfer stands for: on the capture side
    /// the lease did not hold what it was granted for, on the render side
    /// the wire did not deliver.
    pub open spec fn transfer_failure(self) -> Error {
        match self.exchange.mode {
            Mode::Capture => Error::ResourceAcquisitionFailed,
            Mode::Render => Error::TransportFailed,
        }
    }

    /// How the loop reacts to an event.
    ///
    /// A render loop first fills the whole buffer, then starts the session;
    /// a capture loop starts it at once. From then on each poll either leads
    /// to one lease, which is acquired, filled or emptied, and released, or
    /// to a wait. A request to shut down is honoured between leases. Any
    /// failure of the hardware, and any event that the phase does not call
    /// for, ends the loop; a lease in flight is released first.
    pub open spec fn react(self, event: Event) -> Reaction {
        match self.phase {
            Phase::Stopped { outcome } => Reaction {
                next: self,
                action: Action::Stop { teardown: Teardown::Nothing, outcome },
                payload: Seq::empty(),
            },
            Phase::Ready => match event {
                Event::Begin => if !self.shutdown && self.exchange.mode == Mode::Render
                    && self.exchange.capacity > 0 {
                    self.moved(
                        Phase::Acquiring { frames: self.exchange.capacity },
                        Action::Acquire { frames: self.exchange.capacity },
                    )
                } else {
                    self.resumed()
                },
                _ => self.halted(Outcome::Failed(Error::ResourceAcquisitionFailed)),
            },
            Phase::Starting => match event {
                Event::Started { status } => if status_ok(status as int) && self.session.state
                    == SessionState::Idle {
                    (LoopModel {
                        session: SessionModel { state: SessionState::Running, ..self.session },
                        ..self
                    }).resumed()
                } else {
                    self.halted(Outcome::Failed(Error::DeviceUnavailable))
                },
                _ => self.halted(Outcome::Failed(Error::ResourceAcquisitionFailed)),
            },
            Phase::Polling => match event {
                Event::Polled { status, reading } => if !status_ok(status as int) {
                    self.halted(Outcome::Failed(Error::DeviceUnavailable))
                } else if self.shutdown {
                    self.halted(Outcome::Shutdown)
                } else if self.exchange.wanted(reading) > 0 {
                    self.moved(
                        Phase::Acquiring { frames: self.exchange.wanted(reading) },
                        Action::Acquire { frames: self.exchange.wanted(reading) },
                    )
                } else {
                    self.moved(Phase::Polling, Action::Wait)
                },
                _ => self.halted(Outcome::Failed(Error::ResourceAcquisitionFailed)),
            },
            Phase::Acquiring { frames } => match event {
                Event::Acquired { status, granted } => if !self.exchange.can_acquire(
                    status as int,
                    granted,
                ) {
                    self.halted(Outcome::Failed(Error::ResourceAcquisitionFailed))
                } else {
                    let leased = LoopModel {
                        exchange: self.exchange.acquired(status as int, granted),
                        ..self
                    };
                    if granted == frames {
                        leased.moved(
                            Phase::Reading,
                            Action::Transfer { bytes: self.exchange.transfer_bytes(granted) as u64 },
                        )
                    } else {
                        leased.forfeited(
                            granted,
                            Outcome::Failed(Error::ResourceAcquisitionFailed),
                        )
                    }
                },
                _ => self.halted(Outcome::Failed(Error::ResourceAcquisitionFailed)),
            },
            Phase::Reading => match self.exchange.in_flight {
                Some(frames) => match event {
                    Event::Transferred { data } => if data@.len() == self.exchange.transfer_bytes(
                        frames,
                    ) {
                        Reaction {
                            next: LoopModel { phase: Phase::Releasing, ..self },
                            action: Action::Release { frames },
                            payload: self.exchange.converted(data@),
                        }
                    } else {
                        self.forfeited(frames, Outcome::Failed(self.transfer_failure()))
                    },
                    _ => self.forfeited(frames, Outcome::Failed(Error::ResourceAcquisitionFailed)),
                },
                None => self.halted(Outcome::Failed(Error::ResourceAcquisitionFailed)),
            },
            Phase::Releasing => match event {
                Event::Released { status } => if status_ok(status as int) {
                    (LoopModel {
                        exchange: ExchangeModel { in_flight: None, ..self.exchange },
                        ..self
                    }).resumed()
                } else {
                    self.halted(Outcome::Failed(Error::ResourceAcquisitionFailed))
                },
                _ => self.halted(Outcome::Failed(Error::ResourceAcquisitionFailed)),
            },
            Phase::Aborting { outcome } => self.halted(outcome),
        }
    }

    /// The loop after a sequence of events.
    pub open spec fn after_all(self, events: Seq<Event>) -> LoopModel
        decreases events.len(),
    {
        if events.len() == 0 {
            self
        } else {
            self.after_all(events.drop_last()).react(events.last()).next
        }
    }

    /// How many leases the hardware granted over a sequence of events: the
    /// steps that put a lease in flight.
    pub open spec fn leases_granted(self, events: Seq<Event>) -> nat
        decreases events.len(),
    {
        if events.len() == 0 {
            0
        } else {
            let before = self.after_all(events.drop_last());
            let granted: nat = if !before.leased() && before.react(events.last()).next.leased() {
                1
            } else {
                0
            };
            self.leases_granted(events.drop_last()) + granted
        }
    }

    /// How often the loop asked for the endpoint to be torn down over a
    /// sequence of events.
    pub open spec fn teardowns_asked(self, events: Seq<Event>) -> nat
        decreases events.len(),
    {
        if events.len() == 0 {
            0
        } else {
            let action = self.after_all(events.drop_last()).react(events.last()).action;
            let asked: nat = if action is Stop && action->teardown != Teardown::Nothing {
                1
            } else {
                0
            };
            self.teardowns_asked(events.drop_last()) + asked
        }
    }

    /// How many releases the loop asked for over a sequence of events.
    pub open spec fn releases_asked(self, events: Seq<Event>) -> nat
        decreases events.len(),
    {
        if events.len() == 0 {
            0
        } else {
            let before = self.after_all(events.drop_last());
            let asked: nat = if before.react(events.last()).action is Release {
                1
            } else {
                0
            };
            self.releases_asked(events.drop_last()) + asked
        }
    }
}

/// The capture loop or the render loop of one session.
pub struct AudioLoop {
    session: DeviceSession,
    exchange: BufferExchange,
    lease: Option<BufferLease>,
    phase: Phase,
    shutdown: bool,
}

impl View for AudioLoop {
    type V = LoopModel;

    closed spec fn view(&self) -> LoopModel {
        LoopModel {
            session: self.session@,
            exchange: self.exchange@,
            phase: self.phase,
            shutdown: self.shutdown,
        }
    }
}

impl AudioLoop {
    /// The exchange serves the session, and the loop holds the lease that is
    /// in flight.
    spec fn coherent(&self) -> bool {
        &&& self@.exchange.mode == self@.session.mode
        &&& self@.exchange.format == self@.session.format
        &&& match self.lease {
            Some(lease) => self.exchange@.in_flight == Some(lease@),
            None => self.exchange@.in_flight is None,
        }
    }

    /// The loop is as its constructor and its steps leave it: well formed,
    /// and holding the lease that is in flight.
    pub closed spec fn inv(&self) -> bool {
        self.coherent() && self@.wf()
    }

    /// The loop for a session on a hardware buffer of `capacity` frames.
    pub fn new(session: DeviceSession, capacity: u32) -> (driver: AudioLoop)
        ensures
            driver.inv(),
            driver@.wf(),
            driver@ == (LoopModel {
                session: session@,
                exchange: ExchangeModel {
                    mode: session@.mode,
                    capacity,
                    format: session@.format,
                    in_flight: None,
                },
                phase: Phase::Ready,
                shutdown: false,
            }),
    {
        let exchange = BufferExchange::new(session.mode(), capacity, session.native_format());
        AudioLoop { session, exchange, lease: None, phase: Phase::Ready, shutdown: false }
    }

    /// Where the loop stands.
    pub fn phase(&self) -> (phase: Phase)
        ensures
            phase == self@.phase,
    {
        self.phase
    }

    /// The session that the loop drives.
    pub fn session(&self) -> (session: &DeviceSession)
        ensures
            session@ == self@.session,
    {
        &self.session
    }

    /// Asks the loop to end. It does so at its next step between two
    /// leases.
    pub fn request_shutdown(&mut self)
        requires
            old(self).inv(),
        ensures
            final(self).inv(),
            final(self)@ == (LoopModel { shutdown: true, ..old(self)@ }),
    {
        self.shutdown = true;
    }

    /// Ends the loop: stops the session and writes off a lease that is still
    /// held.
    fn halt(&mut self, outcome: Outcome) -> (step: Step)
        requires
            old(self).coherent(),
        ensures
            final(self).inv(),
            final(self)@ == old(self)@.halted(outcome).next,
            step.action == old(self)@.halted(outcome).action,
            step.payload@ == old(self)@.halted(outcome).payload,
    {
        let teardown = self.session.stop();
        match self.lease.take() {
            Some(lease) => {
                self.exchange.write_off(lease);
            },
            None => {},
        }
        self.phase = Phase::Stopped { outcome };
        Step { action: Action::Stop { teardown, outcome }, payload: Vec::new() }
    }

    /// Moves to `phase` and asks for `action`.
    fn advance(&mut self, phase: Phase, action: Action) -> (step: Step)
        ensures
            final(self).coherent() == old(self).coherent(),
            final(self)@ == old(self)@.moved(phase, action).next,
            final(self).lease == old(self).lease,
            step.action == action,
            step.payload@ == Seq::<u8>::empty(),
    {
        self.phase = phase;
        Step { action, payload: Vec::new() }
    }

    /// Goes on with no lease in flight.
    fn resume(&mut self) -> (step: Step)
        requires
            old(self).coherent(),
            old(self)@.exchange.in_flight is None,
        ensures
            final(self).inv(),
            final(self)@ == old(self)@.resumed().next,
            step.action == old(self)@.resumed().action,
            step.payload@ == old(self)@.resumed().payload,
    {
        if self.shutdown {
            self.halt(Outcome::Shutdown)
        } else {
            match self.session.state() {
                SessionState::Idle => self.advance(Phase::Starting, Action::Start),
                SessionState::Running => self.advance(Phase::Polling, Action::Poll),
                SessionState::Stopped => self.halt(Outcome::Failed(Error::DeviceUnavailable)),
            }
        }
    }

    /// Gives the lease in flight up without its data.
    fn forfeit(&mut self, outcome: Outcome) -> (step: Step)
        requires
            old(self).coherent(),
            old(self)@.exchange.in_flight is Some,
        ensures
            final(self).inv(),
            final(self)@ == old(self)@.forfeited(
                old(self)@.exchange.in_flight->Some_0,
                outcome,
            ).next,
            step.action == old(self)@.forfeited(
                old(self)@.exchange.in_flight->Some_0,
                outcome,
            ).action,
            step.payload@ == Seq::<u8>::empty(),
    {
        let frames: u32 = match &self.lease {
            Some(lease) => self.exchange.forfeit(lease),
            None => 0,
        };
        self.advance(Phase::Aborting { outcome }, Action::Release { frames })
    }

    /// The step of a loop that is ready.
    fn begin(&mut self, event: Event) -> (step: Step)
        requires
            old(self).inv(),
            old(self)@.phase is Ready,
        ensures
            final(self).inv(),
            final(self)@ == old(self)@.react(event).next,
            step.action == old(self)@.react(event).action,
            step.payload@ == old(self)@.react(event).payload,
    {
        match event {
            Event::Begin => {
                let capacity: u32 = self.exchange.capacity();
                let render: bool = match self.session.mode() {
                    Mode::Render => true,
                    Mode::Capture => false,
                };
                if !self.shutdown && render && capacity > 0 {
                    self.advance(
                        Phase::Acquiring { frames: capacity },
                        Action::Acquire { frames: capacity },
                    )
                } else {
                    self.resume()
                }
            },
            _ => self.halt(Outcome::Failed(Error::ResourceAcquisitionFailed)),
        }
    }

    /// The step of a loop that waits for the data flow to start.
    fn started(&mut self, event: Event) -> (step: Step)
        requires
            old(self).inv(),
            old(self)@.phase is Starting,
        ensures
            final(self).inv(),
            final(self)@ == old(self)@.react(event).next,
            step.action == old(self)@.react(event).action,
            step.payload@ == old(self)@.react(event).payload,
    {
        match event {
            Event::Started { status } => {
                if succeeded(status) && self.session.start().is_ok() {
                    self.resume()
                } else {
                    self.halt(Outcome::Failed(Error::DeviceUnavailable))
                }
            },
            _ => self.halt(Outcome::Failed(Error::ResourceAcquisitionFailed)),
        }
    }

    /// The step of a loop that waits for the answer to a poll.
    fn polled(&mut self, event: Event) -> (step: Step)
        requires
            old(self).inv(),
            old(self)@.phase is Polling,
        ensures
            final(self).inv(),
            final(self)@ == old(self)@.react(event).next,
            step.action == old(self)@.react(event).action,
            step.payload@ == old(self)@.react(event).payload,
    {
        match event {
            Event::Polled { status, reading } => {
                if !succeeded(status) {
                    self.halt(Outcome::Failed(Error::DeviceUnavailable))
                } else if self.shutdown {
                    self.halt(Outcome::Shutdown)
                } else {
                    let frames: u32 = self.exchange.poll(reading);
                    if frames > 0 {
                        self.advance(Phase::Acquiring { frames }, Action::Acquire { frames })
                    } else {
                        self.advance(Phase::Polling, Action::Wait)
                    }
                }
            },
            _ => self.halt(Outcome::Failed(Error::ResourceAcquisitionFailed)),
        }
    }

    /// The step of a loop that waits for a lease.
    fn acquired(&mut self, event: Event) -> (step: Step)
        requires
            old(self).inv(),
            old(self)@.phase is Acquiring,
        ensures
            final(self).inv(),
            final(self)@ == old(self)@.react(event).next,
            step.action == old(self)@.react(event).action,
            step.payload@ == old(self)@.react(event).payload,
    {
        let unexpected = Outcome::Failed(Error::ResourceAcquisitionFailed);
        let frames: u32 = match self.phase {
            Phase::Acquiring { frames } => frames,
            _ => 0,
        };
        match event {
            Event::Acquired { status, granted } => {
                match self.exchange.acquire(status, granted) {
                    Ok(lease) => {
                        let bytes: u64 = self.exchange.transfer_len(&lease);
                        self.lease = Some(lease);
                        if granted == frames {
                            self.advance(Phase::Reading, Action::Transfer { bytes })
                        } else {
                            self.forfeit(unexpected)
                        }
                    },
                    Err(_) => self.halt(unexpected),
                }
            },
            _ => self.halt(unexpected),
        }
    }

    /// The step of a loop that waits for the bytes of its lease.
    fn transferred(&mut self, event: Event) -> (step: Step)
        requires
            old(self).inv(),
            old(self)@.phase is Reading,
        ensures
            final(self).inv(),
            final(self)@ == old(self)@.react(event).next,
            step.action == old(self)@.react(event).action,
            step.payload@ == old(self)@.react(event).payload,
    {
        match event {
            Event::Transferred { data } => {
                let converted: Option<Vec<u8>> = match &self.lease {
                    Some(lease) => self.exchange.convert(lease, data),
                    None => None,
                };
                match converted {
                    Some(payload) => {
                        let frames: u32 = match &self.lease {
                            Some(lease) => lease.frames(),
                            None => 0,
                        };
                        self.phase = Phase::Releasing;
                        Step { action: Action::Release { frames }, payload }
                    },
                    None => {
                        let failure = match self.session.mode() {
                            Mode::Capture => Error::ResourceAcquisitionFailed,
                            Mode::Render => Error::TransportFailed,
                        };
                        self.forfeit(Outcome::Failed(failure))
                    },
                }
            },
            _ => self.forfeit(Outcome::Failed(Error::ResourceAcquisitionFailed)),
        }
    }

    /// The step of a loop that waits for the release of its lease.
    fn released(&mut self, event: Event) -> (step: Step)
        requires
            old(self).inv(),
            old(self)@.phase is Releasing,
        ensures
            final(self).inv(),
            final(self)@ == old(self)@.react(event).next,
            step.action == old(self)@.react(event).action,
            step.payload@ == old(self)@.react(event).payload,
    {
        let unexpected = Outcome::Failed(Error::ResourceAcquisitionFailed);
        match event {
            Event::Released { status } => {
                let released: bool = match self.lease.take() {
                    Some(lease) => self.exchange.release(lease, status).is_ok(),
                    None => false,
                };
                if released {
                    self.resume()
                } else {
                    self.halt(unexpected)
                }
            },
            _ => self.halt(unexpected),
        }
    }

    /// Takes the loop one step: records what the caller reports and says
    /// what to do next.
    pub fn step(&mut self, event: Event) -> (step: Step)
        requires
            old(self).inv(),
        ensures
            final(self).inv(),
            final(self)@.wf(),
            final(self)@ == old(self)@.react(event).next,
            step.action == old(self)@.react(event).action,
            step.payload@ == old(self)@.react(event).payload,
    {
        match self.phase {
            Phase::Stopped { outcome } => Step {
                action: Action::Stop { teardown: Teardown::Nothing, outcome },
                payload: Vec::new(),
            },
            Phase::Ready => self.begin(event),
            Phase::Starting => self.started(event),
            Phase::Polling => self.polled(event),
            Phase::Acquiring { .. } => self.acquired(event),
            Phase::Reading => self.transferred(event),
            Phase::Releasing => self.released(event),
            Phase::Aborting { outcome } => self.halt(outcome),
        }
    }
}

/// A step keeps a well-formed loop well formed.
pub proof fn lemma_react_keeps_wf(model: LoopModel, event: Event)
    requires
        model.wf(),
    ensures
        model.react(event).next.wf(),
{
}

/// The lease discipline. A lease is asked for only while none is in flight,
/// and never for zero frames. While the bytes of a lease are being moved,
/// the only thing asked for is its release. The loop stops only with no
/// lease left in flight and with the session stopped, and never in answer to
/// an event that arrives while the bytes of a lease are being moved.
pub proof fn lemma_lease_discipline(model: LoopModel, event: Event)
    requires
        model.wf(),
    ensures
        model.react(event).action is Acquire ==> !model.leased() && !model.react(event).next.leased()
            && model.react(event).action->Acquire_frames > 0,
        model.react(event).action is Transfer ==> model.phase is Acquiring && model.react(
            event,
        ).next.phase is Reading,
        model.phase is Reading ==> model.react(event).action is Release && model.react(
            event,
        ).next.leased(),
        model.react(event).action is Stop ==> !(model.phase is Reading) && !model.react(
            event,
        ).next.leased() && model.react(event).next.session.state == SessionState::Stopped,
{
}

/// A loop that has stopped stays as it is, and asks nothing more of the
/// endpoint.
pub proof fn lemma_stopped_is_final(model: LoopModel, event: Event)
    requires
        model.phase is Stopped,
    ensures
        model.react(event).next == model,
        model.react(event).action == (Action::Stop {
            teardown: Teardown::Nothing,
            outcome: model.phase->Stopped_outcome,
        }),
{
}

/// On the render side, a poll that finds the padding equal to the whole
/// buffer, or more, acquires nothing: the loop waits and polls again.
pub proof fn lemma_render_waits_on_full_buffer(model: LoopModel, status: i32, padding: u32)
    requires
        model.phase is Polling,
        model.exchange.mode == Mode::Render,
        status_ok(status as int),
        !model.shutdown,
        padding >= model.exchange.capacity,
    ensures
        model.react(Event::Polled { status, reading: padding }).action is Wait,
        model.react(Event::Polled { status, reading: padding }).next == model,
{
}

/// On the capture side, a lease is asked for only in answer to a poll that
/// reports a packet, and then for the whole packet. So once a poll has
/// reported an empty packet nothing is acquired until a later poll reports
/// frames again.
pub proof fn lemma_capture_acquires_only_packets(model: LoopModel, event: Event)
    requires
        model.exchange.mode == Mode::Capture,
    ensures
        model.react(event).action is Acquire ==> model.phase is Polling && event is Polled
            && event->reading > 0 && model.react(event).action->Acquire_frames == event->reading,
        model.phase is Polling && !model.shutdown && event is Polled && status_ok(
            event->Polled_status as int,
        ) && event->reading == 0 ==> model.react(event).action is Wait && model.react(event).next
            == model,
{
}

/// A request to shut down is honoured at the first report that arrives
/// with no lease in flight: the loop stops, and when a lease is in flight
/// it is released first.
pub proof fn lemma_shutdown_between_leases(model: LoopModel, event: Event)
    requires
        model.wf(),
        model.shutdown,
    ensures
        !(model.react(event).action is Acquire),
        !(model.react(event).action is Start),
        !(model.react(event).action is Poll),
        !(model.react(event).action is Wait),
{
}

/// Every lease is released exactly once. Over any sequence of events, from
/// a loop with no lease in flight, the loop has asked for as many releases as
/// leases were granted, but for the one whose bytes are being moved. So a
/// lease is released before the next is acquired, and before the loop
/// stops.
pub proof fn lemma_every_lease_is_released(model: LoopModel, events: Seq<Event>)
    requires
        model.wf(),
        !model.leased(),
    ensures
        model.after_all(events).wf(),
        model.leases_granted(events) == model.releases_asked(events) + (if model.after_all(
            events,
        ).phase is Reading {
            1nat
        } else {
            0nat
        }),
    decreases events.len(),
{
    if events.len() > 0 {
        lemma_every_lease_is_released(model, events.drop_last());
        let before: LoopModel = model.after_all(events.drop_last());
        lemma_react_keeps_wf(before, events.last());
        lemma_lease_discipline(before, events.last());
    }
}

/// The endpoint is torn down exactly once. Over any sequence of events,
/// from a loop whose session is not stopped, the loop has asked for the
/// teardown once if it has ended and not at all if it has not; and it has
/// ended exactly when its session is stopped.
pub proof fn lemma_torn_down_exactly_once(model: LoopModel, events: Seq<Event>)
    requires
        model.wf(),
        !(model.phase is Stopped),
        model.session.state != SessionState::Stopped,
    ensures
        model.after_all(events).phase is Stopped <==> model.after_all(events).session.state
            == SessionState::Stopped,
        model.teardowns_asked(events) == (if model.after_all(events).phase is Stopped {
            1nat
        } else {
            0nat
        }),
    decreases events.len(),
{
    if events.len() > 0 {
        lemma_torn_down_exactly_once(model, events.drop_last());
    }
}

} // verus!
