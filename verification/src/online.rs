//! A networked match between the local player and one peer: the session's
//! life cycle, the tick, and what arrives from the wire. Sending and receiving
//! bytes is left to the caller.

use vstd::prelude::*;
use crate::checksum::{checksum, checksum_spec};
use crate::input::{decode_spec, encode_spec, BoxInput, PaddleInput};
use crate::input_queue::FRAME_LIMIT;
use crate::pong::{Match, PongError};
use crate::rollback::{Advance, Confirmation, Rollback, RollbackView};
use crate::wire::{ChecksumReport, WireMessage, REPORT_LENGTH};

verus! {

/// How many players a session has.
pub const NUM_PLAYERS: usize = 2;

/// How many frames a session may run ahead of the peer's confirmed input.
pub const MAX_PREDICTION: usize = 12;

/// How many frames lie between reading a local input and simulating it.
pub const INPUT_DELAY: usize = 2;

/// Ticks per second.
pub const FPS: usize = 60;

/// Where a session stands in its life.
#[derive(Clone, Copy, Debug, PartialEq, Eq, Structural)]
pub enum SessionState {
    /// No peer has connected yet.
    WaitingForPeers,
    /// The peer is connected and no frame has been simulated yet.
    Synchronized,
    /// Frames are being simulated.
    Running,
    /// The peer has left. The session is over.
    Disconnected,
    /// The peers cannot be brought to the same state. The session is over.
    DesyncFatal,
}

/// What a tick did.
#[derive(Clone, Copy, Debug, PartialEq, Eq, Structural)]
pub enum Tick {
    /// The session still waits for its peer. Nothing was simulated.
    Waiting,
    /// One frame was simulated, and `message` is to be sent to the peer.
    Advanced { speculative: bool, message: WireMessage },
}

/// What became of bytes that arrived from the peer.
#[derive(Clone, Copy, Debug, PartialEq, Eq, Structural)]
pub enum Received {
    /// They were an input, and the engine took it.
    Input(Confirmation),
    /// They were a checksum report. It was compared where the session still
    /// holds the settled state of the report's frame, and then it agreed.
    Checksum { compared: bool },
}

/// What a session stands for.
#[verifier::ext_equal]
pub struct SessionView {
    pub status: SessionState,
    pub engine: RollbackView,
}

impl SessionView {
    /// The message that tells the peer of the local input read at this tick:
    /// it is for the frame `delay` frames ahead of the current one.
    pub open spec fn outgoing(self, local_input: PaddleInput) -> WireMessage {
        WireMessage {
            handle: self.engine.local as u8,
            frame: (self.engine.frame + self.engine.delay) as u32,
            input: BoxInput { inp: encode_spec(local_input) },
        }
    }

    /// What the lobby does once per tick while it waits: with no peer
    /// connected, nothing; with one, the session is synchronized. A session
    /// that is past waiting stays as it is.
    pub open spec fn lobby(self, connected_peers: int) -> SessionView {
        if self.status is WaitingForPeers && connected_peers > 0 {
            SessionView { status: SessionState::Synchronized, ..self }
        } else {
            self
        }
    }

    /// What losing the peer does: the session is over, unless it already ended
    /// in a desynchronisation.
    pub open spec fn peer_disconnected(self) -> SessionView {
        if self.status is DesyncFatal {
            self
        } else {
            SessionView { status: SessionState::Disconnected, ..self }
        }
    }

    /// What a tick does.
    ///
    /// A session that waits for its peer goes on waiting, and one that is over
    /// reports how it ended; neither changes. A synchronized or running session
    /// is running afterwards: where its engine is stalled the tick reports the
    /// stall and changes nothing else, otherwise the engine advances by one
    /// frame and the tick hands out the message for the peer.
    pub open spec fn tick(self, local_input: PaddleInput) -> (SessionView, Result<Tick, PongError>) {
        match self.status {
            SessionState::WaitingForPeers => (self, Ok(Tick::Waiting)),
            SessionState::Disconnected => (self, Err(PongError::Disconnected)),
            SessionState::DesyncFatal => (self, Err(PongError::DesyncFatal)),
            _ => {
                let (engine, advance) = self.engine.advance_frame(local_input);
                let next = SessionView { status: SessionState::Running, engine };
                match advance {
                    Advance::Stalled => (next, Err(PongError::StallCondition)),
                    Advance::Advanced { speculative } => (
                        next,
                        Ok(Tick::Advanced { speculative, message: self.outgoing(local_input) }),
                    ),
                }
            },
        }
    }

    /// What an input message from the wire does.
    ///
    /// Bytes that are no message, or that name the local player's own slot,
    /// are dropped as malformed. Any other message hands its input to the
    /// engine; where the engine refuses it as a desynchronisation, the session
    /// is over.
    pub open spec fn take_input(self, bytes: Seq<u8>) -> (SessionView, Result<Received, PongError>) {
        match WireMessage::from_bytes_spec(bytes) {
            None => (self, Err(PongError::MalformedFrame)),
            Some(message) => if message.handle == self.engine.local {
                (self, Err(PongError::MalformedFrame))
            } else {
                let (engine, outcome) = self.engine.add_input(
                    message.handle as int,
                    message.frame as int,
                    decode_spec(message.input.inp),
                );
                match outcome {
                    Err(error) => (
                        SessionView { status: SessionState::DesyncFatal, engine },
                        Err(error),
                    ),
                    Ok(confirmation) => (
                        SessionView { status: self.status, engine },
                        Ok(Received::Input(confirmation)),
                    ),
                }
            },
        }
    }

    /// What a checksum report from the wire does.
    ///
    /// Bytes that are no report, or that name the local player's own slot, are
    /// dropped as malformed. A report for a frame that is not settled here, or
    /// whose state is no longer held, is not compared. Any other is compared
    /// with the checksum of the state at its frame: where they differ, the
    /// session is over.
    pub open spec fn take_report(self, bytes: Seq<u8>) -> (SessionView, Result<Received, PongError>) {
        match ChecksumReport::from_bytes_spec(bytes) {
            None => (self, Err(PongError::MalformedFrame)),
            Some(report) => if report.handle == self.engine.local {
                (self, Err(PongError::MalformedFrame))
            } else if !self.engine.settled(report.frame as int) {
                (self, Ok(Received::Checksum { compared: false }))
            } else if checksum_spec(self.engine.state_at(report.frame as int)) == report.checksum {
                (self, Ok(Received::Checksum { compared: true }))
            } else {
                (
                    SessionView { status: SessionState::DesyncFatal, ..self },
                    Err(PongError::DesyncFatal),
                )
            },
        }
    }

    /// What bytes from the wire do. A session that is over reports how it
    /// ended. Any other takes bytes of a report's length as a checksum report
    /// and all others as an input message.
    pub open spec fn receive(self, bytes: Seq<u8>) -> (SessionView, Result<Received, PongError>) {
        match self.status {
            SessionState::Disconnected => (self, Err(PongError::Disconnected)),
            SessionState::DesyncFatal => (self, Err(PongError::DesyncFatal)),
            _ => if bytes.len() == REPORT_LENGTH {
                self.take_report(bytes)
            } else {
                self.take_input(bytes)
            },
        }
    }
}

/// How far a session has come in its life.
pub open spec fn progress(status: SessionState) -> int {
    match status {
        SessionState::WaitingForPeers => 0,
        SessionState::Synchronized => 1,
        SessionState::Running => 2,
        SessionState::Disconnected => 3,
        SessionState::DesyncFatal => 3,
    }
}

/// A session never goes back in its life: whatever is done to it, it stays
/// where it is or moves on, and a session that is over stays as it ended.
pub proof fn lemma_session_moves_on(
    session: SessionView,
    connected_peers: int,
    local_input: PaddleInput,
    bytes: Seq<u8>,
)
    ensures
        progress(session.lobby(connected_peers).status) >= progress(session.status),
        progress(session.peer_disconnected().status) >= progress(session.status),
        progress(session.tick(local_input).0.status) >= progress(session.status),
        progress(session.receive(bytes).0.status) >= progress(session.status),
        progress(session.status) == 3 ==> {
            &&& session.lobby(connected_peers) == session
            &&& session.peer_disconnected().status == session.status
            &&& session.peer_disconnected().engine == session.engine
            &&& session.tick(local_input).0 == session
            &&& session.tick(local_input).1 is Err
            &&& session.receive(bytes).0 == session
            &&& session.receive(bytes).1 is Err
        },
{
}

/// One networked match, as one of its two peers sees it.
pub struct Session {
    status: SessionState,
    engine: Rollback,
}

impl View for Session {
    type V = SessionView;

    closed spec fn view(&self) -> SessionView {
        SessionView { status: self.status, engine: self.engine@ }
    }
}

impl Session {
    /// The engine is sound and runs with the settings of every session.
    pub closed spec fn wf(&self) -> bool {
        &&& self.engine.wf()
        &&& self.engine@.window == MAX_PREDICTION
        &&& self.engine@.delay == INPUT_DELAY
    }

    /// What holds of every session: it started from a valid match and shows a
    /// valid one, its frame is within the limit, and its settings are those of
    /// every session.
    pub proof fn lemma_invariant(&self)
        requires
            self.wf(),
        ensures
            self@.engine.state().wf(),
            self@.engine.initial.wf(),
            0 <= self@.engine.frame <= FRAME_LIMIT,
            self@.engine.window == MAX_PREDICTION,
            self@.engine.delay == INPUT_DELAY,
            0 <= self@.engine.local < 2,
    {
        self.engine.lemma_invariant();
    }

    /// A session for the match `initial` in which the local player has the
    /// slot `local`. It waits for its peer, may run `MAX_PREDICTION` frames
    /// ahead of the peer's confirmed input, and simulates every input
    /// `INPUT_DELAY` frames after it was read. A match that is not valid, and a
    /// slot that is none of the players', are refused.
    pub fn new(initial: Match, local: usize) -> (made: Result<Session, PongError>)
        ensures
            initial.wf() && local < NUM_PLAYERS <==> made is Ok,
            made matches Err(error) ==> error == PongError::PreconditionViolation,
            made matches Ok(session) ==> {
                &&& session.wf()
                &&& session@.status == SessionState::WaitingForPeers
                &&& session@.engine == (RollbackView {
                    initial,
                    window: MAX_PREDICTION as int,
                    delay: INPUT_DELAY as int,
                    local: local as int,
                    frame: 0,
                    left: crate::input_queue::blank_table(INPUT_DELAY as int),
                    right: crate::input_queue::blank_table(INPUT_DELAY as int),
                })
                &&& session@.engine.state() == initial
            },
    {
        match Rollback::new(initial, MAX_PREDICTION, INPUT_DELAY, local) {
            Ok(engine) => Ok(Session { status: SessionState::WaitingForPeers, engine }),
            Err(error) => Err(error),
        }
    }

    /// Where the session stands in its life.
    pub fn status(&self) -> (status: SessionState)
        ensures
            status == self@.status,
    {
        self.status
    }

    /// The match as it stands, for drawing.
    pub fn snapshot(&self) -> (state: Match)
        requires
            self.wf(),
        ensures
            state == self@.engine.state(),
            state.wf(),
    {
        self.engine.current_state()
    }

    /// How many frames have been simulated.
    pub fn current_frame(&self) -> (frame: usize)
        requires
            self.wf(),
        ensures
            frame == self@.engine.frame,
            frame <= FRAME_LIMIT,
    {
        self.engine.current_frame()
    }

    /// Tells the session how many peers are connected.
    pub fn lobby(&mut self, connected_peers: usize)
        requires
            old(self).wf(),
        ensures
            final(self).wf(),
            final(self)@ == old(self)@.lobby(connected_peers as int),
    {
        match self.status {
            SessionState::WaitingForPeers => {
                if connected_peers > 0 {
                    self.status = SessionState::Synchronized;
                }
            },
            _ => {},
        }
    }

    /// Tells the session that the peer has left.
    pub fn peer_disconnected(&mut self)
        requires
            old(self).wf(),
        ensures
            final(self).wf(),
            final(self)@ == old(self)@.peer_disconnected(),
    {
        match self.status {
            SessionState::DesyncFatal => {},
            _ => {
                self.status = SessionState::Disconnected;
            },
        }
    }

    /// Runs one tick with the local player's input; what that does is
    /// `SessionView::tick`.
    ///
    /// The session must not stand at `FRAME_LIMIT` yet.
    pub fn tick(&mut self, local_input: PaddleInput) -> (outcome: Result<Tick, PongError>)
        requires
            old(self).wf(),
            old(self)@.engine.frame < FRAME_LIMIT,
        ensures
            final(self).wf(),
            (final(self)@, outcome) == old(self)@.tick(local_input),
    {
        match self.status {
            SessionState::WaitingForPeers => Ok(Tick::Waiting),
            SessionState::Disconnected => Err(PongError::Disconnected),
            SessionState::DesyncFatal => Err(PongError::DesyncFatal),
            _ => {
                proof {
                    self.engine.lemma_invariant();
                }
                let frame: usize = self.engine.current_frame() + self.engine.input_delay();
                let message = WireMessage {
                    handle: self.engine.local_handle() as u8,
                    frame: frame as u32,
                    input: BoxInput::encode(local_input),
                };
                self.status = SessionState::Running;
                match self.engine.advance_frame(local_input) {
                    Advance::Stalled => Err(PongError::StallCondition),
                    Advance::Advanced { speculative } => Ok(
                        Tick::Advanced { speculative, message },
                    ),
                }
            },
        }
    }

    /// The report to send to the peer: the checksum of the match at the newest
    /// settled frame.
    pub fn checksum_report(&self) -> (report: ChecksumReport)
        requires
            self.wf(),
        ensures
            report.handle == self@.engine.local,
            self@.engine.settled(report.frame as int),
            forall|later: int| later > report.frame ==> !self@.engine.settled(later),
            report.checksum == checksum_spec(self@.engine.state_at(report.frame as int)),
    {
        let frame: usize = self.engine.newest_settled();
        let sum: u64 = match self.engine.settled_state(frame) {
            Some(state) => checksum(&state),
            None => 0,
        };
        ChecksumReport {
            handle: self.engine.local_handle() as u8,
            frame: frame as u32,
            checksum: sum,
        }
    }

    fn take_input(&mut self, bytes: &[u8]) -> (outcome: Result<Received, PongError>)
        requires
            old(self).wf(),
        ensures
            final(self).wf(),
            (final(self)@, outcome) == old(self)@.take_input(bytes@),
    {
        let message = match WireMessage::from_bytes(bytes) {
            None => {
                return Err(PongError::MalformedFrame);
            },
            Some(message) => message,
        };
        if message.handle as usize == self.engine.local_handle() {
            return Err(PongError::MalformedFrame);
        }
        let outcome = self.engine.add_input(
            message.handle as usize,
            message.frame as usize,
            message.input.decode(),
        );
        match outcome {
            Err(error) => {
                self.status = SessionState::DesyncFatal;
                Err(error)
            },
            Ok(confirmation) => Ok(Received::Input(confirmation)),
        }
    }

    fn take_report(&mut self, bytes: &[u8]) -> (outcome: Result<Received, PongError>)
        requires
            old(self).wf(),
        ensures
            final(self).wf(),
            (final(self)@, outcome) == old(self)@.take_report(bytes@),
    {
        let report = match ChecksumReport::from_bytes(bytes) {
            None => {
                return Err(PongError::MalformedFrame);
            },
            Some(report) => report,
        };
        if report.handle as usize == self.engine.local_handle() {
            return Err(PongError::MalformedFrame);
        }
        match self.engine.settled_state(report.frame as usize) {
            None => Ok(Received::Checksum { compared: false }),
            Some(state) => {
                if checksum(&state) == report.checksum {
                    Ok(Received::Checksum { compared: true })
                } else {
                    self.status = SessionState::DesyncFatal;
                    Err(PongError::DesyncFatal)
                }
            },
        }
    }

    /// Takes bytes that arrived from the peer; what that does is
    /// `SessionView::receive`.
    pub fn receive(&mut self, bytes: &[u8]) -> (outcome: Result<Received, PongError>)
        requires
            old(self).wf(),
        ensures
            final(self).wf(),
            (final(self)@, outcome) == old(self)@.receive(bytes@),
    {
        match self.status {
            SessionState::Disconnected => {
                return Err(PongError::Disconnected);
            },
            SessionState::DesyncFatal => {
                return Err(PongError::DesyncFatal);
            },
            _ => {},
        }
        if bytes.len() == REPORT_LENGTH {
            self.take_report(bytes)
        } else {
            self.take_input(bytes)
        }
    }

    /// Ends the match: the saved states and both players' inputs are let go,
    /// and the match as it stood is handed back.
    pub fn end_match(self) -> (last: Match)
        requires
            self.wf(),
        ensures
            last == self@.engine.state(),
            last.wf(),
    {
        self.engine.current_state()
    }
}

} // verus!
