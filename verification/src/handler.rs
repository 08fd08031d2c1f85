//! The life of one session on one connection: `Idle`, `Accepted`,
//! `Serving`, `Closed`.
//!
//! The handler decides; the caller does the outside work. The caller hands
//! over the connection once it is live, then accepts inbound streams one
//! after the other and tells the handler how each attempt went. For every
//! stream the handler asks for a receiver of its own; when accepting fails
//! the session is closed, which is the ordinary end of a session and no
//! error.

use crate::event::SESSION_CONNECTED;
use crate::receiver::{receive_stream, stream_verdict, StreamError};
use crate::sink::{message_published, published, AppHandle, EmitOutcome, EventEmitter};
use crate::state::{PeerId, SessionState};
use vstd::prelude::*;

verus! {

/// Where a session stands.
#[derive(Debug, Clone, Copy, PartialEq, Eq)]
pub enum SessionPhase {
    /// No connection yet.
    Idle,
    /// The connection is recorded and announced.
    Accepted,
    /// Inbound streams are being accepted.
    Serving,
    /// Accepting a stream failed; the session is over.
    Closed,
}

/// How an attempt to accept the next inbound stream went.
#[derive(Debug, Clone, Copy, PartialEq, Eq)]
pub enum AcceptOutcome {
    /// A stream was accepted.
    Stream,
    /// The connection was closed or reset, or the transport failed.
    Failed,
}

/// What the accept loop is to do next.
#[derive(Debug, Clone, Copy, PartialEq, Eq)]
pub enum ServeAction {
    /// Start a receiver for the stream just accepted, independent of the
    /// loop, and accept the next stream.
    SpawnReceiver,
    /// Leave the loop and return successfully.
    Stop,
}

/// Why a step of the session's life was refused.
#[derive(Debug, Clone, Copy, PartialEq, Eq)]
pub enum PhaseError {
    /// The step does not start from the phase the session is in.
    WrongPhase { phase: SessionPhase },
}

/// The phase after an attempt to accept a stream, and what the loop does
/// next. Only a serving session accepts streams; in any other phase the
/// phase stays and the loop is told to stop.
pub open spec fn serve_step(phase: SessionPhase, outcome: AcceptOutcome) -> (
    SessionPhase,
    ServeAction,
) {
    match phase {
        SessionPhase::Serving => match outcome {
            AcceptOutcome::Stream => (SessionPhase::Serving, ServeAction::SpawnReceiver),
            AcceptOutcome::Failed => (SessionPhase::Closed, ServeAction::Stop),
        },
        _ => (phase, ServeAction::Stop),
    }
}

/// The phase after a run of attempts to accept a stream.
pub open spec fn serve_all(phase: SessionPhase, outcomes: Seq<AcceptOutcome>) -> SessionPhase
    decreases outcomes.len(),
{
    if outcomes.len() == 0 {
        phase
    } else {
        serve_all(serve_step(phase, outcomes[0]).0, outcomes.drop_first())
    }
}

/// The moves that the life of a session is made of: a phase stays, or
/// goes one step forward.
pub open spec fn may_follow(before: SessionPhase, after: SessionPhase) -> bool {
    before == after || match before {
        SessionPhase::Idle => after is Accepted,
        SessionPhase::Accepted => after is Serving,
        SessionPhase::Serving => after is Closed,
        SessionPhase::Closed => false,
    }
}

/// A session never becomes idle again, and a closed session stays closed:
/// no connection is announced twice, and none after the session is over.
pub proof fn lemma_life_goes_forward(before: SessionPhase, after: SessionPhase)
    requires
        may_follow(before, after),
    ensures
        !(before is Idle) ==> !(after is Idle),
        before is Closed ==> after is Closed,
{
}

/// A stream that was accepted leaves a serving session serving: whatever
/// becomes of that stream, the next one is accepted as before.
pub proof fn lemma_streams_do_not_end_the_session(outcomes: Seq<AcceptOutcome>)
    requires
        forall|i: int| 0 <= i < outcomes.len() ==> outcomes[i] is Stream,
    ensures
        serve_all(SessionPhase::Serving, outcomes) == SessionPhase::Serving,
    decreases outcomes.len(),
{
    if outcomes.len() > 0 {
        lemma_streams_do_not_end_the_session(outcomes.drop_first());
    }
}

/// How far a session with a connection has come.
#[derive(Debug, Clone, Copy, PartialEq, Eq)]
enum Stage {
    Accepted,
    Serving,
    Closed,
}

/// Session protocol handler: the state of one session and the phase of its
/// life. A session is `Idle` exactly as long as it has no connection.
pub struct SessionHandler<C, S> {
    state: SessionState<C, S>,
    stage: Stage,
}

impl<C, S> SessionHandler<C, S> {
    /// The session's state.
    pub closed spec fn spec_state(&self) -> SessionState<C, S> {
        self.state
    }

    /// The phase the session is in.
    pub closed spec fn spec_phase(&self) -> SessionPhase {
        if !self.state.spec_is_connected() {
            SessionPhase::Idle
        } else {
            match self.stage {
                Stage::Accepted => SessionPhase::Accepted,
                Stage::Serving => SessionPhase::Serving,
                Stage::Closed => SessionPhase::Closed,
            }
        }
    }

    /// A session is idle exactly as long as it has no connection.
    pub proof fn lemma_idle_without_connection(&self)
        ensures
            self.spec_phase() is Idle <==> !self.spec_state().spec_is_connected(),
    {
    }

    /// A handler for a session that has no connection yet.
    pub fn new(app_handle: AppHandle<S>) -> (handler: Self)
        ensures
            handler.spec_phase() == SessionPhase::Idle,
            handler.spec_state().spec_app_handle() == app_handle,
            !handler.spec_state().spec_is_connected(),
    {
        SessionHandler { state: SessionState::new(app_handle), stage: Stage::Accepted }
    }

    /// The session's state.
    pub fn get_state(&self) -> (state: &SessionState<C, S>)
        ensures
            *state == self.spec_state(),
    {
        &self.state
    }

    /// The phase the session is in.
    pub fn phase(&self) -> (phase: SessionPhase)
        ensures
            phase == self.spec_phase(),
    {
        if !self.state.is_connected() {
            SessionPhase::Idle
        } else {
            match self.stage {
                Stage::Accepted => SessionPhase::Accepted,
                Stage::Serving => SessionPhase::Serving,
                Stage::Closed => SessionPhase::Closed,
            }
        }
    }

    /// Enters the accept loop: `Accepted` becomes `Serving`. From any other
    /// phase nothing changes and the phase is reported.
    pub fn begin_serving(&mut self) -> (r: Result<(), PhaseError>)
        ensures
            final(self).spec_state() == old(self).spec_state(),
            may_follow(old(self).spec_phase(), final(self).spec_phase()),
            old(self).spec_phase() is Accepted ==> r is Ok && final(self).spec_phase()
                == SessionPhase::Serving,
            !(old(self).spec_phase() is Accepted) ==> r == Err::<(), PhaseError>(
                PhaseError::WrongPhase { phase: old(self).spec_phase() },
            ) && final(self).spec_phase() == old(self).spec_phase(),
    {
        match self.phase() {
            SessionPhase::Accepted => {
                self.stage = Stage::Serving;
                Ok(())
            },
            phase => Err(PhaseError::WrongPhase { phase }),
        }
    }

    /// Takes the outcome of an attempt to accept the next inbound stream.
    /// While serving, a stream gets a receiver and the loop goes on; a
    /// failure closes the session and ends the loop.
    pub fn on_accept(&mut self, outcome: AcceptOutcome) -> (action: ServeAction)
        ensures
            final(self).spec_state() == old(self).spec_state(),
            may_follow(old(self).spec_phase(), final(self).spec_phase()),
            (final(self).spec_phase(), action) == serve_step(old(self).spec_phase(), outcome),
    {
        match self.phase() {
            SessionPhase::Serving => match outcome {
                AcceptOutcome::Stream => ServeAction::SpawnReceiver,
                AcceptOutcome::Failed => {
                    self.stage = Stage::Closed;
                    ServeAction::Stop
                },
            },
            _ => ServeAction::Stop,
        }
    }
}

impl<C, S: EventEmitter> SessionHandler<C, S> {
    /// Takes over a connection that has just come up: records it and its
    /// peer, and publishes `SESSION_CONNECTED`. `Idle` becomes `Accepted`.
    /// From any other phase nothing changes, nothing is published, and the
    /// phase is reported.
    pub fn accept(&mut self, peer_id: PeerId, connection: C) -> (r: Result<EmitOutcome, PhaseError>)
        ensures
            final(self).spec_state().spec_app_handle() == old(self).spec_state().spec_app_handle(),
            may_follow(old(self).spec_phase(), final(self).spec_phase()),
            r matches Ok(outcome) ==> published(
                old(self).spec_state().spec_app_handle(),
                SESSION_CONNECTED@,
                None,
                outcome,
            ),
            old(self).spec_phase() is Idle ==> r is Ok && final(self).spec_phase()
                == SessionPhase::Accepted && final(self).spec_state().spec_peer_id() == Some(
                peer_id,
            ) && final(self).spec_state().spec_connection() == Some(connection),
            !(old(self).spec_phase() is Idle) ==> r == Err::<EmitOutcome, PhaseError>(
                PhaseError::WrongPhase { phase: old(self).spec_phase() },
            ) && final(self).spec_phase() == old(self).spec_phase() && final(self).spec_state()
                == old(self).spec_state(),
    {
        match self.phase() {
            SessionPhase::Idle => {
                let _ = self.state.set_connection(peer_id, connection);
                self.stage = Stage::Accepted;
                Ok(self.state.announce_connected())
            },
            phase => Err(PhaseError::WrongPhase { phase }),
        }
    }

    /// Handles one inbound stream that is wholly in memory: `data` holds
    /// everything that arrived before the stream ended. The message is
    /// decoded and published as a `SESSION_MESSAGE` event. A stream that is
    /// given up leaves the session as it was.
    pub fn handle_uni_stream(&self, data: &[u8]) -> (r: Result<EmitOutcome, StreamError>)
        ensures
            match stream_verdict(data@) {
                Ok(message) => r matches Ok(outcome) && message_published(
                    self.spec_state().spec_app_handle(),
                    message,
                    outcome,
                ),
                Err(e) => r == Err::<EmitOutcome, StreamError>(e),
            },
    {
        match receive_stream(data) {
            Ok(message) => Ok(self.state.dispatch(&message)),
            Err(e) => Err(e),
        }
    }
}

} // verus!
