//! Starting a session as the initiator.
//!
//! The initiator resolves a ticket to the address of a peer, binds an
//! endpoint, and connects. Each of the three is outside work that may fail,
//! and each failure ends the attempt with an error of its own. Once the
//! connection stands, the session is set up as on the accepting side.

use crate::handler::{SessionHandler, SessionPhase};
use crate::outcome::StageOutcome;
use crate::event::SESSION_CONNECTED;
use crate::sink::{published, AppHandle, EmitOutcome, EventEmitter};
use crate::state::PeerId;
use vstd::pervasive::unreached;
use vstd::prelude::*;

verus! {

/// Protocol identifier of the session protocol, agreed when a connection is
/// established: the ASCII bytes of `sendme/session/1`.
pub const SESSION_ALPN: [u8; 16] = [
    0x73, 0x65, 0x6e, 0x64, 0x6d, 0x65, 0x2f, 0x73, 0x65, 0x73, 0x73, 0x69, 0x6f, 0x6e, 0x2f, 0x31,
];

/// The outside work of connecting, in the order in which it is done.
#[derive(Debug, Clone, Copy, PartialEq, Eq)]
pub enum ConnectStage {
    /// Parse the ticket; no network operation has been tried yet.
    ParseTicket,
    /// Bind the local endpoint.
    BindEndpoint,
    /// Connect to the peer the ticket names.
    ConnectPeer,
}

/// Why no session could be started.
#[derive(Debug, Clone, Copy, PartialEq, Eq)]
pub enum ConnectError {
    /// The ticket could not be parsed.
    TicketParse,
    /// The endpoint could not be bound.
    Bind,
    /// The connection to the peer could not be established.
    Connect,
}

/// Where an attempt to connect stands after a stage.
#[derive(Debug, Clone, Copy, PartialEq, Eq)]
pub enum ConnectProgress {
    /// Go on with this stage.
    Next(ConnectStage),
    /// The connection stands; set up the session.
    Established,
    /// The attempt is over; nothing more is tried.
    Failed(ConnectError),
}

/// The error that belongs to a stage.
pub open spec fn stage_error(stage: ConnectStage) -> ConnectError {
    match stage {
        ConnectStage::ParseTicket => ConnectError::TicketParse,
        ConnectStage::BindEndpoint => ConnectError::Bind,
        ConnectStage::ConnectPeer => ConnectError::Connect,
    }
}

/// Where an attempt stands after `stage` went as `outcome` says.
pub open spec fn progress_after(stage: ConnectStage, outcome: StageOutcome) -> ConnectProgress {
    match outcome {
        StageOutcome::Failed => ConnectProgress::Failed(stage_error(stage)),
        StageOutcome::Succeeded => match stage {
            ConnectStage::ParseTicket => ConnectProgress::Next(ConnectStage::BindEndpoint),
            ConnectStage::BindEndpoint => ConnectProgress::Next(ConnectStage::ConnectPeer),
            ConnectStage::ConnectPeer => ConnectProgress::Established,
        },
    }
}

/// The first stage of connecting.
pub fn first_stage() -> (stage: ConnectStage)
    ensures
        stage == ConnectStage::ParseTicket,
{
    ConnectStage::ParseTicket
}

/// Starts a session as the initiator, one stage at a time: takes the stage
/// that was just tried and how it went, and says how to go on. A failure
/// ends the attempt with the error of its stage, and nothing is tried
/// again.
pub fn connect_session(stage: ConnectStage, outcome: StageOutcome) -> (progress: ConnectProgress)
    ensures
        progress == progress_after(stage, outcome),
{
    match outcome {
        StageOutcome::Failed => ConnectProgress::Failed(
            match stage {
                ConnectStage::ParseTicket => ConnectError::TicketParse,
                ConnectStage::BindEndpoint => ConnectError::Bind,
                ConnectStage::ConnectPeer => ConnectError::Connect,
            },
        ),
        StageOutcome::Succeeded => match stage {
            ConnectStage::ParseTicket => ConnectProgress::Next(ConnectStage::BindEndpoint),
            ConnectStage::BindEndpoint => ConnectProgress::Next(ConnectStage::ConnectPeer),
            ConnectStage::ConnectPeer => ConnectProgress::Established,
        },
    }
}

/// Sets up the session on a connection that the initiator has established:
/// the connection and its peer are recorded, `SESSION_CONNECTED` is
/// published, and the session is serving, as after an accepted connection.
pub fn establish<C, S: EventEmitter>(app_handle: AppHandle<S>, peer_id: PeerId, connection: C) -> (r: (
    SessionHandler<C, S>,
    EmitOutcome,
))
    ensures
        r.0.spec_phase() == SessionPhase::Serving,
        r.0.spec_state().spec_app_handle() == app_handle,
        r.0.spec_state().spec_peer_id() == Some(peer_id),
        r.0.spec_state().spec_connection() == Some(connection),
        published(app_handle, SESSION_CONNECTED@, None, r.1),
{
    let mut handler = SessionHandler::new(app_handle);
    let announced = handler.accept(peer_id, connection);
    let _ = handler.begin_serving();
    match announced {
        Ok(outcome) => (handler, outcome),
        Err(_) => unreached(),
    }
}

/// The three stages fail with three different errors, and a failed stage is
/// the end: the error says which stage it was.
pub proof fn lemma_failures_are_distinct(a: ConnectStage, b: ConnectStage)
    ensures
        stage_error(a) == stage_error(b) ==> a == b,
        progress_after(a, StageOutcome::Failed) == ConnectProgress::Failed(stage_error(a)),
{
}

} // verus!
