//! The record of one session: who the peer is, the live connection, and the
//! sink that events are published to.

use crate::event::{event_payload, SESSION_CONNECTED, SESSION_MESSAGE};
use crate::frame::{be32_value, framed, Frame};
use crate::message::{encoding, SessionMessage};
use crate::send::SendError;
use crate::sink::{message_published, published, AppHandle, EmitOutcome, EventEmitter};
use vstd::prelude::*;

verus! {

/// The identity of a peer: the 32 bytes of its public key.
#[derive(Debug, Clone, Copy, PartialEq, Eq, Hash)]
pub struct PeerId(pub [u8; 32]);

/// Why a connection could not be recorded.
#[derive(Debug, Clone, Copy, PartialEq, Eq)]
pub enum StateError {
    /// The session already has its connection.
    AlreadyConnected,
}

/// A live connection and the peer at its other end.
struct Link<C> {
    peer_id: PeerId,
    connection: C,
}

/// Session state shared between the handler of inbound streams and the
/// sender of outbound messages. Peer identity and connection are set
/// together, once, and never cleared.
pub struct SessionState<C, S> {
    app_handle: AppHandle<S>,
    link: Option<Link<C>>,
}

impl<C, S> SessionState<C, S> {
    /// The event sink, if one is configured.
    pub closed spec fn spec_app_handle(&self) -> AppHandle<S> {
        self.app_handle
    }

    /// The peer's identity, once a connection is recorded.
    pub closed spec fn spec_peer_id(&self) -> Option<PeerId> {
        match self.link {
            Some(link) => Some(link.peer_id),
            None => None,
        }
    }

    /// The connection, once one is recorded.
    pub closed spec fn spec_connection(&self) -> Option<C> {
        match self.link {
            Some(link) => Some(link.connection),
            None => None,
        }
    }

    /// Whether a connection is recorded.
    pub open spec fn spec_is_connected(&self) -> bool {
        self.spec_connection() is Some
    }

    /// Peer identity and connection are recorded together.
    pub proof fn lemma_populated_together(&self)
        ensures
            self.spec_peer_id() is Some <==> self.spec_connection() is Some,
    {
    }

    /// A session without a connection.
    pub fn new(app_handle: AppHandle<S>) -> (state: Self)
        ensures
            state.spec_app_handle() == app_handle,
            state.spec_peer_id() is None,
            state.spec_connection() is None,
    {
        SessionState { app_handle, link: None }
    }

    /// Whether a connection is recorded.
    pub fn is_connected(&self) -> (connected: bool)
        ensures
            connected == self.spec_is_connected(),
    {
        self.link.is_some()
    }

    /// The peer's identity, once a connection is recorded.
    pub fn peer_id(&self) -> (peer_id: Option<PeerId>)
        ensures
            peer_id == self.spec_peer_id(),
    {
        match &self.link {
            Some(link) => Some(link.peer_id),
            None => None,
        }
    }

    /// The connection, once one is recorded.
    pub fn connection(&self) -> (connection: Option<&C>)
        ensures
            match connection {
                Some(c) => self.spec_connection() == Some(*c),
                None => self.spec_connection() is None,
            },
    {
        match &self.link {
            Some(link) => Some(&link.connection),
            None => None,
        }
    }

    /// Records the live connection and the peer at its other end. This
    /// happens once per session: a second call changes nothing and reports
    /// `AlreadyConnected`.
    pub fn set_connection(&mut self, peer_id: PeerId, connection: C) -> (r: Result<(), StateError>)
        ensures
            final(self).spec_app_handle() == old(self).spec_app_handle(),
            old(self).spec_is_connected() ==> r == Err::<(), StateError>(
                StateError::AlreadyConnected,
            ) && final(self).spec_peer_id() == old(self).spec_peer_id()
                && final(self).spec_connection() == old(self).spec_connection(),
            !old(self).spec_is_connected() ==> r == Ok::<(), StateError>(())
                && final(self).spec_peer_id() == Some(peer_id) && final(self).spec_connection()
                == Some(connection),
    {
        if self.link.is_some() {
            Err(StateError::AlreadyConnected)
        } else {
            self.link = Some(Link { peer_id, connection });
            Ok(())
        }
    }

    /// Prepares a message for sending: the frame to write to a fresh
    /// outbound stream of the connection. Fails with `NoActiveConnection`
    /// while the session has no connection, and with `MessageTooLong` for a
    /// message whose encoding is longer than the length prefix can say; on
    /// no other ground.
    pub fn send_message(&self, message: SessionMessage) -> (r: Result<Frame, SendError>)
        ensures
            !self.spec_is_connected() <==> r == Err::<Frame, SendError>(
                SendError::NoActiveConnection,
            ),
            self.spec_is_connected() && encoding(message@).len() > u32::MAX <==> r == Err::<
                Frame,
                SendError,
            >(SendError::MessageTooLong),
            self.spec_is_connected() && encoding(message@).len() <= u32::MAX <==> r is Ok,
            r matches Ok(frame) ==> frame.spec_payload() == encoding(message@)
                && frame.well_formed() && be32_value(frame.spec_length_prefix())
                == frame.spec_payload().len() && frame.wire() == framed(encoding(message@)),
    {
        if self.link.is_none() {
            return Err(SendError::NoActiveConnection);
        }
        match message.to_bytes() {
            Ok(payload) => match Frame::new(payload) {
                Some(frame) => Ok(frame),
                None => Err(SendError::MessageTooLong),
            },
            Err(e) => Err(SendError::Encode(e)),
        }
    }
}

impl<C, S: EventEmitter> SessionState<C, S> {
    /// Publishes an event with its payload to the sink, if there is one.
    /// What the sink answers is reported, never raised: a sink that refuses
    /// an event does not stop the session.
    pub fn emit_event(&self, event_name: &str, payload: &str) -> (outcome: EmitOutcome)
        ensures
            published(self.spec_app_handle(), event_name@, Some(payload@), outcome),
            outcome is NoSink <==> self.spec_app_handle() is None,
    {
        match &self.app_handle {
            Some(handle) => match handle.emit_event_with_payload(event_name, payload) {
                Ok(_) => EmitOutcome::Delivered,
                Err(reason) => EmitOutcome::Refused { reason },
            },
            None => EmitOutcome::NoSink,
        }
    }

    /// Publishes `SESSION_CONNECTED`, which carries no payload.
    pub fn announce_connected(&self) -> (outcome: EmitOutcome)
        ensures
            published(self.spec_app_handle(), SESSION_CONNECTED@, None, outcome),
            outcome is NoSink <==> self.spec_app_handle() is None,
    {
        match &self.app_handle {
            Some(handle) => match handle.emit_event(SESSION_CONNECTED) {
                Ok(_) => EmitOutcome::Delivered,
                Err(reason) => EmitOutcome::Refused { reason },
            },
            None => EmitOutcome::NoSink,
        }
    }

    /// Publishes a received message as a `SESSION_MESSAGE` event whose
    /// payload is the JSON text of the message's event document.
    pub fn dispatch(&self, message: &SessionMessage) -> (outcome: EmitOutcome)
        ensures
            message_published(self.spec_app_handle(), message@, outcome),
            outcome is NoSink <==> self.spec_app_handle() is None,
    {
        let payload = event_payload(message);
        let outcome = self.emit_event(SESSION_MESSAGE, payload.as_str());
        assert(published(self.spec_app_handle(), SESSION_MESSAGE@, Some(payload@), outcome));
        outcome
    }
}

} // verus!
