//! The sink that a session publishes its events to.

use crate::event::{event_document, SESSION_MESSAGE};
use crate::json::json_text;
use crate::message::MessageView;
use vstd::prelude::*;
use vstd::utf8::encode_utf8;

verus! {

/// The event sink of a session, where one is configured.
pub type AppHandle<S> = Option<S>;

/// What became of an event.
#[derive(Debug, Clone, PartialEq, Eq)]
pub enum EmitOutcome {
    /// The session has no sink; the event was dropped.
    NoSink,
    /// The sink took the event.
    Delivered,
    /// The sink refused the event, for the reason it gave.
    Refused { reason: String },
}

/// A sink for the events of a session. A sink may refuse an event; the
/// session goes on regardless.
pub trait EventEmitter {
    /// Whether `answer` is something the sink may answer when it is handed
    /// the event `event_name` with `payload`. A sink that says nothing of
    /// itself may answer anything.
    open spec fn answers(
        &self,
        event_name: Seq<char>,
        payload: Option<Seq<char>>,
        answer: Result<(), String>,
    ) -> bool {
        true
    }

    /// Publishes an event that carries no payload.
    fn emit_event(&self, event_name: &str) -> (answer: Result<(), String>)
        ensures
            self.answers(event_name@, None, answer),
    ;

    /// Publishes an event with its payload.
    fn emit_event_with_payload(&self, event_name: &str, payload: &str) -> (answer: Result<
        (),
        String,
    >)
        ensures
            self.answers(event_name@, Some(payload@), answer),
    ;
}

/// What is reported of an event that the sink answered with `answer`.
pub open spec fn outcome_of(answer: Result<(), String>) -> EmitOutcome {
    match answer {
        Ok(_) => EmitOutcome::Delivered,
        Err(reason) => EmitOutcome::Refused { reason },
    }
}

/// Whether `outcome` reports what became of handing `event_name` and
/// `payload` to `sink`: nothing without a sink, else what the sink answered
/// to exactly that event.
pub open spec fn published<S: EventEmitter>(
    sink: AppHandle<S>,
    event_name: Seq<char>,
    payload: Option<Seq<char>>,
    outcome: EmitOutcome,
) -> bool {
    match sink {
        None => outcome is NoSink,
        Some(handle) => exists|answer: Result<(), String>| #[trigger]
            handle.answers(event_name, payload, answer) && outcome == outcome_of(answer),
    }
}

/// Whether `outcome` reports what became of publishing the message `m`: a
/// `SESSION_MESSAGE` event whose payload is the JSON text of the message's
/// event document.
pub open spec fn message_published<S: EventEmitter>(
    sink: AppHandle<S>,
    m: MessageView,
    outcome: EmitOutcome,
) -> bool {
    exists|payload: Seq<char>|
        encode_utf8(payload) == json_text(event_document(m)) && #[trigger] published(
            sink,
            SESSION_MESSAGE@,
            Some(payload),
            outcome,
        )
}

} // verus!
