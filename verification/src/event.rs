//! The events that a session publishes to its event sink.

use crate::json::{
    empty_object, find_member, insert_member, json_text, print_document_string, string_value,
    unsigned_value, value_tree, JsonTree,
};
use crate::message::{unsigned, MessageView, SessionMessage};
use vstd::pervasive::unreached;
use vstd::prelude::*;
use vstd::utf8::encode_utf8;

verus! {

/// Name of the event published once a connection is live.
pub const SESSION_CONNECTED: &'static str = "session-connected";

/// Name of the event published for every message received.
pub const SESSION_MESSAGE: &'static str = "session-message";

/// The JSON document that announces a received message: a `type` member
/// that names the variant, followed by the variant's fields.
pub open spec fn event_document(m: MessageView) -> JsonTree {
    match m {
        MessageView::Text { content } => JsonTree::Object(
            seq![("type"@, JsonTree::String("text"@)), ("content"@, JsonTree::String(content))],
        ),
        MessageView::FileOffer { name, size, hash } => JsonTree::Object(
            seq![
                ("type"@, JsonTree::String("file_offer"@)),
                ("name"@, JsonTree::String(name)),
                ("size"@, unsigned(size)),
                ("hash"@, JsonTree::String(hash)),
            ],
        ),
        MessageView::FileAccept { hash } => JsonTree::Object(
            seq![("type"@, JsonTree::String("file_accept"@)), ("hash"@, JsonTree::String(hash))],
        ),
        MessageView::CallSignal { signal_type, data } => JsonTree::Object(
            seq![
                ("type"@, JsonTree::String("call_signal"@)),
                ("signal_type"@, JsonTree::String(signal_type)),
                ("data"@, JsonTree::String(data)),
            ],
        ),
    }
}

/// The member names of one event document differ from each other.
proof fn lemma_member_names_differ()
    ensures
        "type"@ != "content"@,
        "type"@ != "name"@,
        "type"@ != "size"@,
        "type"@ != "hash"@,
        "type"@ != "signal_type"@,
        "type"@ != "data"@,
        "name"@ != "size"@,
        "name"@ != "hash"@,
        "size"@ != "hash"@,
        "signal_type"@ != "data"@,
{
    reveal_strlit("type");
    reveal_strlit("content");
    reveal_strlit("name");
    reveal_strlit("size");
    reveal_strlit("hash");
    reveal_strlit("signal_type");
    reveal_strlit("data");
    assert("type"@.len() == 4 && "content"@.len() == 7 && "signal_type"@.len() == 11);
    assert("type"@[0] != "name"@[0]);
    assert("type"@[0] != "size"@[0]);
    assert("type"@[0] != "hash"@[0]);
    assert("type"@[0] != "data"@[0]);
    assert("name"@[0] != "size"@[0]);
    assert("name"@[0] != "hash"@[0]);
    assert("size"@[0] != "hash"@[0]);
    assert("data"@.len() == 4);
}

/// Starts an event document with its `type` member.
fn typed_object(kind: &str) -> (v: serde_json::Value)
    ensures
        value_tree(v) == JsonTree::Object(seq![("type"@, JsonTree::String(kind@))]),
{
    let mut object = empty_object();
    insert_member(&mut object, "type", string_value(kind.to_owned()));
    assert(value_tree(object)->Object_0 =~= seq![("type"@, JsonTree::String(kind@))]);
    object
}

/// Builds the document that announces a received message.
pub fn message_event(message: &SessionMessage) -> (doc: serde_json::Value)
    ensures
        value_tree(doc) == event_document(message@),
{
    proof {
        lemma_member_names_differ();
        reveal_with_fuel(find_member, 4);
    }
    let doc = match message {
        SessionMessage::Text { content } => {
            let mut doc = typed_object("text");
            insert_member(&mut doc, "content", string_value(content.clone()));
            doc
        },
        SessionMessage::FileOffer { name, size, hash } => {
            let mut doc = typed_object("file_offer");
            insert_member(&mut doc, "name", string_value(name.clone()));
            insert_member(&mut doc, "size", unsigned_value(*size));
            insert_member(&mut doc, "hash", string_value(hash.clone()));
            doc
        },
        SessionMessage::FileAccept { hash } => {
            let mut doc = typed_object("file_accept");
            insert_member(&mut doc, "hash", string_value(hash.clone()));
            doc
        },
        SessionMessage::CallSignal { signal_type, data } => {
            let mut doc = typed_object("call_signal");
            insert_member(&mut doc, "signal_type", string_value(signal_type.clone()));
            insert_member(&mut doc, "data", string_value(data.clone()));
            doc
        },
    };
    assert(value_tree(doc)->Object_0 =~= event_document(message@)->Object_0);
    doc
}

/// The payload published with `SESSION_MESSAGE` for a received message: the
/// compact JSON text of its event document.
pub fn event_payload(message: &SessionMessage) -> (payload: String)
    ensures
        encode_utf8(payload@) == json_text(event_document(message@)),
{
    let doc = message_event(message);
    match print_document_string(&doc) {
        Ok(payload) => payload,
        Err(_) => unreached(),
    }
}

} // verus!
