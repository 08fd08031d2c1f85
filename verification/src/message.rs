//! The messages of a session and their JSON encoding.
//!
//! A message travels as a JSON object with one member. The key names the
//! variant and the value holds the fields: `{"Text":{"content":"hi"}}`.
//!
//! Encoding writes the fields as an object, in declaration order. Decoding
//! also takes them in any other order, or as an array of the fields in
//! declaration order, and passes over members it does not know. Where a key
//! is repeated, the JSON parser keeps the value given last.

use crate::json::{
    as_str, as_u64, element, element_count, empty_object, insert_member, json_document,
    json_text, member, member_count, parse_document, print_document, string_value,
    tree_element, tree_member, unsigned_value, value_tree, find_member, JsonNumber, JsonTree,
};
use vstd::prelude::*;

verus! {

/// Messages exchanged in a session.
#[derive(Debug, Clone, PartialEq, Eq)]
pub enum SessionMessage {
    /// Text message.
    Text { content: String },
    /// File offer with metadata.
    FileOffer { name: String, size: u64, hash: String },
    /// Accept file offer.
    FileAccept { hash: String },
    /// Call signaling data.
    CallSignal { signal_type: String, data: String },
}

/// The mathematical value of a `SessionMessage`.
pub enum MessageView {
    Text { content: Seq<char> },
    FileOffer { name: Seq<char>, size: u64, hash: Seq<char> },
    FileAccept { hash: Seq<char> },
    CallSignal { signal_type: Seq<char>, data: Seq<char> },
}

impl View for SessionMessage {
    type V = MessageView;

    open spec fn view(&self) -> MessageView {
        match self {
            SessionMessage::Text { content } => MessageView::Text { content: content@ },
            SessionMessage::FileOffer { name, size, hash } => MessageView::FileOffer {
                name: name@,
                size: *size,
                hash: hash@,
            },
            SessionMessage::FileAccept { hash } => MessageView::FileAccept { hash: hash@ },
            SessionMessage::CallSignal { signal_type, data } => MessageView::CallSignal {
                signal_type: signal_type@,
                data: data@,
            },
        }
    }
}

/// Why bytes are not a message, or a message could not be written.
#[derive(Debug, Clone, Copy, PartialEq, Eq)]
pub enum CodecError {
    /// The JSON printer reported a failure.
    Serialize,
    /// The bytes are not a JSON text.
    Syntax,
    /// The JSON value is not an object with exactly one member.
    Envelope,
    /// The member's key names no variant.
    UnknownVariant,
    /// A field of the variant is missing or of the wrong type, or the fields
    /// are not given as an object or as an array of the right length.
    Fields,
}

/// An object with one member.
pub open spec fn object1(k0: Seq<char>, v0: JsonTree) -> JsonTree {
    JsonTree::Object(seq![(k0, v0)])
}

/// An object with two members.
pub open spec fn object2(k0: Seq<char>, v0: JsonTree, k1: Seq<char>, v1: JsonTree) -> JsonTree {
    JsonTree::Object(seq![(k0, v0), (k1, v1)])
}

/// An object with three members.
pub open spec fn object3(
    k0: Seq<char>,
    v0: JsonTree,
    k1: Seq<char>,
    v1: JsonTree,
    k2: Seq<char>,
    v2: JsonTree,
) -> JsonTree {
    JsonTree::Object(seq![(k0, v0), (k1, v1), (k2, v2)])
}

/// The JSON number for `n`.
pub open spec fn unsigned(n: u64) -> JsonTree {
    JsonTree::Number(JsonNumber::PosInt(n))
}

/// The document that encodes `m`: the variant's name over an object of its
/// fields, in declaration order.
pub open spec fn message_document(m: MessageView) -> JsonTree {
    match m {
        MessageView::Text { content } => object1(
            "Text"@,
            object1("content"@, JsonTree::String(content)),
        ),
        MessageView::FileOffer { name, size, hash } => object1(
            "FileOffer"@,
            object3(
                "name"@,
                JsonTree::String(name),
                "size"@,
                unsigned(size),
                "hash"@,
                JsonTree::String(hash),
            ),
        ),
        MessageView::FileAccept { hash } => object1(
            "FileAccept"@,
            object1("hash"@, JsonTree::String(hash)),
        ),
        MessageView::CallSignal { signal_type, data } => object1(
            "CallSignal"@,
            object2("signal_type"@, JsonTree::String(signal_type), "data"@, JsonTree::String(data)),
        ),
    }
}

/// Whether `body` can hold the fields of a variant with `fields` fields: any
/// object, or an array of exactly that length.
pub open spec fn is_field_list(body: JsonTree, fields: nat) -> bool {
    match body {
        JsonTree::Object(_) => true,
        JsonTree::Array(elements) => elements.len() == fields,
        _ => false,
    }
}

/// The value given for the field `name`, which is declared at `position`.
pub open spec fn field_value(body: JsonTree, name: Seq<char>, position: int) -> Option<JsonTree> {
    match body {
        JsonTree::Object(_) => tree_member(body, name),
        JsonTree::Array(_) => tree_element(body, position),
        _ => None,
    }
}

/// The string given for a field, if a string is given.
pub open spec fn string_field(body: JsonTree, name: Seq<char>, position: int) -> Option<
    Seq<char>,
> {
    match field_value(body, name, position) {
        Some(JsonTree::String(s)) => Some(s),
        _ => None,
    }
}

/// The non-negative integer given for a field, if one is given.
pub open spec fn unsigned_field(body: JsonTree, name: Seq<char>, position: int) -> Option<u64> {
    match field_value(body, name, position) {
        Some(JsonTree::Number(JsonNumber::PosInt(n))) => Some(n),
        _ => None,
    }
}

/// The `Text` message whose fields `body` holds.
pub open spec fn text_of(body: JsonTree) -> Result<MessageView, CodecError> {
    if !is_field_list(body, 1) {
        Err(CodecError::Fields)
    } else {
        match string_field(body, "content"@, 0) {
            Some(content) => Ok(MessageView::Text { content }),
            None => Err(CodecError::Fields),
        }
    }
}

/// The `FileOffer` message whose fields `body` holds.
pub open spec fn file_offer_of(body: JsonTree) -> Result<MessageView, CodecError> {
    if !is_field_list(body, 3) {
        Err(CodecError::Fields)
    } else {
        match (
            string_field(body, "name"@, 0),
            unsigned_field(body, "size"@, 1),
            string_field(body, "hash"@, 2),
        ) {
            (Some(name), Some(size), Some(hash)) => Ok(MessageView::FileOffer { name, size, hash }),
            _ => Err(CodecError::Fields),
        }
    }
}

/// The `FileAccept` message whose fields `body` holds.
pub open spec fn file_accept_of(body: JsonTree) -> Result<MessageView, CodecError> {
    if !is_field_list(body, 1) {
        Err(CodecError::Fields)
    } else {
        match string_field(body, "hash"@, 0) {
            Some(hash) => Ok(MessageView::FileAccept { hash }),
            None => Err(CodecError::Fields),
        }
    }
}

/// The `CallSignal` message whose fields `body` holds.
pub open spec fn call_signal_of(body: JsonTree) -> Result<MessageView, CodecError> {
    if !is_field_list(body, 2) {
        Err(CodecError::Fields)
    } else {
        match (string_field(body, "signal_type"@, 0), string_field(body, "data"@, 1)) {
            (Some(signal_type), Some(data)) => Ok(MessageView::CallSignal { signal_type, data }),
            _ => Err(CodecError::Fields),
        }
    }
}

/// The message that a document stands for, or the reason it stands for none.
pub open spec fn document_message(doc: JsonTree) -> Result<MessageView, CodecError> {
    match doc {
        JsonTree::Object(members) => {
            if members.len() != 1 {
                Err(CodecError::Envelope)
            } else {
                let tag = members[0].0;
                let body = members[0].1;
                if tag == "Text"@ {
                    text_of(body)
                } else if tag == "FileOffer"@ {
                    file_offer_of(body)
                } else if tag == "FileAccept"@ {
                    file_accept_of(body)
                } else if tag == "CallSignal"@ {
                    call_signal_of(body)
                } else {
                    Err(CodecError::UnknownVariant)
                }
            }
        },
        _ => Err(CodecError::Envelope),
    }
}

/// The bytes that encode `m`.
pub open spec fn encoding(m: MessageView) -> Seq<u8> {
    json_text(message_document(m))
}

/// The message that `bytes` encode, or the reason they encode none.
pub open spec fn decoding(bytes: Seq<u8>) -> Result<MessageView, CodecError> {
    match json_document(bytes) {
        Some(doc) => document_message(doc),
        None => Err(CodecError::Syntax),
    }
}

/// Whether an exec result is the spec result `expected`, message by view.
pub open spec fn decodes_to(
    r: Result<SessionMessage, CodecError>,
    expected: Result<MessageView, CodecError>,
) -> bool {
    match r {
        Ok(m) => expected == Ok::<MessageView, CodecError>(m@),
        Err(e) => expected == Err::<MessageView, CodecError>(e),
    }
}

/// Reads the value given for a field of a variant.
fn read_field<'a>(body: &'a serde_json::Value, name: &str, position: usize) -> (r: Option<
    &'a serde_json::Value,
>)
    ensures
        match field_value(value_tree(*body), name@, position as int) {
            Some(t) => r matches Some(x) && value_tree(*x) == t,
            None => r is None,
        },
{
    if member_count(body).is_some() {
        member(body, name)
    } else if element_count(body).is_some() {
        element(body, position)
    } else {
        None
    }
}

/// Reads a field that must hold a string.
fn read_string_field(body: &serde_json::Value, name: &str, position: usize) -> (r: Option<String>)
    ensures
        match string_field(value_tree(*body), name@, position as int) {
            Some(s) => r matches Some(x) && x@ == s,
            None => r is None,
        },
{
    match read_field(body, name, position) {
        Some(value) => match as_str(value) {
            Some(s) => Some(s.to_owned()),
            None => None,
        },
        None => None,
    }
}

/// Reads a field that must hold a non-negative integer.
fn read_unsigned_field(body: &serde_json::Value, name: &str, position: usize) -> (r: Option<u64>)
    ensures
        r == unsigned_field(value_tree(*body), name@, position as int),
{
    match read_field(body, name, position) {
        Some(value) => as_u64(value),
        None => None,
    }
}

/// Tells whether `body` is an object, or an array of `fields` elements.
fn has_field_list(body: &serde_json::Value, fields: usize) -> (r: bool)
    ensures
        r == is_field_list(value_tree(*body), fields as nat),
{
    if member_count(body).is_some() {
        true
    } else {
        match element_count(body) {
            Some(n) => n == fields,
            None => false,
        }
    }
}

/// Reads the fields of a `Text` message.
fn read_text(body: &serde_json::Value) -> (r: Result<SessionMessage, CodecError>)
    ensures
        decodes_to(r, text_of(value_tree(*body))),
{
    if !has_field_list(body, 1) {
        return Err(CodecError::Fields);
    }
    match read_string_field(body, "content", 0) {
        Some(content) => Ok(SessionMessage::Text { content }),
        None => Err(CodecError::Fields),
    }
}

/// Reads the fields of a `FileOffer` message.
fn read_file_offer(body: &serde_json::Value) -> (r: Result<SessionMessage, CodecError>)
    ensures
        decodes_to(r, file_offer_of(value_tree(*body))),
{
    if !has_field_list(body, 3) {
        return Err(CodecError::Fields);
    }
    let name = read_string_field(body, "name", 0);
    let size = read_unsigned_field(body, "size", 1);
    let hash = read_string_field(body, "hash", 2);
    match (name, size, hash) {
        (Some(name), Some(size), Some(hash)) => Ok(SessionMessage::FileOffer { name, size, hash }),
        _ => Err(CodecError::Fields),
    }
}

/// Reads the fields of a `FileAccept` message.
fn read_file_accept(body: &serde_json::Value) -> (r: Result<SessionMessage, CodecError>)
    ensures
        decodes_to(r, file_accept_of(value_tree(*body))),
{
    if !has_field_list(body, 1) {
        return Err(CodecError::Fields);
    }
    match read_string_field(body, "hash", 0) {
        Some(hash) => Ok(SessionMessage::FileAccept { hash }),
        None => Err(CodecError::Fields),
    }
}

/// Reads the fields of a `CallSignal` message.
fn read_call_signal(body: &serde_json::Value) -> (r: Result<SessionMessage, CodecError>)
    ensures
        decodes_to(r, call_signal_of(value_tree(*body))),
{
    if !has_field_list(body, 2) {
        return Err(CodecError::Fields);
    }
    let signal_type = read_string_field(body, "signal_type", 0);
    let data = read_string_field(body, "data", 1);
    match (signal_type, data) {
        (Some(signal_type), Some(data)) => Ok(SessionMessage::CallSignal { signal_type, data }),
        _ => Err(CodecError::Fields),
    }
}

/// In a list of one member, a key finds that member or nothing.
proof fn lemma_find_in_single(members: Seq<(Seq<char>, JsonTree)>, key: Seq<char>)
    requires
        members.len() == 1,
    ensures
        find_member(members, key) == if members[0].0 == key {
            Some(members[0].1)
        } else {
            None::<JsonTree>
        },
{
    reveal_with_fuel(find_member, 2);
}

/// Reads the message that a parsed document stands for.
pub fn message_from_document(doc: &serde_json::Value) -> (r: Result<SessionMessage, CodecError>)
    ensures
        decodes_to(r, document_message(value_tree(*doc))),
{
    match member_count(doc) {
        Some(1) => {},
        _ => {
            return Err(CodecError::Envelope);
        },
    }
    proof {
        let members = value_tree(*doc)->Object_0;
        lemma_find_in_single(members, "Text"@);
        lemma_find_in_single(members, "FileOffer"@);
        lemma_find_in_single(members, "FileAccept"@);
        lemma_find_in_single(members, "CallSignal"@);
    }
    if let Some(body) = member(doc, "Text") {
        return read_text(body);
    }
    if let Some(body) = member(doc, "FileOffer") {
        return read_file_offer(body);
    }
    if let Some(body) = member(doc, "FileAccept") {
        return read_file_accept(body);
    }
    if let Some(body) = member(doc, "CallSignal") {
        return read_call_signal(body);
    }
    Err(CodecError::UnknownVariant)
}

/// The field names of one variant differ from each other, and so do the
/// variant names.
proof fn lemma_names_differ()
    ensures
        "name"@ != "size"@,
        "name"@ != "hash"@,
        "size"@ != "hash"@,
        "signal_type"@ != "data"@,
        "Text"@ != "FileOffer"@,
        "Text"@ != "FileAccept"@,
        "Text"@ != "CallSignal"@,
        "FileOffer"@ != "FileAccept"@,
        "FileOffer"@ != "CallSignal"@,
        "FileAccept"@ != "CallSignal"@,
{
    reveal_strlit("name");
    reveal_strlit("size");
    reveal_strlit("hash");
    reveal_strlit("signal_type");
    reveal_strlit("data");
    reveal_strlit("Text");
    reveal_strlit("FileOffer");
    reveal_strlit("FileAccept");
    reveal_strlit("CallSignal");
    assert("signal_type"@.len() != "data"@.len());
    assert("Text"@.len() == 4 && "FileOffer"@.len() == 9);
    assert("FileAccept"@.len() == 10 && "CallSignal"@.len() == 10);
    assert("name"@[0] != "size"@[0]);
    assert("name"@[0] != "hash"@[0]);
    assert("size"@[0] != "hash"@[0]);
    assert("FileAccept"@[0] != "CallSignal"@[0]);
}

/// Builds an object with one string member.
fn string_object(key: &str, value: &String) -> (v: serde_json::Value)
    ensures
        value_tree(v) == object1(key@, JsonTree::String(value@)),
{
    let mut object = empty_object();
    insert_member(&mut object, key, string_value(value.clone()));
    assert(value_tree(object)->Object_0 =~= seq![(key@, JsonTree::String(value@))]);
    object
}

/// Builds the document that encodes a message.
pub fn message_to_document(message: &SessionMessage) -> (doc: serde_json::Value)
    ensures
        value_tree(doc) == message_document(message@),
{
    proof {
        lemma_names_differ();
        reveal_with_fuel(find_member, 3);
    }
    let mut doc = empty_object();
    match message {
        SessionMessage::Text { content } => {
            let body = string_object("content", content);
            insert_member(&mut doc, "Text", body);
        },
        SessionMessage::FileOffer { name, size, hash } => {
            let mut body = string_object("name", name);
            insert_member(&mut body, "size", unsigned_value(*size));
            insert_member(&mut body, "hash", string_value(hash.clone()));
            assert(value_tree(body)->Object_0 =~= seq![
                ("name"@, JsonTree::String(name@)),
                ("size"@, unsigned(*size)),
                ("hash"@, JsonTree::String(hash@)),
            ]);
            insert_member(&mut doc, "FileOffer", body);
        },
        SessionMessage::FileAccept { hash } => {
            let body = string_object("hash", hash);
            insert_member(&mut doc, "FileAccept", body);
        },
        SessionMessage::CallSignal { signal_type, data } => {
            let mut body = string_object("signal_type", signal_type);
            insert_member(&mut body, "data", string_value(data.clone()));
            assert(value_tree(body)->Object_0 =~= seq![
                ("signal_type"@, JsonTree::String(signal_type@)),
                ("data"@, JsonTree::String(data@)),
            ]);
            insert_member(&mut doc, "CallSignal", body);
        },
    }
    assert(value_tree(doc)->Object_0 =~= message_document(message@)->Object_0);
    doc
}

impl SessionMessage {
    /// Serializes the message to bytes: the compact JSON text of its
    /// document. Encoding a message never fails.
    pub fn to_bytes(&self) -> (r: Result<Vec<u8>, CodecError>)
        ensures
            r matches Ok(bytes) && bytes@ == encoding(self@),
    {
        let doc = message_to_document(self);
        match print_document(&doc) {
            Ok(bytes) => Ok(bytes),
            Err(_) => Err(CodecError::Serialize),
        }
    }

    /// Deserializes a message from bytes. Fails on bytes that are not a JSON
    /// text, and on a JSON text that is not the document of a message.
    pub fn from_bytes(bytes: &[u8]) -> (r: Result<SessionMessage, CodecError>)
        ensures
            decodes_to(r, decoding(bytes@)),
            bytes@.len() == 0 ==> r == Err::<SessionMessage, CodecError>(CodecError::Syntax),
    {
        match parse_document(bytes) {
            Ok(doc) => message_from_document(&doc),
            Err(_) => Err(CodecError::Syntax),
        }
    }
}

/// Reading the document that was built for a message gives the message back.
pub proof fn lemma_document_round_trip(m: MessageView)
    ensures
        document_message(message_document(m)) == Ok::<MessageView, CodecError>(m),
{
    lemma_names_differ();
    reveal_with_fuel(find_member, 4);
}

/// Where the parser reads the encoding of a message back as the document
/// that was printed, decoding the encoding gives the message.
pub proof fn lemma_round_trip_through_text(m: MessageView)
    ensures
        json_document(encoding(m)) == Some(message_document(m)) ==> decoding(encoding(m)) == Ok::<
            MessageView,
            CodecError,
        >(m),
{
    lemma_document_round_trip(m);
}

/// The name under which a message's variant travels.
pub open spec fn variant_name(m: MessageView) -> Seq<char> {
    match m {
        MessageView::Text { .. } => "Text"@,
        MessageView::FileOffer { .. } => "FileOffer"@,
        MessageView::FileAccept { .. } => "FileAccept"@,
        MessageView::CallSignal { .. } => "CallSignal"@,
    }
}

/// Whether `body` gives every field of `m`, and gives it the value it has
/// in `m`.
pub open spec fn holds_fields(body: JsonTree, m: MessageView) -> bool {
    match m {
        MessageView::Text { content } => is_field_list(body, 1) && string_field(
            body,
            "content"@,
            0,
        ) == Some(content),
        MessageView::FileOffer { name, size, hash } => is_field_list(body, 3) && string_field(
            body,
            "name"@,
            0,
        ) == Some(name) && unsigned_field(body, "size"@, 1) == Some(size) && string_field(
            body,
            "hash"@,
            2,
        ) == Some(hash),
        MessageView::FileAccept { hash } => is_field_list(body, 1) && string_field(
            body,
            "hash"@,
            0,
        ) == Some(hash),
        MessageView::CallSignal { signal_type, data } => is_field_list(body, 2) && string_field(
            body,
            "signal_type"@,
            0,
        ) == Some(signal_type) && string_field(body, "data"@, 1) == Some(data),
    }
}

/// A document is read as the message `m` exactly if it is an object with
/// one member, keyed by the name of `m`'s variant, whose value gives the
/// fields of `m`. Every other document is rejected.
pub proof fn lemma_accepted_documents(doc: JsonTree, m: MessageView)
    ensures
        document_message(doc) == Ok::<MessageView, CodecError>(m) <==> (doc matches JsonTree::Object(
            members,
        ) && members.len() == 1 && members[0].0 == variant_name(m) && holds_fields(
            members[0].1,
            m,
        )),
{
    lemma_names_differ();
}

} // verus!
