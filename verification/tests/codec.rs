use sendme_session::message::{message_from_document, message_to_document, CodecError};
use sendme_session::SessionMessage;

fn text(content: &str) -> SessionMessage {
    SessionMessage::Text { content: content.to_string() }
}

fn offer(name: &str, size: u64, hash: &str) -> SessionMessage {
    SessionMessage::FileOffer { name: name.to_string(), size, hash: hash.to_string() }
}

fn accept(hash: &str) -> SessionMessage {
    SessionMessage::FileAccept { hash: hash.to_string() }
}

fn signal(signal_type: &str, data: &str) -> SessionMessage {
    SessionMessage::CallSignal { signal_type: signal_type.to_string(), data: data.to_string() }
}

fn decode(text: &str) -> Result<SessionMessage, CodecError> {
    SessionMessage::from_bytes(text.as_bytes())
}

#[test]
fn text_encodes_as_tagged_object() {
    let bytes = text("hi").to_bytes().unwrap();
    assert_eq!(bytes, br#"{"Text":{"content":"hi"}}"#.to_vec());
}

#[test]
fn file_offer_encodes_fields_in_declaration_order() {
    let bytes = offer("a.txt", 42, "abc").to_bytes().unwrap();
    assert_eq!(bytes, br#"{"FileOffer":{"name":"a.txt","size":42,"hash":"abc"}}"#.to_vec());
}

#[test]
fn file_accept_encodes_as_tagged_object() {
    let bytes = accept("abc").to_bytes().unwrap();
    assert_eq!(bytes, br#"{"FileAccept":{"hash":"abc"}}"#.to_vec());
}

#[test]
fn call_signal_encodes_as_tagged_object() {
    let bytes = signal("offer", "sdp").to_bytes().unwrap();
    assert_eq!(bytes, br#"{"CallSignal":{"signal_type":"offer","data":"sdp"}}"#.to_vec());
}

#[test]
fn strings_are_escaped_on_the_wire() {
    let bytes = text("a\"b\\c\nd").to_bytes().unwrap();
    assert_eq!(bytes, br#"{"Text":{"content":"a\"b\\c\nd"}}"#.to_vec());
}

#[test]
fn every_variant_round_trips() {
    let messages = vec![
        text("hi"),
        text(""),
        text("quotes \" backslash \\ newline \n tab \t bell \u{7} nul \u{0}"),
        text("gr\u{fc}\u{df}e \u{4e16}\u{754c} \u{1f600}"),
        offer("report.pdf", 0, "deadbeef"),
        offer("big", u64::MAX, ""),
        accept("deadbeef"),
        signal("ice-candidate", "{\"candidate\":\"x\"}"),
    ];
    for message in messages {
        let bytes = message.to_bytes().unwrap();
        assert_eq!(SessionMessage::from_bytes(&bytes), Ok(message));
    }
}

#[test]
fn document_round_trips_without_text() {
    let message = offer("a", 7, "h");
    let doc = message_to_document(&message);
    assert_eq!(message_from_document(&doc), Ok(message));
}

#[test]
fn document_of_a_message_holds_tag_and_fields() {
    let doc = message_to_document(&offer("a", 7, "h"));
    let expected: serde_json::Value =
        serde_json::from_str(r#"{"FileOffer":{"name":"a","size":7,"hash":"h"}}"#).unwrap();
    assert_eq!(doc, expected);
    assert_eq!(doc.to_string(), r#"{"FileOffer":{"name":"a","size":7,"hash":"h"}}"#);
}

#[test]
fn whitespace_and_field_order_do_not_matter() {
    let input = " {\n \"FileOffer\" : { \"hash\" : \"h\", \"size\" : 7 , \"name\" : \"a\" } }\n";
    assert_eq!(decode(input), Ok(offer("a", 7, "h")));
}

#[test]
fn unknown_fields_are_ignored() {
    let input = r#"{"Text":{"extra":[1,{"x":null}],"content":"hi","more":true}}"#;
    assert_eq!(decode(input), Ok(text("hi")));
}

#[test]
fn fields_may_come_as_an_array() {
    assert_eq!(decode(r#"{"Text":["hi"]}"#), Ok(text("hi")));
    assert_eq!(decode(r#"{"FileOffer":["a",7,"h"]}"#), Ok(offer("a", 7, "h")));
    assert_eq!(decode(r#"{"FileAccept":["h"]}"#), Ok(accept("h")));
    assert_eq!(decode(r#"{"CallSignal":["offer","sdp"]}"#), Ok(signal("offer", "sdp")));
}

#[test]
fn array_of_the_wrong_length_is_rejected() {
    assert_eq!(decode(r#"{"Text":[]}"#), Err(CodecError::Fields));
    assert_eq!(decode(r#"{"Text":["hi","ho"]}"#), Err(CodecError::Fields));
    assert_eq!(decode(r#"{"FileOffer":["a",7]}"#), Err(CodecError::Fields));
    assert_eq!(decode(r#"{"CallSignal":["offer"]}"#), Err(CodecError::Fields));
}

#[test]
fn escapes_in_the_input_are_resolved() {
    assert_eq!(decode(r#"{"Text":{"content":"A\n😀\/"}}"#), Ok(text("A\n\u{1f600}/")));
}

#[test]
fn empty_input_is_rejected() {
    assert_eq!(SessionMessage::from_bytes(b""), Err(CodecError::Syntax));
}

#[test]
fn truncated_input_is_rejected() {
    let bytes = offer("report.pdf", 12345, "deadbeef").to_bytes().unwrap();
    for cut in 0..bytes.len() {
        assert_eq!(SessionMessage::from_bytes(&bytes[..cut]), Err(CodecError::Syntax));
    }
}

#[test]
fn text_that_is_not_json_is_rejected() {
    assert_eq!(decode("hello"), Err(CodecError::Syntax));
    assert_eq!(decode("{"), Err(CodecError::Syntax));
    assert_eq!(decode(r#"{"Text":{"content":"hi"}} x"#), Err(CodecError::Syntax));
    assert_eq!(decode(r#"{"Text":{"content":"hi",}}"#), Err(CodecError::Syntax));
    assert_eq!(SessionMessage::from_bytes(&[0xff, 0xfe, 0x00]), Err(CodecError::Syntax));
    assert_eq!(SessionMessage::from_bytes(b"{\"Text\":{\"content\":\"\xff\"}}"), Err(CodecError::Syntax));
}

#[test]
fn json_that_is_no_envelope_is_rejected() {
    assert_eq!(decode("null"), Err(CodecError::Envelope));
    assert_eq!(decode("42"), Err(CodecError::Envelope));
    assert_eq!(decode(r#""Text""#), Err(CodecError::Envelope));
    assert_eq!(decode(r#"["Text",{"content":"hi"}]"#), Err(CodecError::Envelope));
    assert_eq!(decode("{}"), Err(CodecError::Envelope));
    assert_eq!(
        decode(r#"{"Text":{"content":"hi"},"FileAccept":{"hash":"h"}}"#),
        Err(CodecError::Envelope)
    );
}

#[test]
fn unknown_variant_is_rejected() {
    assert_eq!(decode(r#"{"Ping":{}}"#), Err(CodecError::UnknownVariant));
    assert_eq!(decode(r#"{"text":{"content":"hi"}}"#), Err(CodecError::UnknownVariant));
    assert_eq!(decode(r#"{"":{"content":"hi"}}"#), Err(CodecError::UnknownVariant));
}

#[test]
fn missing_field_is_rejected() {
    assert_eq!(decode(r#"{"Text":{}}"#), Err(CodecError::Fields));
    assert_eq!(decode(r#"{"FileOffer":{"name":"a","hash":"h"}}"#), Err(CodecError::Fields));
    assert_eq!(decode(r#"{"FileOffer":{"name":"a","size":1}}"#), Err(CodecError::Fields));
    assert_eq!(decode(r#"{"FileOffer":{"size":1,"hash":"h"}}"#), Err(CodecError::Fields));
    assert_eq!(decode(r#"{"FileAccept":{"Hash":"h"}}"#), Err(CodecError::Fields));
    assert_eq!(decode(r#"{"CallSignal":{"signal_type":"offer"}}"#), Err(CodecError::Fields));
    assert_eq!(decode(r#"{"CallSignal":{"data":"sdp"}}"#), Err(CodecError::Fields));
}

#[test]
fn field_of_the_wrong_type_is_rejected() {
    assert_eq!(decode(r#"{"Text":{"content":1}}"#), Err(CodecError::Fields));
    assert_eq!(decode(r#"{"Text":{"content":null}}"#), Err(CodecError::Fields));
    assert_eq!(decode(r#"{"Text":"hi"}"#), Err(CodecError::Fields));
    assert_eq!(decode(r#"{"Text":null}"#), Err(CodecError::Fields));
    assert_eq!(decode(r#"{"FileOffer":{"name":"a","size":"1","hash":"h"}}"#), Err(CodecError::Fields));
    assert_eq!(decode(r#"{"FileOffer":{"name":"a","size":-1,"hash":"h"}}"#), Err(CodecError::Fields));
    assert_eq!(decode(r#"{"FileOffer":{"name":"a","size":1.0,"hash":"h"}}"#), Err(CodecError::Fields));
    assert_eq!(
        decode(r#"{"FileOffer":{"name":"a","size":18446744073709551616,"hash":"h"}}"#),
        Err(CodecError::Fields)
    );
}

#[test]
fn largest_size_is_accepted() {
    assert_eq!(
        decode(r#"{"FileOffer":{"name":"a","size":18446744073709551615,"hash":"h"}}"#),
        Ok(offer("a", u64::MAX, "h"))
    );
}

#[test]
fn document_reader_classifies_values() {
    let read = |text: &str| {
        let doc: serde_json::Value = serde_json::from_str(text).unwrap();
        message_from_document(&doc)
    };
    assert_eq!(read(r#"{"FileAccept":{"hash":"h"}}"#), Ok(accept("h")));
    assert_eq!(read("[1,2]"), Err(CodecError::Envelope));
    assert_eq!(read(r#"{"Other":1}"#), Err(CodecError::UnknownVariant));
    assert_eq!(read(r#"{"FileAccept":{"hash":5}}"#), Err(CodecError::Fields));
}

#[test]
fn repeated_key_keeps_the_last_value() {
    assert_eq!(decode(r#"{"Text":{"content":"a","content":"b"}}"#), Ok(text("b")));
}

#[test]
fn deeply_nested_unknown_field_is_rejected_by_the_parser() {
    let nested = format!("{}{}", "[".repeat(200), "]".repeat(200));
    let input = format!(r#"{{"Text":{{"content":"hi","extra":{}}}}}"#, nested);
    assert_eq!(decode(&input), Err(CodecError::Syntax));
}
