use sendme_session::frame::{Frame, MAX_MESSAGE_LEN};
use sendme_session::message::CodecError;
use sendme_session::receiver::{
    receive_stream, ReadOutcome, ReceiverAction, ReceiverState, StreamError, StreamReceiver,
};
use sendme_session::SessionMessage;

fn text(content: &str) -> SessionMessage {
    SessionMessage::Text { content: content.to_string() }
}

fn stream_of(message: &SessionMessage) -> Vec<u8> {
    Frame::new(message.to_bytes().unwrap()).unwrap().to_bytes()
}

#[test]
fn receiver_starts_by_asking_for_the_prefix() {
    let receiver = StreamReceiver::new();
    assert_eq!(receiver.state(), ReceiverState::AwaitingLength);
    assert_eq!(receiver.wanted(), Some(4));
}

#[test]
fn receiver_reads_prefix_then_payload_then_delivers() {
    let payload = text("hi").to_bytes().unwrap();
    let mut receiver = StreamReceiver::new();
    let action = receiver.on_read(ReadOutcome::Filled(vec![0, 0, 0, payload.len() as u8]));
    assert_eq!(action, ReceiverAction::Read { len: payload.len() });
    assert_eq!(receiver.state(), ReceiverState::AwaitingBody { declared: payload.len() });
    assert_eq!(receiver.wanted(), Some(payload.len()));
    let action = receiver.on_read(ReadOutcome::Filled(payload));
    assert_eq!(action, ReceiverAction::Deliver { message: text("hi") });
    assert_eq!(receiver.state(), ReceiverState::Done);
    assert_eq!(receiver.wanted(), None);
}

#[test]
fn oversized_length_aborts_before_the_body_is_read() {
    let declared: u32 = 20 * 1024 * 1024;
    let mut receiver = StreamReceiver::new();
    let action = receiver.on_read(ReadOutcome::Filled(declared.to_be_bytes().to_vec()));
    assert_eq!(
        action,
        ReceiverAction::Abort { error: StreamError::MessageTooLarge { declared: 20_971_520 } }
    );
    assert_eq!(receiver.state(), ReceiverState::Done);
    assert_eq!(receiver.wanted(), None);
    assert_eq!(receiver.on_read(ReadOutcome::Filled(vec![1, 2, 3])), ReceiverAction::Idle);
    assert_eq!(receiver.on_read(ReadOutcome::Failed), ReceiverAction::Idle);
}

#[test]
fn ceiling_itself_is_accepted_and_one_more_is_not() {
    let mut at = StreamReceiver::new();
    let action = at.on_read(ReadOutcome::Filled((MAX_MESSAGE_LEN as u32).to_be_bytes().to_vec()));
    assert_eq!(action, ReceiverAction::Read { len: 10_485_760 });

    let mut above = StreamReceiver::new();
    let action =
        above.on_read(ReadOutcome::Filled((MAX_MESSAGE_LEN as u32 + 1).to_be_bytes().to_vec()));
    assert_eq!(
        action,
        ReceiverAction::Abort { error: StreamError::MessageTooLarge { declared: 10_485_761 } }
    );
}

#[test]
fn largest_declared_length_is_refused() {
    let mut receiver = StreamReceiver::new();
    let action = receiver.on_read(ReadOutcome::Filled(vec![255, 255, 255, 255]));
    assert_eq!(
        action,
        ReceiverAction::Abort { error: StreamError::MessageTooLarge { declared: u32::MAX } }
    );
}

#[test]
fn failed_prefix_read_gives_the_stream_up() {
    let mut receiver = StreamReceiver::new();
    assert_eq!(
        receiver.on_read(ReadOutcome::Failed),
        ReceiverAction::Abort { error: StreamError::ReadLength }
    );
    assert_eq!(receiver.state(), ReceiverState::Done);
}

#[test]
fn prefix_of_the_wrong_size_counts_as_failed() {
    let mut short = StreamReceiver::new();
    assert_eq!(
        short.on_read(ReadOutcome::Filled(vec![0, 0, 5])),
        ReceiverAction::Abort { error: StreamError::ReadLength }
    );
    let mut long = StreamReceiver::new();
    assert_eq!(
        long.on_read(ReadOutcome::Filled(vec![0, 0, 0, 5, 0])),
        ReceiverAction::Abort { error: StreamError::ReadLength }
    );
}

#[test]
fn failed_body_read_delivers_nothing() {
    let mut receiver = StreamReceiver::new();
    assert_eq!(
        receiver.on_read(ReadOutcome::Filled(vec![0, 0, 0, 25])),
        ReceiverAction::Read { len: 25 }
    );
    assert_eq!(
        receiver.on_read(ReadOutcome::Failed),
        ReceiverAction::Abort { error: StreamError::ReadBody }
    );
    assert_eq!(receiver.state(), ReceiverState::Done);
}

#[test]
fn partial_body_is_never_decoded() {
    let payload = text("hi").to_bytes().unwrap();
    let declared = payload.len() + 1;
    let mut receiver = StreamReceiver::new();
    assert_eq!(
        receiver.on_read(ReadOutcome::Filled(vec![0, 0, 0, declared as u8])),
        ReceiverAction::Read { len: declared }
    );
    assert_eq!(
        receiver.on_read(ReadOutcome::Filled(payload)),
        ReceiverAction::Abort { error: StreamError::ReadBody }
    );
}

#[test]
fn malformed_payload_is_a_decode_error() {
    let mut receiver = StreamReceiver::new();
    assert_eq!(
        receiver.on_read(ReadOutcome::Filled(vec![0, 0, 0, 3])),
        ReceiverAction::Read { len: 3 }
    );
    assert_eq!(
        receiver.on_read(ReadOutcome::Filled(b"xyz".to_vec())),
        ReceiverAction::Abort { error: StreamError::Decode(CodecError::Syntax) }
    );
}

#[test]
fn zero_length_payload_is_read_and_rejected() {
    let mut receiver = StreamReceiver::new();
    assert_eq!(
        receiver.on_read(ReadOutcome::Filled(vec![0, 0, 0, 0])),
        ReceiverAction::Read { len: 0 }
    );
    assert_eq!(
        receiver.on_read(ReadOutcome::Filled(Vec::new())),
        ReceiverAction::Abort { error: StreamError::Decode(CodecError::Syntax) }
    );
}

#[test]
fn whole_stream_delivers_its_message() {
    let message = SessionMessage::FileOffer {
        name: "a.txt".to_string(),
        size: 42,
        hash: "abc".to_string(),
    };
    assert_eq!(receive_stream(&stream_of(&message)), Ok(message));
}

#[test]
fn whole_stream_has_exactly_the_wire_format() {
    let mut data = vec![0, 0, 0, 25];
    data.extend_from_slice(br#"{"Text":{"content":"hi"}}"#);
    assert_eq!(stream_of(&text("hi")), data);
    assert_eq!(receive_stream(&data), Ok(text("hi")));
}

#[test]
fn bytes_behind_the_payload_are_not_read() {
    let mut data = stream_of(&text("hi"));
    data.extend_from_slice(b"garbage");
    assert_eq!(receive_stream(&data), Ok(text("hi")));
}

#[test]
fn stream_shorter_than_the_prefix_fails() {
    assert_eq!(receive_stream(b""), Err(StreamError::ReadLength));
    assert_eq!(receive_stream(&[0, 0, 0]), Err(StreamError::ReadLength));
}

#[test]
fn stream_that_ends_early_fails() {
    let data = stream_of(&text("hello"));
    for cut in 4..data.len() {
        assert_eq!(receive_stream(&data[..cut]), Err(StreamError::ReadBody));
    }
}

#[test]
fn stream_that_declares_too_much_fails_whatever_follows() {
    let declared: u32 = 20 * 1024 * 1024;
    let mut data = declared.to_be_bytes().to_vec();
    assert_eq!(
        receive_stream(&data),
        Err(StreamError::MessageTooLarge { declared: 20_971_520 })
    );
    data.extend_from_slice(br#"{"Text":{"content":"hi"}}"#);
    assert_eq!(
        receive_stream(&data),
        Err(StreamError::MessageTooLarge { declared: 20_971_520 })
    );
}

#[test]
fn stream_with_a_wrong_document_fails_with_its_reason() {
    let data = Frame::new(br#"{"Ping":{}}"#.to_vec()).unwrap().to_bytes();
    assert_eq!(receive_stream(&data), Err(StreamError::Decode(CodecError::UnknownVariant)));
    let data = Frame::new(br#"{"Text":{}}"#.to_vec()).unwrap().to_bytes();
    assert_eq!(receive_stream(&data), Err(StreamError::Decode(CodecError::Fields)));
    let data = Frame::new(b"[]".to_vec()).unwrap().to_bytes();
    assert_eq!(receive_stream(&data), Err(StreamError::Decode(CodecError::Envelope)));
}

#[test]
fn malformed_stream_does_not_affect_the_next() {
    let streams = vec![
        stream_of(&text("one")),
        vec![0, 0, 0, 9, b'{'],
        vec![255, 255, 255, 255],
        stream_of(&text("two")),
    ];
    let verdicts: Vec<_> = streams.iter().map(|s| receive_stream(s)).collect();
    assert_eq!(
        verdicts,
        vec![
            Ok(text("one")),
            Err(StreamError::ReadBody),
            Err(StreamError::MessageTooLarge { declared: u32::MAX }),
            Ok(text("two")),
        ]
    );
}

#[test]
fn two_streams_give_the_same_verdicts_in_either_order() {
    let a = stream_of(&text("first"));
    let b = stream_of(&SessionMessage::FileAccept { hash: "h".to_string() });
    let forward = vec![receive_stream(&a), receive_stream(&b)];
    let backward = vec![receive_stream(&b), receive_stream(&a)];
    assert_eq!(forward[0], backward[1]);
    assert_eq!(forward[1], backward[0]);
    assert_eq!(forward[0], Ok(text("first")));
    assert_eq!(forward[1], Ok(SessionMessage::FileAccept { hash: "h".to_string() }));
}

#[test]
fn large_message_within_the_ceiling_is_delivered() {
    let message = text(&"x".repeat(1_000_000));
    let data = stream_of(&message);
    assert_eq!(&data[..4], &(1_000_000u32 + 23).to_be_bytes());
    assert_eq!(receive_stream(&data), Ok(message));
}

#[test]
fn frame_above_the_ceiling_is_refused_by_the_receiver() {
    let frame = Frame::new(vec![b' '; MAX_MESSAGE_LEN + 1]).unwrap();
    assert_eq!(frame.length_prefix(), [0x00, 0xa0, 0x00, 0x01]);
    assert_eq!(
        receive_stream(&frame.to_bytes()),
        Err(StreamError::MessageTooLarge { declared: 10_485_761 })
    );
}
