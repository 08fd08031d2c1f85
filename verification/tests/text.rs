use sendme_session::connect::ConnectError;
use sendme_session::message::CodecError;
use sendme_session::receiver::StreamError;
use sendme_session::send::SendError;
use sendme_session::text::decimal_string;

#[test]
fn numbers_are_written_in_decimal() {
    assert_eq!(decimal_string(0), "0");
    assert_eq!(decimal_string(7), "7");
    assert_eq!(decimal_string(10), "10");
    assert_eq!(decimal_string(1234567890), "1234567890");
    assert_eq!(decimal_string(20_971_520), "20971520");
    assert_eq!(decimal_string(u32::MAX), "4294967295");
    for n in [9u32, 11, 99, 100, 101, 1000, 65_535, 10_485_761] {
        assert_eq!(decimal_string(n), n.to_string());
    }
}

#[test]
fn codec_errors_have_their_text() {
    assert_eq!(CodecError::Serialize.describe(), "Failed to serialize session message");
    for e in [
        CodecError::Syntax,
        CodecError::Envelope,
        CodecError::UnknownVariant,
        CodecError::Fields,
    ] {
        assert_eq!(e.describe(), "Failed to deserialize session message");
    }
}

#[test]
fn stream_errors_have_their_text() {
    assert_eq!(StreamError::ReadLength.describe(), "Failed to read message length");
    assert_eq!(
        StreamError::MessageTooLarge { declared: 20 * 1024 * 1024 }.describe(),
        "Message too large: 20971520 bytes"
    );
    assert_eq!(StreamError::ReadBody.describe(), "Failed to read message");
    assert_eq!(
        StreamError::Decode(CodecError::Fields).describe(),
        "Failed to deserialize session message"
    );
}

#[test]
fn send_errors_have_their_text() {
    assert_eq!(SendError::NoActiveConnection.describe(), "No active connection");
    assert_eq!(
        SendError::Encode(CodecError::Serialize).describe(),
        "Failed to serialize session message"
    );
    assert_eq!(SendError::MessageTooLong.describe(), "Message too long to send");
    assert_eq!(SendError::OpenStream.describe(), "Failed to open send stream");
    assert_eq!(SendError::WriteLength.describe(), "Failed to write message length");
    assert_eq!(SendError::WritePayload.describe(), "Failed to write message");
    assert_eq!(SendError::Finish.describe(), "Failed to finish stream");
}

#[test]
fn connect_errors_have_their_text() {
    assert_eq!(ConnectError::TicketParse.describe(), "Failed to parse session ticket");
    assert_eq!(ConnectError::Bind.describe(), "Failed to bind endpoint");
    assert_eq!(ConnectError::Connect.describe(), "Failed to connect to peer");
}
