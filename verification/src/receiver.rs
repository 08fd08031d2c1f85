//! The receiver of one inbound stream.
//!
//! A stream carries exactly one message. The receiver asks for the four
//! bytes of the length prefix, checks the declared length against
//! `MAX_MESSAGE_LEN`, asks for exactly that many bytes, and decodes them. It
//! does no reading of its own: the caller performs each read the receiver
//! asks for and reports how it went.

use crate::frame::{
    be32_value, decode_length, framed, lemma_framed_prefix, Frame, MAX_MESSAGE_LEN,
};
use crate::json::json_document;
use crate::message::{
    decoding, encoding, lemma_round_trip_through_text, message_document, CodecError, MessageView,
    SessionMessage,
};
use vstd::pervasive::unreached;
use vstd::prelude::*;
use vstd::slice::{slice_subrange, slice_to_vec};

verus! {

/// Why a stream was given up.
#[derive(Debug, Clone, Copy, PartialEq, Eq)]
pub enum StreamError {
    /// The stream ended or failed before four bytes of length had arrived.
    ReadLength,
    /// The declared length is above `MAX_MESSAGE_LEN`.
    MessageTooLarge { declared: u32 },
    /// The stream ended or failed before the declared number of bytes had
    /// arrived.
    ReadBody,
    /// The payload is not the encoding of a message.
    Decode(CodecError),
}

/// Where a receiver stands.
#[derive(Debug, Clone, Copy, PartialEq, Eq)]
pub enum ReceiverState {
    /// Waiting for the four bytes of the length prefix.
    AwaitingLength,
    /// Waiting for `declared` bytes of payload.
    AwaitingBody { declared: usize },
    /// The message was delivered or the stream given up.
    Done,
}

/// How a read that the receiver asked for went.
#[derive(Debug, Clone, PartialEq, Eq)]
pub enum ReadOutcome {
    /// The read delivered these bytes.
    Filled(Vec<u8>),
    /// The stream ended or failed before the bytes asked for had arrived.
    Failed,
}

/// What the caller is to do next.
#[derive(Debug, Clone, PartialEq, Eq)]
pub enum ReceiverAction {
    /// Read exactly `len` bytes from the stream and report the outcome.
    Read { len: usize },
    /// Hand the message on; the stream is finished.
    Deliver { message: SessionMessage },
    /// Give the stream up and report the error; nothing more is read.
    Abort { error: StreamError },
    /// Nothing: the receiver finished earlier.
    Idle,
}

/// The mathematical value of a `ReceiverAction`.
pub enum ActionView {
    Read { len: usize },
    Deliver { message: MessageView },
    Abort { error: StreamError },
    Idle,
}

impl View for ReadOutcome {
    type V = Option<Seq<u8>>;

    open spec fn view(&self) -> Option<Seq<u8>> {
        match self {
            ReadOutcome::Filled(bytes) => Some(bytes@),
            ReadOutcome::Failed => None,
        }
    }
}

impl View for ReceiverAction {
    type V = ActionView;

    open spec fn view(&self) -> ActionView {
        match self {
            ReceiverAction::Read { len } => ActionView::Read { len: *len },
            ReceiverAction::Deliver { message } => ActionView::Deliver { message: message@ },
            ReceiverAction::Abort { error } => ActionView::Abort { error: *error },
            ReceiverAction::Idle => ActionView::Idle,
        }
    }
}

/// What the receiver makes of a length prefix.
pub open spec fn length_step(prefix: Seq<u8>) -> (ReceiverState, ActionView)
    recommends
        prefix.len() == 4,
{
    let declared = be32_value(prefix);
    if declared > MAX_MESSAGE_LEN {
        (
            ReceiverState::Done,
            ActionView::Abort { error: StreamError::MessageTooLarge { declared: declared as u32 } },
        )
    } else {
        (
            ReceiverState::AwaitingBody { declared: declared as usize },
            ActionView::Read { len: declared as usize },
        )
    }
}

/// What the receiver makes of a complete payload.
pub open spec fn body_step(payload: Seq<u8>) -> (ReceiverState, ActionView) {
    match decoding(payload) {
        Ok(message) => (ReceiverState::Done, ActionView::Deliver { message }),
        Err(e) => (ReceiverState::Done, ActionView::Abort { error: StreamError::Decode(e) }),
    }
}

/// The receiver's transition: the state after a read was reported, and what
/// the caller is to do next. A read that delivered another number of bytes
/// than was asked for counts as failed.
pub open spec fn step(state: ReceiverState, read: Option<Seq<u8>>) -> (ReceiverState, ActionView) {
    match state {
        ReceiverState::AwaitingLength => match read {
            Some(bytes) if bytes.len() == 4 => length_step(bytes),
            _ => (ReceiverState::Done, ActionView::Abort { error: StreamError::ReadLength }),
        },
        ReceiverState::AwaitingBody { declared } => match read {
            Some(bytes) if bytes.len() == declared => body_step(bytes),
            _ => (ReceiverState::Done, ActionView::Abort { error: StreamError::ReadBody }),
        },
        ReceiverState::Done => (ReceiverState::Done, ActionView::Idle),
    }
}

/// The receiver of one inbound stream.
#[derive(Debug)]
pub struct StreamReceiver {
    state: ReceiverState,
}

impl StreamReceiver {
    /// Where the receiver stands.
    pub closed spec fn spec_state(&self) -> ReceiverState {
        self.state
    }

    /// A receiver for a fresh stream. Its first request is for the four
    /// bytes of the length prefix.
    pub fn new() -> (receiver: StreamReceiver)
        ensures
            receiver.spec_state() == ReceiverState::AwaitingLength,
    {
        StreamReceiver { state: ReceiverState::AwaitingLength }
    }

    /// Where the receiver stands.
    pub fn state(&self) -> (state: ReceiverState)
        ensures
            state == self.spec_state(),
    {
        self.state
    }

    /// The number of bytes that the receiver waits for, `None` once it is
    /// done.
    pub fn wanted(&self) -> (len: Option<usize>)
        ensures
            len == match self.spec_state() {
                ReceiverState::AwaitingLength => Some(4usize),
                ReceiverState::AwaitingBody { declared } => Some(declared),
                ReceiverState::Done => None,
            },
    {
        match self.state {
            ReceiverState::AwaitingLength => Some(4),
            ReceiverState::AwaitingBody { declared } => Some(declared),
            ReceiverState::Done => None,
        }
    }

    /// Takes the outcome of the read that the receiver asked for last and
    /// says what to do next.
    pub fn on_read(&mut self, outcome: ReadOutcome) -> (action: ReceiverAction)
        ensures
            (final(self).spec_state(), action@) == step(old(self).spec_state(), outcome@),
    {
        match self.state {
            ReceiverState::AwaitingLength => {
                match outcome {
                    ReadOutcome::Filled(bytes) => {
                        if bytes.len() == 4 {
                            let prefix: [u8; 4] = [bytes[0], bytes[1], bytes[2], bytes[3]];
                            assert(prefix@ =~= bytes@);
                            let declared = decode_length(&prefix);
                            if declared as usize > MAX_MESSAGE_LEN {
                                self.state = ReceiverState::Done;
                                ReceiverAction::Abort {
                                    error: StreamError::MessageTooLarge { declared },
                                }
                            } else {
                                self.state = ReceiverState::AwaitingBody {
                                    declared: declared as usize,
                                };
                                ReceiverAction::Read { len: declared as usize }
                            }
                        } else {
                            self.state = ReceiverState::Done;
                            ReceiverAction::Abort { error: StreamError::ReadLength }
                        }
                    },
                    ReadOutcome::Failed => {
                        self.state = ReceiverState::Done;
                        ReceiverAction::Abort { error: StreamError::ReadLength }
                    },
                }
            },
            ReceiverState::AwaitingBody { declared } => {
                self.state = ReceiverState::Done;
                match outcome {
                    ReadOutcome::Filled(bytes) => {
                        if bytes.len() == declared {
                            match SessionMessage::from_bytes(bytes.as_slice()) {
                                Ok(message) => ReceiverAction::Deliver { message },
                                Err(e) => ReceiverAction::Abort { error: StreamError::Decode(e) },
                            }
                        } else {
                            ReceiverAction::Abort { error: StreamError::ReadBody }
                        }
                    },
                    ReadOutcome::Failed => ReceiverAction::Abort { error: StreamError::ReadBody },
                }
            },
            ReceiverState::Done => ReceiverAction::Idle,
        }
    }
}

/// What reading `len` bytes at `offset` yields on a stream that holds `data`
/// and then ends.
pub open spec fn read_at(data: Seq<u8>, offset: int, len: int) -> Option<Seq<u8>> {
    if 0 <= offset && 0 <= len && offset + len <= data.len() {
        Some(data.subrange(offset, offset + len))
    } else {
        None
    }
}

/// What becomes of a stream that holds `data` and then ends: the message
/// delivered, or the error with which the stream is given up. Bytes behind
/// the payload are never read.
pub open spec fn stream_verdict(data: Seq<u8>) -> Result<MessageView, StreamError> {
    if data.len() < 4 {
        Err(StreamError::ReadLength)
    } else {
        let declared = be32_value(data.subrange(0, 4));
        if declared > MAX_MESSAGE_LEN {
            Err(StreamError::MessageTooLarge { declared: declared as u32 })
        } else if data.len() < 4 + declared {
            Err(StreamError::ReadBody)
        } else {
            match decoding(data.subrange(4, 4 + declared)) {
                Ok(message) => Ok(message),
                Err(e) => Err(StreamError::Decode(e)),
            }
        }
    }
}

/// Whether an exec verdict is the spec verdict `expected`, message by view.
pub open spec fn is_verdict(
    r: Result<SessionMessage, StreamError>,
    expected: Result<MessageView, StreamError>,
) -> bool {
    match r {
        Ok(m) => expected == Ok::<MessageView, StreamError>(m@),
        Err(e) => expected == Err::<MessageView, StreamError>(e),
    }
}

/// Reads `len` bytes at `offset` from a stream that is wholly in memory.
fn read_from(data: &[u8], offset: usize, len: usize) -> (outcome: ReadOutcome)
    requires
        offset <= data@.len(),
    ensures
        outcome@ == read_at(data@, offset as int, len as int),
{
    if len <= data.len() - offset {
        ReadOutcome::Filled(slice_to_vec(slice_subrange(data, offset, offset + len)))
    } else {
        ReadOutcome::Failed
    }
}

/// Receives the one message of a stream that is wholly in memory: `data`
/// holds everything that arrived before the stream ended.
pub fn receive_stream(data: &[u8]) -> (r: Result<SessionMessage, StreamError>)
    ensures
        is_verdict(r, stream_verdict(data@)),
{
    let mut receiver = StreamReceiver::new();
    let first = receiver.on_read(read_from(data, 0, 4));
    match first {
        ReceiverAction::Read { len } => {
            let second = receiver.on_read(read_from(data, 4, len));
            match second {
                ReceiverAction::Deliver { message } => Ok(message),
                ReceiverAction::Abort { error } => Err(error),
                _ => unreached(),
            }
        },
        ReceiverAction::Abort { error } => Err(error),
        _ => unreached(),
    }
}

/// A declared length above `MAX_MESSAGE_LEN` makes the receiver give the
/// stream up at once: it asks for no payload, and nothing it is told
/// afterwards makes it ask for anything. Whatever follows the prefix on the
/// stream, the verdict is the same.
pub proof fn lemma_oversized_length_aborts(prefix: Seq<u8>, rest: Seq<u8>)
    requires
        prefix.len() == 4,
        be32_value(prefix) > MAX_MESSAGE_LEN,
    ensures
        step(ReceiverState::AwaitingLength, Some(prefix)) == (
            ReceiverState::Done,
            ActionView::Abort {
                error: StreamError::MessageTooLarge { declared: be32_value(prefix) as u32 },
            },
        ),
        forall|read: Option<Seq<u8>>| #[trigger]
            step(ReceiverState::Done, read) == (ReceiverState::Done, ActionView::Idle),
        stream_verdict(prefix + rest) == Err::<MessageView, StreamError>(
            StreamError::MessageTooLarge { declared: be32_value(prefix) as u32 },
        ),
{
    assert((prefix + rest).subrange(0, 4) =~= prefix);
}

/// A message is delivered only from a read that brought exactly the
/// declared number of bytes, and it is the message those bytes encode. Any
/// other outcome of the read gives the stream up with `ReadBody`.
pub proof fn lemma_exact_read(declared: usize, read: Option<Seq<u8>>)
    ensures
        step(ReceiverState::AwaitingBody { declared }, read).1 matches ActionView::Deliver {
            message,
        } ==> read is Some && read->0.len() == declared && decoding(read->0) == Ok::<
            MessageView,
            CodecError,
        >(message),
        (read is None || read->0.len() != declared) ==> step(
            ReceiverState::AwaitingBody { declared },
            read,
        ) == (ReceiverState::Done, ActionView::Abort { error: StreamError::ReadBody }),
{
}

/// A stream that ends before the declared number of payload bytes has
/// arrived delivers nothing, whatever the bytes that did arrive.
pub proof fn lemma_short_stream_fails(data: Seq<u8>)
    requires
        data.len() >= 4,
        be32_value(data.subrange(0, 4)) <= MAX_MESSAGE_LEN,
        data.len() < 4 + be32_value(data.subrange(0, 4)),
    ensures
        stream_verdict(data) == Err::<MessageView, StreamError>(StreamError::ReadBody),
{
}

/// The verdict on the frame of a payload no longer than `MAX_MESSAGE_LEN`
/// is the decoding of that payload, whatever follows the frame on the stream.
pub proof fn lemma_frame_is_received(payload: Seq<u8>, rest: Seq<u8>)
    requires
        payload.len() <= MAX_MESSAGE_LEN,
    ensures
        stream_verdict(framed(payload) + rest) == match decoding(payload) {
            Ok(message) => Ok::<MessageView, StreamError>(message),
            Err(e) => Err(StreamError::Decode(e)),
        },
{
    lemma_framed_prefix(payload);
    let data = framed(payload) + rest;
    assert(data.subrange(0, 4) =~= framed(payload).subrange(0, 4));
    assert(data.subrange(4, 4 + payload.len() as int) =~= payload);
}

/// A frame whose payload is longer than `MAX_MESSAGE_LEN` is refused by its
/// receiver, whatever follows the frame on the stream.
pub proof fn lemma_oversized_frame_is_refused(frame: Frame, rest: Seq<u8>)
    requires
        frame.well_formed(),
        frame.spec_payload().len() > MAX_MESSAGE_LEN,
    ensures
        stream_verdict(frame.wire() + rest) == Err::<MessageView, StreamError>(
            StreamError::MessageTooLarge { declared: frame.spec_payload().len() as u32 },
        ),
{
    let data = frame.wire() + rest;
    assert(data.subrange(0, 4) =~= frame.spec_length_prefix());
}

/// A message arrives as it was sent wherever its encoding is no longer than
/// `MAX_MESSAGE_LEN` and the parser reads it back as the document that was
/// printed.
pub proof fn lemma_sent_message_is_received(m: MessageView, rest: Seq<u8>)
    ensures
        encoding(m).len() <= MAX_MESSAGE_LEN && json_document(encoding(m)) == Some(
            message_document(m),
        ) ==> stream_verdict(framed(encoding(m)) + rest) == Ok::<MessageView, StreamError>(m),
{
    if encoding(m).len() <= MAX_MESSAGE_LEN {
        lemma_frame_is_received(encoding(m), rest);
        lemma_round_trip_through_text(m);
    }
}

/// The verdicts on a number of streams, each on its own.
pub open spec fn verdicts(streams: Seq<Seq<u8>>) -> Seq<Result<MessageView, StreamError>> {
    Seq::new(streams.len(), |i: int| stream_verdict(streams[i]))
}

/// What becomes of one stream has no bearing on another: put any bytes in
/// the place of stream `j`, malformed ones too, and the verdict on stream `i`
/// is what it was.
pub proof fn lemma_streams_are_isolated(streams: Seq<Seq<u8>>, i: int, j: int, other: Seq<u8>)
    requires
        0 <= i < streams.len(),
        0 <= j < streams.len(),
        i != j,
    ensures
        verdicts(streams)[i] == stream_verdict(streams[i]),
        verdicts(streams.update(j, other))[i] == verdicts(streams)[i],
{
}

/// The verdict on a stream depends on that stream alone: two streams get
/// the same two verdicts in whichever order they are taken up.
pub proof fn lemma_order_independence(a: Seq<u8>, b: Seq<u8>)
    ensures
        verdicts(seq![a, b]) == seq![stream_verdict(a), stream_verdict(b)],
        verdicts(seq![b, a]) == seq![stream_verdict(b), stream_verdict(a)],
        verdicts(seq![a, b])[0] == verdicts(seq![b, a])[1],
        verdicts(seq![a, b])[1] == verdicts(seq![b, a])[0],
{
    assert(verdicts(seq![a, b]) =~= seq![stream_verdict(a), stream_verdict(b)]);
    assert(verdicts(seq![b, a]) =~= seq![stream_verdict(b), stream_verdict(a)]);
}

} // verus!
