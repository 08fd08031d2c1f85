//! Error messages, as text for logs and for callers that show them.

use crate::connect::ConnectError;
use crate::message::CodecError;
use crate::receiver::StreamError;
use crate::send::SendError;
use vstd::prelude::*;
use vstd::string::StringExecFns;

verus! {

/// The decimal digit for `d`.
pub open spec fn digit(d: nat) -> char
    recommends
        d < 10,
{
    if d == 0 {
        '0'
    } else if d == 1 {
        '1'
    } else if d == 2 {
        '2'
    } else if d == 3 {
        '3'
    } else if d == 4 {
        '4'
    } else if d == 5 {
        '5'
    } else if d == 6 {
        '6'
    } else if d == 7 {
        '7'
    } else if d == 8 {
        '8'
    } else {
        '9'
    }
}

/// The decimal numeral of `n`, without leading zeros.
pub open spec fn decimal(n: nat) -> Seq<char>
    decreases n,
{
    if n < 10 {
        seq![digit(n)]
    } else {
        decimal(n / 10).push(digit(n % 10))
    }
}

/// The text of a codec error.
pub open spec fn codec_error_text(error: CodecError) -> Seq<char> {
    match error {
        CodecError::Serialize => "Failed to serialize session message"@,
        _ => "Failed to deserialize session message"@,
    }
}

/// The text of a stream error.
pub open spec fn stream_error_text(error: StreamError) -> Seq<char> {
    match error {
        StreamError::ReadLength => "Failed to read message length"@,
        StreamError::MessageTooLarge { declared } => "Message too large: "@ + decimal(
            declared as nat,
        ) + " bytes"@,
        StreamError::ReadBody => "Failed to read message"@,
        StreamError::Decode(e) => codec_error_text(e),
    }
}

/// The text of a send error.
pub open spec fn send_error_text(error: SendError) -> Seq<char> {
    match error {
        SendError::NoActiveConnection => "No active connection"@,
        SendError::Encode(e) => codec_error_text(e),
        SendError::MessageTooLong => "Message too long to send"@,
        SendError::OpenStream => "Failed to open send stream"@,
        SendError::WriteLength => "Failed to write message length"@,
        SendError::WritePayload => "Failed to write message"@,
        SendError::Finish => "Failed to finish stream"@,
    }
}

/// The text of a connect error.
pub open spec fn connect_error_text(error: ConnectError) -> Seq<char> {
    match error {
        ConnectError::TicketParse => "Failed to parse session ticket"@,
        ConnectError::Bind => "Failed to bind endpoint"@,
        ConnectError::Connect => "Failed to connect to peer"@,
    }
}

/// The digit for `d` as a string.
fn digit_str(d: u32) -> (s: &'static str)
    requires
        d < 10,
    ensures
        s@ == seq![digit(d as nat)],
{
    proof {
        reveal_strlit("0");
        reveal_strlit("1");
        reveal_strlit("2");
        reveal_strlit("3");
        reveal_strlit("4");
        reveal_strlit("5");
        reveal_strlit("6");
        reveal_strlit("7");
        reveal_strlit("8");
        reveal_strlit("9");
    }
    let s = if d == 0 {
        "0"
    } else if d == 1 {
        "1"
    } else if d == 2 {
        "2"
    } else if d == 3 {
        "3"
    } else if d == 4 {
        "4"
    } else if d == 5 {
        "5"
    } else if d == 6 {
        "6"
    } else if d == 7 {
        "7"
    } else if d == 8 {
        "8"
    } else {
        "9"
    };
    assert(s@ =~= seq![digit(d as nat)]);
    s
}

/// Writes `n` in decimal.
pub fn decimal_string(n: u32) -> (s: String)
    ensures
        s@ == decimal(n as nat),
    decreases n,
{
    if n < 10 {
        String::from_str(digit_str(n))
    } else {
        let mut s = decimal_string(n / 10);
        s.append(digit_str(n % 10));
        assert(s@ =~= decimal(n as nat));
        s
    }
}

impl CodecError {
    /// The error as text.
    pub fn describe(&self) -> (text: String)
        ensures
            text@ == codec_error_text(*self),
    {
        match self {
            CodecError::Serialize => String::from_str("Failed to serialize session message"),
            _ => String::from_str("Failed to deserialize session message"),
        }
    }
}

impl StreamError {
    /// The error as text.
    pub fn describe(&self) -> (text: String)
        ensures
            text@ == stream_error_text(*self),
    {
        match self {
            StreamError::ReadLength => String::from_str("Failed to read message length"),
            StreamError::MessageTooLarge { declared } => {
                let mut text = String::from_str("Message too large: ");
                text.append(decimal_string(*declared).as_str());
                text.append(" bytes");
                text
            },
            StreamError::ReadBody => String::from_str("Failed to read message"),
            StreamError::Decode(e) => e.describe(),
        }
    }
}

impl SendError {
    /// The error as text.
    pub fn describe(&self) -> (text: String)
        ensures
            text@ == send_error_text(*self),
    {
        match self {
            SendError::NoActiveConnection => String::from_str("No active connection"),
            SendError::Encode(e) => e.describe(),
            SendError::MessageTooLong => String::from_str("Message too long to send"),
            SendError::OpenStream => String::from_str("Failed to open send stream"),
            SendError::WriteLength => String::from_str("Failed to write message length"),
            SendError::WritePayload => String::from_str("Failed to write message"),
            SendError::Finish => String::from_str("Failed to finish stream"),
        }
    }
}

impl ConnectError {
    /// The error as text.
    pub fn describe(&self) -> (text: String)
        ensures
            text@ == connect_error_text(*self),
    {
        match self {
            ConnectError::TicketParse => String::from_str("Failed to parse session ticket"),
            ConnectError::Bind => String::from_str("Failed to bind endpoint"),
            ConnectError::Connect => String::from_str("Failed to connect to peer"),
        }
    }
}

} // verus!
