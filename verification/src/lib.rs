//! Session protocol core: message framing, the message codec, and the
//! state machines that drive one session over an established connection.
//!
//! The library decides and computes; it does no input or output of its own.
//! A caller owns the transport: it reads and writes the bytes, and tells the
//! state machines here how each step went.

pub mod connect;
pub mod event;
pub mod frame;
pub mod handler;
pub mod json;
pub mod message;
pub mod outcome;
pub mod receiver;
pub mod send;
pub mod sink;
pub mod state;
pub mod text;

pub use connect::{connect_session, SESSION_ALPN};
pub use handler::SessionHandler;
pub use message::SessionMessage;
pub use sink::{AppHandle, EventEmitter};
pub use state::SessionState;
