//! Data model of the listener: wire-level server events, consumer-facing
//! events, connection states, commands, and the error taxonomy.

use vstd::prelude::*;

verus! {

/// One application message as received from the wire.
///
/// The message schema belongs to the application; the listener itself only
/// inspects the message id and the numeric timestamp (the resume cursor).
/// The raw line carries the full payload to the consumer.
#[derive(Debug, Clone, PartialEq, Eq)]
pub struct ReceivedMessage {
    pub id: String,
    pub time: u64,
    pub raw: String,
}

/// One event of the newline-delimited JSON stream, tagged by its `event`
/// field. Only `Message` is forwarded to the consumer; `Open` and
/// `KeepAlive` affect liveness and the resume cursor alone.
#[derive(Debug, Clone, PartialEq, Eq)]
pub enum ServerEvent {
    Open { id: String, time: usize, expires: Option<usize>, topic: String },
    Message(ReceivedMessage),
    KeepAlive { id: String, time: usize, expires: Option<usize>, topic: String },
}

/// Why a connection attempt ended. Every variant is recovered from by the
/// supervised loop; none is fatal to the actor.
#[derive(Debug, Clone, PartialEq, Eq)]
pub enum ListenerError {
    /// The request could not be built (bad URL or configuration).
    RequestBuild(String),
    /// The server answered with a non-success HTTP status.
    HttpStatus(u16),
    /// A transport or I/O error occurred mid-stream.
    Transport(String),
    /// A line did not even yield the minimal timestamp shape; carries the
    /// offending raw line.
    InvalidMinMessage(String),
    /// A line yielded a timestamp but not a full server event; carries the
    /// offending raw line.
    InvalidMessage(String),
}

/// The connection-state machine of one listener.
#[derive(Debug, Clone, PartialEq, Eq)]
pub enum ConnectionState {
    Unitialized,
    Connected,
    Reconnecting { retry_count: u64, delay_ms: u64, error: Option<ListenerError> },
}

/// What the listener emits to its consumer: application messages and
/// connection-state changes, strictly in the order they were generated.
#[derive(Debug, Clone, PartialEq, Eq)]
pub enum ListenerEvent {
    Message(ReceivedMessage),
    ConnectionStateChanged(ConnectionState),
}

/// A control command for the listener. The reply to `GetState` travels on a
/// single-use channel owned by the runtime around the library.
#[derive(Debug, Clone, Copy, PartialEq, Eq)]
pub enum ListenerCommand {
    Restart,
    Shutdown,
    GetState,
}

impl ListenerError {
    /// An equal copy of this error.
    pub fn duplicate(&self) -> (r: Self)
        ensures
            r == *self,
    {
        match self {
            ListenerError::RequestBuild(s) => ListenerError::RequestBuild(s.clone()),
            ListenerError::HttpStatus(c) => ListenerError::HttpStatus(*c),
            ListenerError::Transport(s) => ListenerError::Transport(s.clone()),
            ListenerError::InvalidMinMessage(s) => ListenerError::InvalidMinMessage(s.clone()),
            ListenerError::InvalidMessage(s) => ListenerError::InvalidMessage(s.clone()),
        }
    }
}

impl ConnectionState {
    /// An equal copy of this state.
    pub fn duplicate(&self) -> (r: Self)
        ensures
            r == *self,
    {
        match self {
            ConnectionState::Unitialized => ConnectionState::Unitialized,
            ConnectionState::Connected => ConnectionState::Connected,
            ConnectionState::Reconnecting { retry_count, delay_ms, error } => {
                let e = match error {
                    Some(e) => Some(e.duplicate()),
                    None => None,
                };
                ConnectionState::Reconnecting {
                    retry_count: *retry_count,
                    delay_ms: *delay_ms,
                    error: e,
                }
            },
        }
    }
}

} // verus!
