//! Plain-value model of what the underlying WebSocket transport hands the
//! bridge: inbound frames and the transport's own error kinds.
//!
//! The transport library works with its own frame and error types; the driver
//! that talks to it converts each value it receives into these types, so that
//! the bridge's logic can be stated and verified over plain values.

use vstd::prelude::*;

verus! {

/// One frame received from (or queued for) the transport.
#[derive(Debug)]
pub enum Frame {
    /// A text frame carrying a complete UTF-8 payload.
    Text(String),
    /// A binary frame; the bridge does not interpret it.
    Binary(Vec<u8>),
    /// A ping control frame.
    Ping(Vec<u8>),
    /// A pong control frame.
    Pong(Vec<u8>),
    /// A close frame, optionally carrying a status code and reason text.
    Close(Option<(u16, String)>),
}

/// The transport library's error kinds, carried as plain values.
#[derive(Debug)]
pub enum TransportError {
    /// The connection was closed normally.
    ConnectionClosed,
    /// The connection was used after it was already closed.
    AlreadyClosed,
    /// An I/O failure, described by its message.
    Io(String),
    /// A TLS failure, described by its message.
    Tls(String),
    /// A buffer capacity was exceeded.
    Capacity(String),
    /// The remote peer violated the WebSocket protocol.
    Protocol(String),
    /// The transport's send queue was full; carries the rejected frame.
    SendQueueFull(Frame),
    /// A payload was not valid UTF-8.
    Utf8,
    /// The URL was rejected by the transport.
    Url(String),
    /// The server answered the handshake with an unexpected HTTP status.
    Http(u16),
    /// The handshake exchange was not well-formed HTTP.
    HttpFormat(String),
}

} // verus!
