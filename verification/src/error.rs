//! The bridge's closed error taxonomy, and the translation of transport
//! errors into it.

use crate::transport::{Frame, TransportError};
use vstd::pervasive::unreached;
use vstd::prelude::*;

verus! {

/// Every failure the bridge reports, either synchronously from `start_connect`
/// and `send` or inside a `ConnectionFailed`/`Error` event.
#[derive(Debug)]
pub enum Error {
    /// The connection was closed normally.
    ConnectionClosed,
    /// The connection was used after it had already terminated.
    AlreadyClosed,
    /// An I/O failure, described by its message.
    Io(String),
    /// A TLS failure, described by its message.
    Tls(String),
    /// A buffer capacity was exceeded.
    Capacity(String),
    /// The remote peer violated the WebSocket protocol.
    Protocol(String),
    /// The outbound queue was full; carries the rejected text payload.
    SendQueueFull(String),
    /// A payload was not valid UTF-8.
    Utf8,
    /// The URL could not be used; carries the offending text.
    Url(String),
    /// The server answered the handshake with this unexpected HTTP status.
    Http(u16),
    /// The handshake exchange was not well-formed HTTP.
    HttpFormat(String),
    /// The transport delivered a frame kind the bridge does not surface.
    UnsupportedDataFrame,
}

/// The meaning of [`Error::from_transport`]: each transport error kind maps
/// one-to-one onto the bridge's taxonomy. A full-queue report is only
/// meaningful for a text frame, the only kind this bridge ever queues.
pub open spec fn transport_error_to_error(e: TransportError) -> Error {
    match e {
        TransportError::ConnectionClosed => Error::ConnectionClosed,
        TransportError::AlreadyClosed => Error::AlreadyClosed,
        TransportError::Io(msg) => Error::Io(msg),
        TransportError::Tls(msg) => Error::Tls(msg),
        TransportError::Capacity(msg) => Error::Capacity(msg),
        TransportError::Protocol(msg) => Error::Protocol(msg),
        TransportError::SendQueueFull(f) => match f {
            Frame::Text(msg) => Error::SendQueueFull(msg),
            _ => vstd::pervasive::arbitrary(),
        },
        TransportError::Utf8 => Error::Utf8,
        TransportError::Url(msg) => Error::Url(msg),
        TransportError::Http(code) => Error::Http(code),
        TransportError::HttpFormat(msg) => Error::HttpFormat(msg),
    }
}

impl Error {
    /// Translates a transport error into the bridge's taxonomy.
    ///
    /// The bridge only ever queues text frames, so a full-queue report about
    /// any other frame kind cannot arise from this bridge and is excluded.
    pub fn from_transport(e: TransportError) -> (r: Error)
        requires
            e matches TransportError::SendQueueFull(f) ==> f is Text,
        ensures
            r == transport_error_to_error(e),
    {
        match e {
            TransportError::ConnectionClosed => Error::ConnectionClosed,
            TransportError::AlreadyClosed => Error::AlreadyClosed,
            TransportError::Io(msg) => Error::Io(msg),
            TransportError::Tls(msg) => Error::Tls(msg),
            TransportError::Capacity(msg) => Error::Capacity(msg),
            TransportError::Protocol(msg) => Error::Protocol(msg),
            TransportError::SendQueueFull(f) => match f {
                Frame::Text(msg) => Error::SendQueueFull(msg),
                _ => unreached(),
            },
            TransportError::Utf8 => Error::Utf8,
            TransportError::Url(msg) => Error::Url(msg),
            TransportError::Http(code) => Error::Http(code),
            TransportError::HttpFormat(msg) => Error::HttpFormat(msg),
        }
    }
}

} // verus!
