//! The event values the bridge delivers into the host loop, one per
//! connection-lifecycle step, with verified constructors.

use crate::error::Error;
use vstd::prelude::*;

verus! {

/// One event for the host: which connection it concerns and what happened.
#[derive(Debug)]
pub struct WebSocketEvent<WebSocketId, Sink> {
    /// The caller-chosen key correlating this event to one connection.
    pub id: WebSocketId,
    /// What happened on that connection.
    pub kind: WebSocketEventKind<Sink>,
}

/// The status code and reason text of a close frame.
#[derive(Debug)]
pub struct CloseFrame {
    /// The close status code the peer sent.
    pub code: u32,
    /// The close reason text the peer sent.
    pub reason: String,
}

/// What happened on a connection.
#[derive(Debug)]
pub enum WebSocketEventKind<Sink> {
    /// The handshake succeeded; carries the sink for outbound sends.
    Connected(Sink),
    /// The handshake failed; no sink ever exists for this connection.
    ConnectionFailed(Error),
    /// A text frame arrived.
    Message(String),
    /// A close frame arrived, optionally framed with code and reason.
    CloseMessage(Option<CloseFrame>),
    /// The connection ended normally.
    ConnectionClosed,
    /// A transport failure on an open connection.
    Error(Error),
}

/// The shape of an event kind, with the payload stripped; traces of these
/// labels are what the lifecycle laws speak of.
pub enum EventLabel {
    /// Label of `Connected`.
    Connected,
    /// Label of `ConnectionFailed`.
    ConnectionFailed,
    /// Label of `Message`.
    Message,
    /// Label of `CloseMessage`.
    CloseMessage,
    /// Label of `ConnectionClosed`.
    ConnectionClosed,
    /// Label of `Error`.
    Error,
}

/// The label of an event kind.
pub open spec fn label_of<Sink>(k: WebSocketEventKind<Sink>) -> EventLabel {
    match k {
        WebSocketEventKind::Connected(_) => EventLabel::Connected,
        WebSocketEventKind::ConnectionFailed(_) => EventLabel::ConnectionFailed,
        WebSocketEventKind::Message(_) => EventLabel::Message,
        WebSocketEventKind::CloseMessage(_) => EventLabel::CloseMessage,
        WebSocketEventKind::ConnectionClosed => EventLabel::ConnectionClosed,
        WebSocketEventKind::Error(_) => EventLabel::Error,
    }
}

/// The name of an event kind's label, as text.
pub open spec fn label_name(l: EventLabel) -> Seq<char> {
    match l {
        EventLabel::Connected => "Connected"@,
        EventLabel::ConnectionFailed => "ConnectionFailed"@,
        EventLabel::Message => "Message"@,
        EventLabel::CloseMessage => "CloseMessage"@,
        EventLabel::ConnectionClosed => "ConnectionClosed"@,
        EventLabel::Error => "Error"@,
    }
}

impl<Sink> WebSocketEventKind<Sink> {
    /// The variant's name, for logs and diagnostics.
    pub fn label(&self) -> (r: &'static str)
        ensures
            r@ == label_name(label_of(*self)),
    {
        match self {
            WebSocketEventKind::Connected(_) => "Connected",
            WebSocketEventKind::ConnectionFailed(_) => "ConnectionFailed",
            WebSocketEventKind::Message(_) => "Message",
            WebSocketEventKind::CloseMessage(_) => "CloseMessage",
            WebSocketEventKind::ConnectionClosed => "ConnectionClosed",
            WebSocketEventKind::Error(_) => "Error",
        }
    }
}

impl<WebSocketId, Sink> WebSocketEvent<WebSocketId, Sink> {
    /// The event announcing a successful handshake, carrying the sink.
    pub fn connected(id: WebSocketId, sink: Sink) -> (ev: Self)
        ensures
            ev.id == id,
            ev.kind == WebSocketEventKind::Connected(sink),
    {
        Self { id, kind: WebSocketEventKind::Connected(sink) }
    }

    /// The event announcing a failed handshake.
    pub fn connection_failed(id: WebSocketId, err: Error) -> (ev: Self)
        ensures
            ev.id == id,
            ev.kind == WebSocketEventKind::<Sink>::ConnectionFailed(err),
    {
        Self { id, kind: WebSocketEventKind::ConnectionFailed(err) }
    }

    /// The event delivering an inbound text frame.
    pub fn message(id: WebSocketId, msg: String) -> (ev: Self)
        ensures
            ev.id == id,
            ev.kind == WebSocketEventKind::<Sink>::Message(msg),
    {
        Self { id, kind: WebSocketEventKind::Message(msg) }
    }

    /// The event delivering a close frame that carried no code or reason.
    pub fn empty_close_msg(id: WebSocketId) -> (ev: Self)
        ensures
            ev.id == id,
            ev.kind == WebSocketEventKind::<Sink>::CloseMessage(None::<CloseFrame>),
    {
        Self { id, kind: WebSocketEventKind::CloseMessage(None) }
    }

    /// The event delivering a close frame with its code and reason.
    pub fn close_msg(id: WebSocketId, code: u32, reason: String) -> (ev: Self)
        ensures
            ev.id == id,
            ev.kind == WebSocketEventKind::<Sink>::CloseMessage(Some(CloseFrame { code, reason })),
    {
        Self { id, kind: WebSocketEventKind::CloseMessage(Some(CloseFrame { code, reason })) }
    }

    /// The event announcing that the connection ended normally.
    pub fn connection_closed(id: WebSocketId) -> (ev: Self)
        ensures
            ev.id == id,
            ev.kind == WebSocketEventKind::<Sink>::ConnectionClosed,
    {
        Self { id, kind: WebSocketEventKind::ConnectionClosed }
    }

    /// The event reporting a transport failure on an open connection.
    pub fn error(id: WebSocketId, err: Error) -> (ev: Self)
        ensures
            ev.id == id,
            ev.kind == WebSocketEventKind::<Sink>::Error(err),
    {
        Self { id, kind: WebSocketEventKind::Error(err) }
    }
}

} // verus!
