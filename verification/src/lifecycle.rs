//! The per-connection lifecycle state machine shared by both bridge variants.
//!
//! A connection moves `Connecting -> Running -> Terminated`. Every transition
//! hands back the event to post into the host loop and records the event's
//! label in a ghost trace, so the lifecycle laws — exactly one of
//! `Connected`/`ConnectionFailed`, first, and nothing after a terminal event —
//! are stated and proved over that trace.
//!
//! The driver that owns the transport (a background task on threaded
//! platforms, the host's callbacks elsewhere) performs the I/O and feeds each
//! outcome into these transitions; the transitions alone decide which event is
//! posted and whether the connection goes on.

use crate::error::{transport_error_to_error, Error};
use crate::event::{label_of, CloseFrame, EventLabel, WebSocketEvent, WebSocketEventKind};
use crate::transport::{Frame, TransportError};
use vstd::pervasive::cloned;
use vstd::prelude::*;

verus! {

/// Where a connection stands in its lifecycle.
pub enum Phase {
    /// `start_connect` was called; no handshake outcome yet.
    Connecting,
    /// The handshake succeeded; frames flow in both directions.
    Running,
    /// The connection ended; no further event is ever produced for it.
    Terminated,
}

/// Labels that may open a trace: the handshake's two outcomes.
pub open spec fn is_initial(l: EventLabel) -> bool {
    l == EventLabel::Connected || l == EventLabel::ConnectionFailed
}

/// Labels after which a connection's trace never grows.
pub open spec fn is_terminal(l: EventLabel) -> bool {
    l == EventLabel::ConnectionFailed || l == EventLabel::ConnectionClosed
}

/// A lawful per-connection event trace: an initial label stands exactly at
/// the front, and a terminal label only at the very end.
pub open spec fn valid_trace(t: Seq<EventLabel>) -> bool {
    forall|i: int|
        0 <= i < t.len() ==> {
            &&& (is_initial(#[trigger] t[i]) <==> i == 0)
            &&& (is_terminal(t[i]) ==> i == t.len() - 1)
        }
}

/// One logical connection: its caller-chosen id, its phase, and the ghost
/// trace of every event label it has produced.
pub struct Connection<WebSocketId> {
    id: WebSocketId,
    phase: Phase,
    trace: Ghost<Seq<EventLabel>>,
}

impl<WebSocketId> Connection<WebSocketId> {
    /// The caller-chosen id correlating this connection's events.
    pub closed spec fn id(self) -> WebSocketId {
        self.id
    }

    /// Where the connection stands in its lifecycle.
    pub closed spec fn phase(self) -> Phase {
        self.phase
    }

    /// The labels of every event this connection has produced, oldest first.
    pub closed spec fn trace(self) -> Seq<EventLabel> {
        self.trace@
    }

    /// Phase/trace consistency, established by `new` and kept by every
    /// transition.
    pub closed spec fn wf(self) -> bool {
        match self.phase {
            Phase::Connecting => self.trace@.len() == 0,
            Phase::Running => {
                &&& self.trace@.len() >= 1
                &&& self.trace@[0] == EventLabel::Connected
                &&& forall|i: int|
                    1 <= i < self.trace@.len() ==> !is_initial(#[trigger] self.trace@[i])
                        && !is_terminal(self.trace@[i])
            },
            Phase::Terminated => valid_trace(self.trace@),
        }
    }

    /// A fresh connection for `id`, awaiting its handshake outcome.
    pub fn new(id: WebSocketId) -> (c: Self)
        ensures
            c.wf(),
            c.phase() == Phase::Connecting,
            c.id() == id,
            c.trace() == Seq::<EventLabel>::empty(),
    {
        Connection { id, phase: Phase::Connecting, trace: Ghost(Seq::empty()) }
    }

    /// The phase, for the driver and the host to branch on.
    pub fn current_phase(&self) -> (p: Phase)
        ensures
            p == self.phase(),
    {
        match self.phase {
            Phase::Connecting => Phase::Connecting,
            Phase::Running => Phase::Running,
            Phase::Terminated => Phase::Terminated,
        }
    }
}

/// Lifecycle law: every reachable connection's event trace is lawful —
/// exactly one of `Connected`/`ConnectionFailed` stands first and precedes
/// every `Message`/`CloseMessage`/`Error`/`ConnectionClosed`, and after a
/// terminal label (`ConnectionFailed` or `ConnectionClosed`) no further
/// event is ever recorded.
pub proof fn lemma_trace_valid<WebSocketId>(c: Connection<WebSocketId>)
    requires
        c.wf(),
    ensures
        valid_trace(c.trace()),
{
    match c.phase() {
        Phase::Connecting => {
        },
        Phase::Running => {
            assert forall|i: int| 0 <= i < c.trace().len() implies {
                &&& (is_initial(#[trigger] c.trace()[i]) <==> i == 0)
                &&& (is_terminal(c.trace()[i]) ==> i == c.trace().len() - 1)
            } by {
                if i == 0 {
                    assert(c.trace()[0] == EventLabel::Connected);
                }
            }
        },
        Phase::Terminated => {
        },
    }
}

/// The label of the event that `process_recv` produces for `msg`.
pub open spec fn recv_label(msg: Option<Result<Frame, TransportError>>) -> EventLabel {
    match msg {
        Some(res) => match res {
            Ok(f) => match f {
                Frame::Text(_) => EventLabel::Message,
                Frame::Close(_) => EventLabel::CloseMessage,
                _ => EventLabel::Error,
            },
            Err(e) => if e is ConnectionClosed {
                EventLabel::ConnectionClosed
            } else {
                EventLabel::Error
            },
        },
        None => EventLabel::ConnectionClosed,
    }
}

/// Whether the receive loop goes on after `process_recv` saw `msg`: only a
/// well-delivered frame keeps the connection running.
pub open spec fn recv_continues(msg: Option<Result<Frame, TransportError>>) -> bool {
    msg matches Some(Ok(_))
}

/// The event kind that `process_recv` produces for `msg`: a text frame
/// becomes `Message`, a close frame `CloseMessage`, any other frame kind an
/// `UnsupportedDataFrame` error; a normal close or the stream's end becomes
/// `ConnectionClosed`, and any other transport error its translation.
pub open spec fn recv_event_kind<Sink>(msg: Option<Result<Frame, TransportError>>) -> WebSocketEventKind<Sink> {
    match msg {
        Some(res) => match res {
            Ok(f) => match f {
                Frame::Text(s) => WebSocketEventKind::Message(s),
                Frame::Close(opt) => match opt {
                    Some(frame) => WebSocketEventKind::CloseMessage(
                        Some(CloseFrame { code: frame.0 as u32, reason: frame.1 }),
                    ),
                    None => WebSocketEventKind::CloseMessage(None),
                },
                _ => WebSocketEventKind::Error(Error::UnsupportedDataFrame),
            },
            Err(e) => if e is ConnectionClosed {
                WebSocketEventKind::ConnectionClosed
            } else {
                WebSocketEventKind::Error(transport_error_to_error(e))
            },
        },
        None => WebSocketEventKind::ConnectionClosed,
    }
}

/// A running connection's trace is lawful as it stands.
proof fn lemma_running_trace_valid(t: Seq<EventLabel>)
    requires
        t.len() >= 1,
        t[0] == EventLabel::Connected,
        forall|i: int| 1 <= i < t.len() ==> !is_initial(#[trigger] t[i]) && !is_terminal(t[i]),
    ensures
        valid_trace(t),
{
}

/// A running connection's trace stays lawful when one more non-initial
/// label ends it.
proof fn lemma_running_push_terminal(t: Seq<EventLabel>, l: EventLabel)
    requires
        t.len() >= 1,
        t[0] == EventLabel::Connected,
        forall|i: int| 1 <= i < t.len() ==> !is_initial(#[trigger] t[i]) && !is_terminal(t[i]),
        !is_initial(l),
    ensures
        valid_trace(t.push(l)),
{
    let t2 = t.push(l);
    assert forall|i: int| 0 <= i < t2.len() implies ((is_initial(#[trigger] t2[i]) <==> i == 0)
        && (is_terminal(t2[i]) ==> i == t2.len() - 1)) by {
        if i < t.len() {
            assert(t2[i] == t[i]);
        } else {
            assert(t2[i] == l);
        }
    }
}

impl<WebSocketId: Clone> Connection<WebSocketId> {
    /// The handshake succeeded: the connection starts running and the host
    /// gets the `Connected` event carrying `sink`.
    pub fn complete_handshake<Sink>(&mut self, sink: Sink) -> (ev: WebSocketEvent<
        WebSocketId,
        Sink,
    >)
        requires
            old(self).wf(),
            old(self).phase() == Phase::Connecting,
        ensures
            final(self).wf(),
            final(self).phase() == Phase::Running,
            final(self).id() == old(self).id(),
            final(self).trace() == old(self).trace().push(EventLabel::Connected),
            cloned(old(self).id(), ev.id),
            ev.kind == WebSocketEventKind::Connected(sink),
    {
        self.phase = Phase::Running;
        proof {
            self.trace@ = self.trace@.push(EventLabel::Connected);
        }
        WebSocketEvent::connected(self.id.clone(), sink)
    }

    /// The transport delivered `msg` while the connection was running: the
    /// host gets the translated event, and the second result says whether the
    /// receive loop goes on. A normal close (`ConnectionClosed` from the
    /// transport, or the stream's end) terminates with a `ConnectionClosed`
    /// event; any other transport error terminates with an `Error` event; a
    /// close frame and an unsupported frame kind are reported and the loop
    /// goes on.
    pub fn process_recv<Sink>(&mut self, msg: Option<Result<Frame, TransportError>>) -> (r: (
        WebSocketEvent<WebSocketId, Sink>,
        bool,
    ))
        requires
            old(self).wf(),
            old(self).phase() == Phase::Running,
            msg matches Some(Err(TransportError::SendQueueFull(f))) ==> f is Text,
        ensures
            final(self).wf(),
            final(self).id() == old(self).id(),
            cloned(old(self).id(), r.0.id),
            r.0.kind == recv_event_kind::<Sink>(msg),
            label_of(r.0.kind) == recv_label(msg),
            r.1 == recv_continues(msg),
            final(self).phase() == if recv_continues(msg) {
                Phase::Running
            } else {
                Phase::Terminated
            },
            final(self).trace() == old(self).trace().push(recv_label(msg)),
    {
        let ghost lbl = recv_label(msg);
        match msg {
            Some(Ok(frame)) => {
                let ev = match frame {
                    Frame::Text(s) => WebSocketEvent::message(self.id.clone(), s),
                    Frame::Close(Some((code, reason))) => WebSocketEvent::close_msg(
                        self.id.clone(),
                        code as u32,
                        reason,
                    ),
                    Frame::Close(None) => WebSocketEvent::empty_close_msg(self.id.clone()),
                    _ => WebSocketEvent::error(self.id.clone(), Error::UnsupportedDataFrame),
                };
                proof {
                    self.trace@ = self.trace@.push(lbl);
                }
                (ev, true)
            },
            Some(Err(TransportError::ConnectionClosed)) | None => {
                let ev = WebSocketEvent::connection_closed(self.id.clone());
                self.phase = Phase::Terminated;
                proof {
                    lemma_running_push_terminal(old(self).trace(), lbl);
                    self.trace@ = self.trace@.push(lbl);
                }
                (ev, false)
            },
            Some(Err(e)) => {
                let ev = WebSocketEvent::error(self.id.clone(), Error::from_transport(e));
                self.phase = Phase::Terminated;
                proof {
                    lemma_running_push_terminal(old(self).trace(), lbl);
                    self.trace@ = self.trace@.push(lbl);
                }
                (ev, false)
            },
        }
    }

    /// The host's environment delivered an inbound text frame while the
    /// connection was running; the connection stays running.
    pub fn message_received<Sink>(&mut self, msg: String) -> (ev: WebSocketEvent<
        WebSocketId,
        Sink,
    >)
        requires
            old(self).wf(),
            old(self).phase() == Phase::Running,
        ensures
            final(self).wf(),
            final(self).phase() == Phase::Running,
            final(self).id() == old(self).id(),
            final(self).trace() == old(self).trace().push(EventLabel::Message),
            cloned(old(self).id(), ev.id),
            ev.kind == WebSocketEventKind::<Sink>::Message(msg),
    {
        proof {
            self.trace@ = self.trace@.push(EventLabel::Message);
        }
        WebSocketEvent::message(self.id.clone(), msg)
    }

    /// The host's environment reported the close of a running connection,
    /// with the peer's code and reason: the connection terminates and the
    /// host gets the framed close event.
    pub fn close_received<Sink>(&mut self, code: u32, reason: String) -> (ev: WebSocketEvent<
        WebSocketId,
        Sink,
    >)
        requires
            old(self).wf(),
            old(self).phase() == Phase::Running,
        ensures
            final(self).wf(),
            final(self).phase() == Phase::Terminated,
            final(self).id() == old(self).id(),
            final(self).trace() == old(self).trace().push(EventLabel::CloseMessage),
            cloned(old(self).id(), ev.id),
            ev.kind == WebSocketEventKind::<Sink>::CloseMessage(
                Some(CloseFrame { code, reason }),
            ),
    {
        self.phase = Phase::Terminated;
        proof {
            lemma_running_push_terminal(old(self).trace(), EventLabel::CloseMessage);
            self.trace@ = self.trace@.push(EventLabel::CloseMessage);
        }
        WebSocketEvent::close_msg(self.id.clone(), code, reason)
    }

    /// Writing an outbound frame to the transport failed: the connection
    /// terminates and the host gets the translated `Error` event.
    pub fn send_failed<Sink>(&mut self, err: TransportError) -> (ev: WebSocketEvent<
        WebSocketId,
        Sink,
    >)
        requires
            old(self).wf(),
            old(self).phase() == Phase::Running,
            err matches TransportError::SendQueueFull(f) ==> f is Text,
        ensures
            final(self).wf(),
            final(self).phase() == Phase::Terminated,
            final(self).id() == old(self).id(),
            final(self).trace() == old(self).trace().push(EventLabel::Error),
            cloned(old(self).id(), ev.id),
            ev.kind == WebSocketEventKind::<Sink>::Error(transport_error_to_error(err)),
    {
        self.phase = Phase::Terminated;
        proof {
            lemma_running_push_terminal(old(self).trace(), EventLabel::Error);
            self.trace@ = self.trace@.push(EventLabel::Error);
        }
        WebSocketEvent::error(self.id.clone(), Error::from_transport(err))
    }

    /// Every sender to the outbound queue was dropped: the connection's task
    /// ends quietly, with no event.
    pub fn queue_closed(&mut self)
        requires
            old(self).wf(),
            old(self).phase() == Phase::Running,
        ensures
            final(self).wf(),
            final(self).phase() == Phase::Terminated,
            final(self).id() == old(self).id(),
            final(self).trace() == old(self).trace(),
    {
        self.phase = Phase::Terminated;
        proof {
            lemma_running_trace_valid(old(self).trace());
        }
    }

    /// The handshake failed: the connection terminates at once and the host
    /// gets the `ConnectionFailed` event; no sink ever exists for this id.
    pub fn fail_handshake<Sink>(&mut self, err: Error) -> (ev: WebSocketEvent<WebSocketId, Sink>)
        requires
            old(self).wf(),
            old(self).phase() == Phase::Connecting,
        ensures
            final(self).wf(),
            final(self).phase() == Phase::Terminated,
            final(self).id() == old(self).id(),
            final(self).trace() == old(self).trace().push(EventLabel::ConnectionFailed),
            cloned(old(self).id(), ev.id),
            ev.kind == WebSocketEventKind::<Sink>::ConnectionFailed(err),
    {
        self.phase = Phase::Terminated;
        proof {
            self.trace@ = self.trace@.push(EventLabel::ConnectionFailed);
        }
        WebSocketEvent::connection_failed(self.id.clone(), err)
    }
}

} // verus!
