//! The callback bridge: connections driven by a host-provided asynchronous
//! environment, with no thread of the bridge's own.
//!
//! The context owns a handle table of connections. `start_connect` allocates
//! a handle and hands back the command — handle and URL — that the host must
//! pass to its "begin connect" function. The host then drives the connection
//! by calling the entry points below with that handle; each one looks the
//! connection up, rejects any call that is out of phase instead of trusting
//! the host, and returns the event to post into the host loop, or `None`
//! where the call was rejected or carries no event. Sends are direct,
//! unbuffered commands for the host's "send" function.

use crate::error::Error;
use crate::event::{EventLabel, WebSocketEvent, WebSocketEventKind};
use crate::lifecycle::{Connection, Phase};
use vstd::pervasive::cloned;
use vstd::prelude::*;
use vstd::utf8::encode_utf8;

verus! {

/// Whether a NUL byte stands somewhere in `b`; text holding one cannot cross
/// the host boundary, which carries NUL-terminated buffers.
pub open spec fn has_nul_byte(b: Seq<u8>) -> bool {
    exists|i: int| 0 <= i < b.len() && b[i] == 0
}

/// Scans UTF-8 bytes for a NUL.
fn contains_nul(bytes: &[u8]) -> (r: bool)
    ensures
        r == has_nul_byte(bytes@),
{
    let mut i: usize = 0;
    while i < bytes.len()
        invariant
            0 <= i <= bytes@.len(),
            forall|j: int| 0 <= j < i ==> bytes@[j] != 0,
        decreases bytes@.len() - i,
    {
        if bytes[i] == 0 {
            return true;
        }
        i = i + 1;
    }
    false
}

/// The per-connection handle for outbound sends: it names the host-side
/// socket object that "send" expects.
pub struct WebSocketSink {
    inner_id: u32,
}

/// What `start_connect` hands the host: the handle the host must use for
/// every callback on this connection, and the URL for "begin connect".
pub struct ConnectCommand {
    /// The handle naming the new connection in every later callback.
    pub handle: usize,
    /// The URL text to connect to; free of NUL bytes.
    pub url: String,
}

/// What `send` hands the host: which host-side socket to write to and the
/// text to write.
pub struct SendCommand {
    /// The host-side socket identifier the sink was created with.
    pub inner_id: u32,
    /// The text payload; free of NUL bytes.
    pub payload: String,
}

impl WebSocketSink {
    /// The host-side socket identifier this sink writes to.
    pub closed spec fn inner_id(self) -> u32 {
        self.inner_id
    }

    /// Prepares `msg` to be written to this sink's host-side socket: the
    /// send is a direct, unbuffered command for the host's "send" function,
    /// performed in call order. Text holding a NUL byte cannot cross the
    /// host boundary and is rejected as an unsupported frame.
    pub fn send(&mut self, msg: String) -> (r: Result<SendCommand, Error>)
        ensures
            *final(self) == *old(self),
            r is Ok <==> !has_nul_byte(encode_utf8(msg@)),
            r matches Ok(cmd) ==> cmd.inner_id == old(self).inner_id() && cmd.payload@ == msg@,
            r matches Err(e) ==> e == Error::UnsupportedDataFrame,
    {
        if contains_nul(msg.as_str().as_bytes()) {
            Err(Error::UnsupportedDataFrame)
        } else {
            Ok(SendCommand { inner_id: self.inner_id, payload: msg })
        }
    }
}

/// The callback bridge's context: the handle table correlating the host's
/// callbacks to connections. Handles are indices into it; an entry is never
/// removed, so a stale handle is recognized and rejected rather than reused.
pub struct WebSocketContext<WebSocketId> {
    connections: Vec<Connection<WebSocketId>>,
}

impl<WebSocketId> WebSocketContext<WebSocketId> {
    /// The connections ever started through this context, by handle.
    pub closed spec fn connections(self) -> Seq<Connection<WebSocketId>> {
        self.connections@
    }

    /// Every connection in the table is well-formed.
    pub open spec fn wf(self) -> bool {
        forall|i: int|
            0 <= i < self.connections().len() ==> (#[trigger] self.connections()[i]).wf()
    }

    /// Whether `handle` names a connection awaiting its handshake outcome.
    pub open spec fn connecting(self, handle: usize) -> bool {
        handle < self.connections().len() && self.connections()[handle as int].phase()
            == Phase::Connecting
    }

    /// Whether `handle` names a running connection.
    pub open spec fn running(self, handle: usize) -> bool {
        handle < self.connections().len() && self.connections()[handle as int].phase()
            == Phase::Running
    }
}

/// A fresh callback-bridge context with no connections yet.
pub fn init<WebSocketId>() -> (r: Result<WebSocketContext<WebSocketId>, Error>)
    ensures
        r matches Ok(ctx) && ctx.wf() && ctx.connections().len() == 0,
{
    Ok(WebSocketContext { connections: Vec::new() })
}

impl<WebSocketId> WebSocketContext<WebSocketId> {
    /// Starts a connection to `request` under the caller-chosen `id`:
    /// allocates the connection's handle and hands back the command for the
    /// host's "begin connect" function. Fails synchronously, with a URL
    /// error naming the text, only when the text holds a NUL byte and so
    /// cannot cross the host boundary; the connect outcome itself arrives
    /// later through `on_open` or `on_connection_failed`.
    pub fn start_connect(&mut self, id: WebSocketId, request: &str) -> (r: Result<
        ConnectCommand,
        Error,
    >)
        requires
            old(self).wf(),
        ensures
            final(self).wf(),
            r is Ok <==> !has_nul_byte(encode_utf8(request@)),
            r matches Err(e) ==> (e matches Error::Url(t) && t@ == request@) && *final(self)
                == *old(self),
            r matches Ok(cmd) ==> {
                &&& cmd.handle == old(self).connections().len()
                &&& cmd.url@ == request@
                &&& final(self).connections().len() == old(self).connections().len() + 1
                &&& forall|i: int|
                    0 <= i < old(self).connections().len() ==> final(self).connections()[i]
                        == old(self).connections()[i]
                &&& final(self).connections()[cmd.handle as int].id() == id
                &&& final(self).connections()[cmd.handle as int].phase() == Phase::Connecting
                &&& final(self).connections()[cmd.handle as int].trace()
                    == Seq::<EventLabel>::empty()
            },
    {
        if contains_nul(request.as_bytes()) {
            return Err(Error::Url(request.to_owned()));
        }
        let handle = self.connections.len();
        self.connections.push(Connection::new(id));
        Ok(ConnectCommand { handle, url: request.to_owned() })
    }
}

/// The host's environment opened the connection `handle`, backed by its
/// socket object `inner_id`: the connection starts running and the host
/// loop gets the `Connected` event carrying the sink. A call whose handle
/// is unknown or whose connection is past the connecting phase — among them
/// a second `on_open` for the same handle — is rejected as a no-op rather
/// than trusted.
pub fn on_open<WebSocketId: Clone>(
    ctx: &mut WebSocketContext<WebSocketId>,
    handle: usize,
    inner_id: u32,
) -> (r: Option<WebSocketEvent<WebSocketId, WebSocketSink>>)
    requires
        old(ctx).wf(),
    ensures
        final(ctx).wf(),
        final(ctx).connections().len() == old(ctx).connections().len(),
        !old(ctx).connecting(handle) ==> r is None && *final(ctx) == *old(ctx),
        old(ctx).connecting(handle) ==> {
            &&& r matches Some(ev) && cloned(
                old(ctx).connections()[handle as int].id(),
                ev.id,
            ) && (ev.kind matches WebSocketEventKind::Connected(sink) && sink.inner_id()
                == inner_id)
            &&& final(ctx).connections()[handle as int].phase() == Phase::Running
            &&& final(ctx).connections()[handle as int].id() == old(ctx).connections()[
                handle as int
            ].id()
            &&& final(ctx).connections()[handle as int].trace() == old(ctx).connections()[
                handle as int
            ].trace().push(EventLabel::Connected)
            &&& forall|i: int|
                0 <= i < old(ctx).connections().len() && i != handle
                    ==> final(ctx).connections()[i] == old(ctx).connections()[i]
        },
{
    if handle >= ctx.connections.len() {
        return None;
    }
    match ctx.connections[handle].current_phase() {
        Phase::Connecting => {
            let mut c = ctx.connections.remove(handle);
            let ev = c.complete_handshake(WebSocketSink { inner_id });
            ctx.connections.insert(handle, c);
            proof {
                assert(ctx.connections@ =~= old(ctx).connections@.update(handle as int, c));
            }
            Some(ev)
        },
        _ => None,
    }
}

/// The host's environment could not open the connection `handle`: it
/// terminates and the host loop gets the `ConnectionFailed` event; no sink
/// ever exists for its id. A call whose handle is unknown or whose
/// connection is past the connecting phase is rejected as a no-op.
pub fn on_connection_failed<WebSocketId: Clone>(
    ctx: &mut WebSocketContext<WebSocketId>,
    handle: usize,
) -> (r: Option<WebSocketEvent<WebSocketId, WebSocketSink>>)
    requires
        old(ctx).wf(),
    ensures
        final(ctx).wf(),
        final(ctx).connections().len() == old(ctx).connections().len(),
        !old(ctx).connecting(handle) ==> r is None && *final(ctx) == *old(ctx),
        old(ctx).connecting(handle) ==> {
            &&& r matches Some(ev) && cloned(
                old(ctx).connections()[handle as int].id(),
                ev.id,
            ) && ev.kind == WebSocketEventKind::<WebSocketSink>::ConnectionFailed(
                Error::ConnectionClosed,
            )
            &&& final(ctx).connections()[handle as int].phase() == Phase::Terminated
            &&& final(ctx).connections()[handle as int].trace() == old(ctx).connections()[
                handle as int
            ].trace().push(EventLabel::ConnectionFailed)
            &&& forall|i: int|
                0 <= i < old(ctx).connections().len() && i != handle
                    ==> final(ctx).connections()[i] == old(ctx).connections()[i]
        },
{
    if handle >= ctx.connections.len() {
        return None;
    }
    match ctx.connections[handle].current_phase() {
        Phase::Connecting => {
            let mut c = ctx.connections.remove(handle);
            let ev = c.fail_handshake(Error::ConnectionClosed);
            ctx.connections.insert(handle, c);
            proof {
                assert(ctx.connections@ =~= old(ctx).connections@.update(handle as int, c));
            }
            Some(ev)
        },
        _ => None,
    }
}

/// The host's environment delivered an inbound text frame on the running
/// connection `handle`; the host loop gets the `Message` event. The bridge
/// takes ownership of the text; a call whose handle is unknown or whose
/// connection is not running is rejected as a no-op.
pub fn on_message<WebSocketId: Clone>(
    ctx: &mut WebSocketContext<WebSocketId>,
    handle: usize,
    msg: String,
) -> (r: Option<WebSocketEvent<WebSocketId, WebSocketSink>>)
    requires
        old(ctx).wf(),
    ensures
        final(ctx).wf(),
        final(ctx).connections().len() == old(ctx).connections().len(),
        !old(ctx).running(handle) ==> r is None && *final(ctx) == *old(ctx),
        old(ctx).running(handle) ==> {
            &&& r matches Some(ev) && cloned(
                old(ctx).connections()[handle as int].id(),
                ev.id,
            ) && ev.kind == WebSocketEventKind::<WebSocketSink>::Message(msg)
            &&& final(ctx).connections()[handle as int].phase() == Phase::Running
            &&& final(ctx).connections()[handle as int].trace() == old(ctx).connections()[
                handle as int
            ].trace().push(EventLabel::Message)
            &&& forall|i: int|
                0 <= i < old(ctx).connections().len() && i != handle
                    ==> final(ctx).connections()[i] == old(ctx).connections()[i]
        },
{
    if handle >= ctx.connections.len() {
        return None;
    }
    match ctx.connections[handle].current_phase() {
        Phase::Running => {
            let mut c = ctx.connections.remove(handle);
            let ev = c.message_received(msg);
            ctx.connections.insert(handle, c);
            proof {
                assert(ctx.connections@ =~= old(ctx).connections@.update(handle as int, c));
            }
            Some(ev)
        },
        _ => None,
    }
}

/// The host's environment reported the close of the running connection
/// `handle`, with the peer's code and reason: the connection terminates,
/// the host loop gets the framed close event, and every later callback on
/// this handle is rejected. A call whose handle is unknown or whose
/// connection is not running is rejected as a no-op.
pub fn on_close<WebSocketId: Clone>(
    ctx: &mut WebSocketContext<WebSocketId>,
    handle: usize,
    code: u32,
    reason: String,
) -> (r: Option<WebSocketEvent<WebSocketId, WebSocketSink>>)
    requires
        old(ctx).wf(),
    ensures
        final(ctx).wf(),
        final(ctx).connections().len() == old(ctx).connections().len(),
        !old(ctx).running(handle) ==> r is None && *final(ctx) == *old(ctx),
        old(ctx).running(handle) ==> {
            &&& r matches Some(ev) && cloned(
                old(ctx).connections()[handle as int].id(),
                ev.id,
            ) && (ev.kind matches WebSocketEventKind::CloseMessage(Some(f)) && f.code == code
                && f.reason@ == reason@)
            &&& final(ctx).connections()[handle as int].phase() == Phase::Terminated
            &&& final(ctx).connections()[handle as int].trace() == old(ctx).connections()[
                handle as int
            ].trace().push(EventLabel::CloseMessage)
            &&& forall|i: int|
                0 <= i < old(ctx).connections().len() && i != handle
                    ==> final(ctx).connections()[i] == old(ctx).connections()[i]
        },
{
    if handle >= ctx.connections.len() {
        return None;
    }
    match ctx.connections[handle].current_phase() {
        Phase::Running => {
            let mut c = ctx.connections.remove(handle);
            let ev = c.close_received(code, reason);
            ctx.connections.insert(handle, c);
            proof {
                assert(ctx.connections@ =~= old(ctx).connections@.update(handle as int, c));
            }
            Some(ev)
        },
        _ => None,
    }
}

/// The host's environment reported a transient error on the connection
/// `handle`. The bridge surfaces nothing for it: the connection's state and
/// the event stream are untouched, and the connection ends only through
/// `on_close`.
pub fn on_error<WebSocketId>(ctx: &mut WebSocketContext<WebSocketId>, handle: usize)
    ensures
        *final(ctx) == *old(ctx),
{
}

/// Lifecycle law at the bridge level: in a well-formed context, the event
/// trace of every handle ever started is lawful — exactly one of
/// `Connected`/`ConnectionFailed` first, and nothing after a terminal
/// event.
pub proof fn lemma_context_traces_valid<WebSocketId>(ctx: WebSocketContext<WebSocketId>)
    requires
        ctx.wf(),
    ensures
        forall|h: int|
            0 <= h < ctx.connections().len() ==> crate::lifecycle::valid_trace(
                (#[trigger] ctx.connections()[h]).trace(),
            ),
{
    assert forall|h: int| 0 <= h < ctx.connections().len() implies crate::lifecycle::valid_trace(
        (#[trigger] ctx.connections()[h]).trace(),
    ) by {
        crate::lifecycle::lemma_trace_valid(ctx.connections()[h]);
    }
}

} // verus!
