//! A bridge that delivers WebSocket connections into a poll-driven host loop
//! as plain event values.
//!
//! The host starts a connection with an id of its choosing; the outcome and
//! every later frame arrive as [`event::WebSocketEvent`] values, and outbound
//! text goes through a per-connection sink. The connection lifecycle, the
//! error taxonomy, the request construction and the outbound queue discipline
//! are verified; the asynchronous transport itself stands outside the library
//! and is driven through the state machines defined here.

pub mod transport;
pub mod error;
pub mod event;
pub mod lifecycle;
pub mod request;
pub mod queue;
pub mod callback;

pub use crate::callback::{init, WebSocketContext, WebSocketSink};
pub use crate::error::Error;
pub use crate::event::{CloseFrame, WebSocketEvent, WebSocketEventKind};
