use ws_bridge::error::Error;
use ws_bridge::event::WebSocketEventKind;
use ws_bridge::lifecycle::{Connection, Phase};
use ws_bridge::transport::{Frame, TransportError};

#[test]
fn it_works() {
    assert_eq!(2 + 2, 4);
}

#[test]
fn successful_session_posts_one_connected_then_messages_then_one_close() {
    let mut c = Connection::new(1u32);
    assert!(matches!(c.current_phase(), Phase::Connecting));

    let ev = c.complete_handshake("sink");
    assert_eq!(ev.id, 1);
    assert!(matches!(ev.kind, WebSocketEventKind::Connected("sink")));
    assert!(matches!(c.current_phase(), Phase::Running));

    let (ev, go_on) = c.process_recv::<&str>(Some(Ok(Frame::Text(String::from("hello")))));
    assert_eq!(ev.id, 1);
    assert!(go_on);
    match ev.kind {
        WebSocketEventKind::Message(s) => assert_eq!(s, "hello"),
        _ => panic!("expected a message event"),
    }

    let (ev, go_on) = c.process_recv::<&str>(None);
    assert_eq!(ev.id, 1);
    assert!(!go_on);
    assert!(matches!(ev.kind, WebSocketEventKind::ConnectionClosed));
    assert!(matches!(c.current_phase(), Phase::Terminated));
}

#[test]
fn failed_handshake_posts_one_connection_failed_and_terminates() {
    let mut c = Connection::new(2u32);
    let ev = c.fail_handshake::<&str>(Error::Io(String::from("connection refused")));
    assert_eq!(ev.id, 2);
    match ev.kind {
        WebSocketEventKind::ConnectionFailed(Error::Io(msg)) => {
            assert_eq!(msg, "connection refused")
        }
        _ => panic!("expected a connection-failed event"),
    }
    assert!(matches!(c.current_phase(), Phase::Terminated));
}

#[test]
fn framed_close_is_reported_and_the_loop_goes_on() {
    let mut c = Connection::new(3u32);
    let _ = c.complete_handshake(());
    let (ev, go_on) = c.process_recv::<()>(Some(Ok(Frame::Close(Some((
        1000,
        String::from("bye"),
    ))))));
    assert!(go_on);
    match ev.kind {
        WebSocketEventKind::CloseMessage(Some(frame)) => {
            assert_eq!(frame.code, 1000);
            assert_eq!(frame.reason, "bye");
        }
        _ => panic!("expected a framed close event"),
    }
    assert!(matches!(c.current_phase(), Phase::Running));
}

#[test]
fn empty_close_is_reported_without_a_frame() {
    let mut c = Connection::new(4u32);
    let _ = c.complete_handshake(());
    let (ev, go_on) = c.process_recv::<()>(Some(Ok(Frame::Close(None))));
    assert!(go_on);
    assert!(matches!(ev.kind, WebSocketEventKind::CloseMessage(None)));
}

#[test]
fn binary_frame_is_reported_as_unsupported_and_the_loop_goes_on() {
    let mut c = Connection::new(5u32);
    let _ = c.complete_handshake(());
    let (ev, go_on) = c.process_recv::<()>(Some(Ok(Frame::Binary(vec![1, 2, 3]))));
    assert!(go_on);
    assert!(matches!(
        ev.kind,
        WebSocketEventKind::Error(Error::UnsupportedDataFrame)
    ));
    assert!(matches!(c.current_phase(), Phase::Running));
}

#[test]
fn normal_close_error_terminates_with_connection_closed() {
    let mut c = Connection::new(6u32);
    let _ = c.complete_handshake(());
    let (ev, go_on) = c.process_recv::<()>(Some(Err(TransportError::ConnectionClosed)));
    assert!(!go_on);
    assert!(matches!(ev.kind, WebSocketEventKind::ConnectionClosed));
    assert!(matches!(c.current_phase(), Phase::Terminated));
}

#[test]
fn transport_error_terminates_with_an_error_event() {
    let mut c = Connection::new(7u32);
    let _ = c.complete_handshake(());
    let (ev, go_on) =
        c.process_recv::<()>(Some(Err(TransportError::Protocol(String::from("bad opcode")))));
    assert!(!go_on);
    match ev.kind {
        WebSocketEventKind::Error(Error::Protocol(msg)) => assert_eq!(msg, "bad opcode"),
        _ => panic!("expected an error event"),
    }
    assert!(matches!(c.current_phase(), Phase::Terminated));
}

#[test]
fn failed_write_terminates_with_an_error_event() {
    let mut c = Connection::new(8u32);
    let _ = c.complete_handshake(());
    let ev = c.send_failed::<()>(TransportError::Io(String::from("broken pipe")));
    match ev.kind {
        WebSocketEventKind::Error(Error::Io(msg)) => assert_eq!(msg, "broken pipe"),
        _ => panic!("expected an error event"),
    }
    assert!(matches!(c.current_phase(), Phase::Terminated));
}

#[test]
fn dropped_queue_ends_the_task_quietly() {
    let mut c = Connection::new(9u32);
    let _ = c.complete_handshake(());
    c.queue_closed();
    assert!(matches!(c.current_phase(), Phase::Terminated));
}
