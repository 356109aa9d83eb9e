use ws_bridge::callback::{
    init, on_close, on_connection_failed, on_error, on_message, on_open,
};
use ws_bridge::error::Error;
use ws_bridge::event::WebSocketEventKind;

#[test]
fn open_then_message_then_close_delivers_the_events_in_order() {
    let mut ctx = init::<u32>().unwrap();
    let cmd = ctx.start_connect(1, "ws://host/ws").unwrap();
    assert_eq!(cmd.handle, 0);
    assert_eq!(cmd.url, "ws://host/ws");

    let ev = on_open(&mut ctx, cmd.handle, 42).unwrap();
    assert_eq!(ev.id, 1);
    let mut sink = match ev.kind {
        WebSocketEventKind::Connected(sink) => sink,
        _ => panic!("expected a connected event"),
    };

    let ev = on_message(&mut ctx, cmd.handle, String::from("hi")).unwrap();
    assert_eq!(ev.id, 1);
    match ev.kind {
        WebSocketEventKind::Message(s) => assert_eq!(s, "hi"),
        _ => panic!("expected a message event"),
    }

    let send = sink.send(String::from("pong")).unwrap();
    assert_eq!(send.inner_id, 42);
    assert_eq!(send.payload, "pong");

    let ev = on_close(&mut ctx, cmd.handle, 1001, String::from("going away")).unwrap();
    assert_eq!(ev.id, 1);
    match ev.kind {
        WebSocketEventKind::CloseMessage(Some(frame)) => {
            assert_eq!(frame.code, 1001);
            assert_eq!(frame.reason, "going away");
        }
        _ => panic!("expected a framed close event"),
    }
}

#[test]
fn second_on_open_for_the_same_handle_is_rejected() {
    let mut ctx = init::<u32>().unwrap();
    let cmd = ctx.start_connect(7, "ws://host/ws").unwrap();
    let first = on_open(&mut ctx, cmd.handle, 3);
    assert!(matches!(
        first,
        Some(ev) if matches!(ev.kind, WebSocketEventKind::Connected(_))
    ));
    let second = on_open(&mut ctx, cmd.handle, 3);
    assert!(second.is_none());
}

#[test]
fn failed_connect_delivers_one_connection_failed_and_nothing_after() {
    let mut ctx = init::<u32>().unwrap();
    let cmd = ctx.start_connect(2, "ws://host/ws").unwrap();
    let ev = on_connection_failed(&mut ctx, cmd.handle).unwrap();
    assert_eq!(ev.id, 2);
    assert!(matches!(
        ev.kind,
        WebSocketEventKind::ConnectionFailed(Error::ConnectionClosed)
    ));
    assert!(on_connection_failed(&mut ctx, cmd.handle).is_none());
    assert!(on_open(&mut ctx, cmd.handle, 9).is_none());
    assert!(on_message(&mut ctx, cmd.handle, String::from("late")).is_none());
    assert!(on_close(&mut ctx, cmd.handle, 1000, String::new()).is_none());
}

#[test]
fn callbacks_after_close_are_rejected() {
    let mut ctx = init::<u32>().unwrap();
    let cmd = ctx.start_connect(5, "ws://host/ws").unwrap();
    let _ = on_open(&mut ctx, cmd.handle, 1);
    let _ = on_close(&mut ctx, cmd.handle, 1000, String::new());
    assert!(on_message(&mut ctx, cmd.handle, String::from("late")).is_none());
    assert!(on_close(&mut ctx, cmd.handle, 1000, String::new()).is_none());
    assert!(on_open(&mut ctx, cmd.handle, 1).is_none());
}

#[test]
fn unknown_handles_are_rejected() {
    let mut ctx = init::<u32>().unwrap();
    assert!(on_open(&mut ctx, 0, 1).is_none());
    assert!(on_connection_failed(&mut ctx, 3).is_none());
    assert!(on_message(&mut ctx, 9, String::new()).is_none());
    assert!(on_close(&mut ctx, 9, 1000, String::new()).is_none());
}

#[test]
fn on_error_changes_nothing() {
    let mut ctx = init::<u32>().unwrap();
    let cmd = ctx.start_connect(6, "ws://host/ws").unwrap();
    let _ = on_open(&mut ctx, cmd.handle, 2);
    on_error(&mut ctx, cmd.handle);
    on_error(&mut ctx, 99);
    let ev = on_message(&mut ctx, cmd.handle, String::from("still running")).unwrap();
    assert!(matches!(ev.kind, WebSocketEventKind::Message(_)));
}

#[test]
fn handles_count_up_from_zero_per_context() {
    let mut ctx = init::<u32>().unwrap();
    let first = ctx.start_connect(1, "ws://a/1").unwrap();
    let second = ctx.start_connect(2, "ws://b/2").unwrap();
    assert_eq!(first.handle, 0);
    assert_eq!(second.handle, 1);
    let ev = on_open(&mut ctx, second.handle, 8).unwrap();
    assert_eq!(ev.id, 2);
}

#[test]
fn url_with_a_nul_byte_is_rejected_synchronously() {
    let mut ctx = init::<u32>().unwrap();
    match ctx.start_connect(1, "ws://h\0ost/ws") {
        Err(Error::Url(text)) => assert_eq!(text, "ws://h\0ost/ws"),
        _ => panic!("a NUL byte in the URL must fail synchronously"),
    }
    assert!(on_open(&mut ctx, 0, 1).is_none());
}

#[test]
fn sink_send_rejects_text_with_a_nul_byte() {
    let mut ctx = init::<u32>().unwrap();
    let cmd = ctx.start_connect(1, "ws://host/ws").unwrap();
    let ev = on_open(&mut ctx, cmd.handle, 11).unwrap();
    let mut sink = match ev.kind {
        WebSocketEventKind::Connected(sink) => sink,
        _ => panic!("expected a connected event"),
    };
    assert!(matches!(
        sink.send(String::from("a\0b")),
        Err(Error::UnsupportedDataFrame)
    ));
    let ok = sink.send(String::from("ab")).unwrap();
    assert_eq!(ok.payload, "ab");
    assert_eq!(ok.inner_id, 11);
}
