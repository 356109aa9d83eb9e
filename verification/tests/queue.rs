use ws_bridge::error::Error;
use ws_bridge::queue::SendQueue;

#[test]
fn sends_are_delivered_in_call_order() {
    let mut q = SendQueue::new(8);
    assert!(q.send(String::from("first")).is_ok());
    assert!(q.send(String::from("second")).is_ok());
    assert!(q.send(String::from("third")).is_ok());
    assert_eq!(q.recv().unwrap(), "first");
    assert_eq!(q.recv().unwrap(), "second");
    assert_eq!(q.recv().unwrap(), "third");
    assert!(q.recv().is_none());
}

#[test]
fn full_queue_rejects_until_one_entry_is_drained() {
    let mut q = SendQueue::new(2);
    assert!(q.send(String::from("a")).is_ok());
    assert!(q.send(String::from("b")).is_ok());
    match q.send(String::from("c")) {
        Err(Error::SendQueueFull(msg)) => assert_eq!(msg, "c"),
        _ => panic!("a full queue must hand the message back"),
    }
    assert_eq!(q.recv().unwrap(), "a");
    assert!(q.send(String::from("c")).is_ok());
    assert_eq!(q.recv().unwrap(), "b");
    assert_eq!(q.recv().unwrap(), "c");
}

#[test]
fn send_after_close_fails_with_already_closed() {
    let mut q = SendQueue::new(2);
    assert!(q.send(String::from("a")).is_ok());
    q.close();
    assert!(matches!(
        q.send(String::from("b")),
        Err(Error::AlreadyClosed)
    ));
    assert!(matches!(
        q.send(String::from("c")),
        Err(Error::AlreadyClosed)
    ));
}

#[test]
fn queue_length_tracks_pending_messages() {
    let mut q = SendQueue::new(3);
    assert_eq!(q.len(), 0);
    let _ = q.send(String::from("a"));
    let _ = q.send(String::from("b"));
    assert_eq!(q.len(), 2);
    let _ = q.recv();
    assert_eq!(q.len(), 1);
}
