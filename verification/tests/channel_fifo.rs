use afterglow::channel::Channel;
use afterglow::channel::Recv;

#[test]
fn send_receive_in_arrival_order() {
    let mut c: Channel<u32> = Channel::new();
    assert!(c.send(1));
    assert!(c.send(2));
    assert!(c.send(3));
    assert_eq!(c.len(), 3);
    match c.try_recv() {
        Recv::Item(v) => assert_eq!(v, 1),
        _ => panic!("expected the oldest item"),
    }
    match c.try_recv() {
        Recv::Item(v) => assert_eq!(v, 2),
        _ => panic!("expected the second item"),
    }
    match c.try_recv() {
        Recv::Item(v) => assert_eq!(v, 3),
        _ => panic!("expected the third item"),
    }
    assert!(matches!(c.try_recv(), Recv::Empty));
}

#[test]
fn send_fails_silently_after_receiver_close() {
    let mut c: Channel<u32> = Channel::new();
    c.close();
    assert!(!c.send(7));
    assert_eq!(c.len(), 0);
    assert!(matches!(c.try_recv(), Recv::Disconnected));
}

#[test]
fn drain_then_disconnected() {
    let mut c: Channel<u32> = Channel::new();
    assert!(c.send(5));
    c.disconnect();
    assert!(!c.send(6));
    match c.try_recv() {
        Recv::Item(v) => assert_eq!(v, 5),
        _ => panic!("the buffered item is still delivered"),
    }
    assert!(matches!(c.try_recv(), Recv::Disconnected));
}

#[test]
fn close_discards_queued_items() {
    let mut c: Channel<u32> = Channel::new();
    assert!(c.send(1));
    assert!(c.send(2));
    c.close();
    assert_eq!(c.len(), 0);
    assert!(matches!(c.try_recv(), Recv::Disconnected));
}
