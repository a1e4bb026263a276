use toy_runtime::msg_queue::Mq;

#[test]
fn new_queue_is_empty() {
    let mut q: Mq<i32> = Mq::new();
    assert!(q.is_empty());
    assert_eq!(q.len(), 0);
    assert_eq!(q.recv(), None);
    assert!(q.is_empty());
}

#[test]
fn messages_come_out_in_send_order() {
    let mut q = Mq::new();
    for i in 0..50 {
        q.send(i);
    }
    assert_eq!(q.len(), 50);
    for i in 0..50 {
        assert_eq!(q.recv(), Some(i));
    }
    assert_eq!(q.recv(), None);
}

#[test]
fn interleaved_sends_and_receives() {
    let mut q = Mq::new();
    q.send("a");
    q.send("b");
    assert_eq!(q.recv(), Some("a"));
    q.send("c");
    assert_eq!(q.len(), 2);
    assert_eq!(q.recv(), Some("b"));
    assert_eq!(q.recv(), Some("c"));
    assert_eq!(q.recv(), None);
    assert!(q.is_empty());
}
