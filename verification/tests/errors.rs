use swmon::errors::ErrorQueue;

#[test]
fn new_queue_is_empty() {
    let queue = ErrorQueue::new();
    assert!(queue.is_empty());
    assert_eq!(queue.len(), 0);
    assert_eq!(queue.head(), None);
}

#[test]
fn messages_leave_in_the_order_they_came() {
    let mut queue = ErrorQueue::new();
    queue.push("first".to_string());
    queue.push("second".to_string());
    queue.push("third".to_string());
    assert_eq!(queue.len(), 3);
    assert_eq!(queue.head(), Some(&"first".to_string()));
    assert_eq!(queue.acknowledge(), Some("first".to_string()));
    assert_eq!(queue.head(), Some(&"second".to_string()));
    assert_eq!(queue.acknowledge(), Some("second".to_string()));
    queue.push("fourth".to_string());
    assert_eq!(queue.acknowledge(), Some("third".to_string()));
    assert_eq!(queue.acknowledge(), Some("fourth".to_string()));
    assert!(queue.is_empty());
}

#[test]
fn head_does_not_remove() {
    let mut queue = ErrorQueue::new();
    queue.push("only".to_string());
    assert_eq!(queue.head(), Some(&"only".to_string()));
    assert_eq!(queue.head(), Some(&"only".to_string()));
    assert_eq!(queue.len(), 1);
}

#[test]
fn acknowledge_on_empty_queue_does_nothing() {
    let mut queue = ErrorQueue::new();
    assert_eq!(queue.acknowledge(), None);
    assert!(queue.is_empty());
}
