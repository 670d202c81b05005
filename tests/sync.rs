use portal::sync::{BorrowingOneshotReceiver, Delivery, OperationHandle};

#[test]
fn one_shot_value_is_kept_after_delivery() {
    let (sender, receiver) = oneshot::channel::<String>();
    let mut receiver = BorrowingOneshotReceiver::new(receiver);
    assert_eq!(receiver.value(), None);
    assert_eq!(receiver.value(), None);
    sender.send("relay".to_owned()).unwrap();
    assert_eq!(receiver.value().map(String::as_str), Some("relay"));
    assert_eq!(receiver.value().map(String::as_str), Some("relay"));
}

#[test]
fn one_shot_without_sender_never_yields() {
    let (sender, receiver) = oneshot::channel::<u32>();
    let mut receiver = BorrowingOneshotReceiver::new(receiver);
    drop(sender);
    assert_eq!(receiver.value(), None);
    assert_eq!(receiver.value(), None);
}

#[test]
fn operation_handle_reports_each_state() {
    let (sender, receiver) = oneshot::channel::<u32>();
    let handle = OperationHandle::new(receiver);
    assert!(matches!(handle.poll(), Delivery::Pending));
    sender.send(5).unwrap();
    assert!(matches!(handle.poll(), Delivery::Ready(5)));
    assert!(matches!(handle.poll(), Delivery::Disconnected));

    let (sender, receiver) = oneshot::channel::<u32>();
    let handle = OperationHandle::new(receiver);
    drop(sender);
    assert!(matches!(handle.poll(), Delivery::Disconnected));
}
