use kernel::ikc::{AppRequest, RxRequest, TxBuf, TxRequest, UNOWNED_CLIENT};

#[test]
fn transmit_a_constant_buffer() {
    let mut tx = TxRequest::new_with_const_ref(vec![1u8, 2, 3]);
    assert_eq!(tx.requested_length(), 3);
    assert!(tx.has_some());
    assert!(!tx.has_room());
    assert_eq!(tx.room_available(), 0);
    assert_eq!(tx.pop(), Some(1));
    assert_eq!(tx.pop(), Some(2));
    assert_eq!(tx.remaining_request(), 1);
    assert!(tx.has_request_remaining());
    assert_eq!(tx.pop(), Some(3));
    assert!(tx.request_completed());
    assert!(!tx.has_some());
}

#[test]
fn push_then_pop_gives_the_elements_back() {
    let mut tx = TxRequest::new_with_mut_ref(vec![0u8; 4]);
    assert!(tx.has_room());
    assert_eq!(tx.room_available(), 4);
    tx.push(7);
    tx.push(8);
    assert_eq!(tx.requested_length(), 2);
    assert_eq!(tx.room_available(), 2);
    assert_eq!(tx.pop(), Some(7));
    assert_eq!(tx.pop(), Some(8));
    assert!(tx.request_completed());
}

#[test]
fn reset_and_request_lengths() {
    let mut tx = TxRequest::new_with_const_ref(vec![1u8, 2, 3]);
    tx.pop();
    tx.reset();
    assert_eq!(tx.requested_length(), 3);
    assert_eq!(tx.remaining_request(), 3);
    tx.set_request_len(10);
    assert_eq!(tx.requested_length(), 3);
    tx.set_request_len(2);
    assert_eq!(tx.requested_length(), 2);
    let tx = TxRequest::new_with_ref_set_len(TxBuf::CONST(vec![5u8, 6, 7]), 2);
    assert_eq!(tx.requested_length(), 2);
    let empty: TxRequest<u8> = TxRequest::new();
    assert!(!empty.has_some());
    assert_eq!(UNOWNED_CLIENT, 0xFF);
}

#[test]
fn copy_from_an_application_request() {
    let mut app = AppRequest::new(Some(vec![10u8, 11, 12, 13, 14]));
    app.set_len(5);
    assert_eq!(app.len(), 5);
    let mut tx = TxRequest::new_with_mut_ref(vec![0u8; 3]);
    tx.copy_from_app_request(&mut app);
    assert_eq!(tx.requested_length(), 3);
    assert_eq!(app.remaining, 2);
    assert_eq!(tx.pop(), Some(10));
    assert_eq!(tx.pop(), Some(11));
    assert_eq!(tx.pop(), Some(12));
    tx.copy_from_app_request(&mut app);
    assert_eq!(tx.requested_length(), 2);
    assert_eq!(app.remaining, 0);
    assert_eq!(tx.pop(), Some(13));
    assert_eq!(tx.pop(), Some(14));
}

#[test]
fn receive_requests() {
    let mut rx = RxRequest::new_with_mut_ref(vec![0u8; 2]);
    assert_eq!(rx.requested_length(), 2);
    assert!(rx.has_room());
    rx.push(4);
    assert_eq!(rx.items_pushed(), 1);
    assert_eq!(rx.request_remaining(), 1);
    rx.push(5);
    assert!(rx.request_completed());
    assert!(!rx.has_room());
    assert_eq!(rx.pop(), Some(4));
    assert_eq!(rx.pop(), Some(5));
    rx.reset();
    assert_eq!(rx.items_pushed(), 0);
}
