use sync_channels::oneshot::{Canceled, Inner};
use sync_channels::Async;

#[test]
fn send_then_drop_yields_value_once() {
    for v in [0i64, 1, -7, i64::MAX] {
        let mut s: Inner<i64, u32> = Inner::new();
        assert_eq!(s.send(v), Ok(()));
        assert_eq!(s.drop_tx(), None);
        assert_eq!(s.recv(1), Ok(Async::Ready(v)));
        assert_eq!(s.recv(1), Err(Canceled));
    }
}

#[test]
fn drop_without_send_is_canceled() {
    let mut s: Inner<String, u32> = Inner::new();
    assert_eq!(s.drop_tx(), None);
    assert_eq!(s.recv(1), Err(Canceled));
    assert_eq!(s.recv(2), Err(Canceled));
}

#[test]
fn send_after_consumer_dropped_returns_value() {
    let mut s: Inner<String, u32> = Inner::new();
    assert_eq!(s.drop_rx(), None);
    assert!(s.is_canceled());
    assert_eq!(s.send(String::from("payload")), Err(String::from("payload")));
    assert_eq!(s.data, None);
}

#[test]
fn send_after_close_returns_value() {
    let mut s: Inner<u8, u32> = Inner::new();
    assert_eq!(s.close_rx(), None);
    assert_eq!(s.send(9), Err(9));
    assert_eq!(s.drop_tx(), None);
    assert_eq!(s.recv(3), Err(Canceled));
}

#[test]
fn value_sent_before_close_is_still_received() {
    let mut s: Inner<u8, u32> = Inner::new();
    assert_eq!(s.send(5), Ok(()));
    assert_eq!(s.close_rx(), None);
    assert_eq!(s.recv(3), Ok(Async::Ready(5)));
}

#[test]
fn polls_before_drop_are_not_ready_then_value() {
    let mut s: Inner<i32, u32> = Inner::new();
    assert_eq!(s.send(42), Ok(()));
    assert_eq!(s.recv(7), Ok(Async::NotReady));
    assert_eq!(s.recv(7), Ok(Async::NotReady));
    assert_eq!(s.rx_task, Some(7));
    assert_eq!(s.drop_tx(), Some(7));
    assert_eq!(s.recv(7), Ok(Async::Ready(42)));
}

#[test]
fn parked_consumer_is_handed_back_on_completion() {
    for round in 0u32..50 {
        let mut s: Inner<u32, u32> = Inner::new();
        assert_eq!(s.recv(round), Ok(Async::NotReady));
        if round % 2 == 0 {
            assert_eq!(s.send(round), Ok(()));
        }
        assert_eq!(s.poll_cancel(1000 + round), Async::NotReady);
        assert_eq!(s.drop_tx(), Some(round));
        let expected = if round % 2 == 0 { Ok(Async::Ready(round)) } else { Err(Canceled) };
        assert_eq!(s.recv(round), expected);
    }
}

#[test]
fn poll_cancel_parks_producer_until_consumer_leaves() {
    let mut s: Inner<u8, u32> = Inner::new();
    assert!(!s.is_canceled());
    assert_eq!(s.poll_cancel(4), Async::NotReady);
    assert_eq!(s.tx_task, Some(4));
    assert_eq!(s.drop_rx(), Some(4));
    assert_eq!(s.poll_cancel(4), Async::Ready(()));
    assert!(s.is_canceled());
}

#[test]
fn consumer_drop_discards_its_parked_task() {
    let mut s: Inner<u8, u32> = Inner::new();
    assert_eq!(s.recv(2), Ok(Async::NotReady));
    assert_eq!(s.drop_rx(), None);
    assert_eq!(s.rx_task, None);
    assert_eq!(s.drop_tx(), None);
}

#[test]
fn canceled_message() {
    assert_eq!(Canceled.message(), "oneshot canceled");
}

#[test]
fn second_send_is_refused_before_completion() {
    let mut s: Inner<u8, u32> = Inner::new();
    assert!(s.may_send());
    assert_eq!(s.send(1), Ok(()));
    assert!(!s.may_send());
    assert_eq!(s.drop_tx(), None);
    assert!(s.may_send());
    assert_eq!(s.send(2), Err(2));
}
