use sync_channels::slot::{Inner, SendError};
use sync_channels::Async;

#[test]
fn last_value_wins() {
    let mut s: Inner<&str, u32> = Inner::new();
    assert_eq!(s.swap("a"), (Ok(None), None));
    assert_eq!(s.swap("b"), (Ok(Some("a")), None));
    assert_eq!(s.poll_next(1), Async::Ready(Some("b")));
    assert_eq!(s.poll_next(1), Async::NotReady);
}

#[test]
fn end_of_stream_is_stable() {
    let mut s: Inner<u8, u32> = Inner::new();
    assert_eq!(s.close_sender(), None);
    for _ in 0..3 {
        assert_eq!(s.poll_next(1), Async::Ready(None));
    }
}

#[test]
fn value_before_last_sender_leaves_is_delivered_first() {
    let mut s: Inner<u8, u32> = Inner::new();
    assert_eq!(s.swap(3), (Ok(None), None));
    assert_eq!(s.close_sender(), None);
    assert_eq!(s.poll_next(1), Async::Ready(Some(3)));
    assert_eq!(s.poll_next(1), Async::Ready(None));
}

#[test]
fn swap_wakes_parked_consumer() {
    let mut s: Inner<u8, u32> = Inner::new();
    assert_eq!(s.poll_next(8), Async::NotReady);
    assert_eq!(s.task, Some(8));
    assert_eq!(s.swap(1), (Ok(None), Some(8)));
    assert_eq!(s.task, None);
    assert_eq!(s.poll_next(8), Async::Ready(Some(1)));
}

#[test]
fn stream_ends_only_after_every_clone_leaves() {
    let mut s: Inner<u8, u32> = Inner::new();
    s.add_sender();
    assert_eq!(s.senders, 2);
    assert_eq!(s.poll_next(5), Async::NotReady);
    assert_eq!(s.close_sender(), Some(5));
    assert_eq!(s.poll_next(5), Async::NotReady);
    assert_eq!(s.close_sender(), Some(5));
    assert_eq!(s.poll_next(5), Async::Ready(None));
}

#[test]
fn swap_after_receiver_dropped_fails_with_value() {
    let mut s: Inner<String, u32> = Inner::new();
    assert_eq!(s.swap(String::from("old")), (Ok(None), None));
    s.drop_receiver();
    let (r, wake) = s.swap(String::from("new"));
    assert_eq!(wake, None);
    assert_eq!(r, Err(SendError(String::from("new"))));
    assert_eq!(r.unwrap_err().into_inner(), "new");
    assert_eq!(s.value, None);
}
