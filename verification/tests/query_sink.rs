use wmi::query_sink::{AsyncQueryResultStreamImpl, Polled};

#[test]
fn sink_hands_out_latest_first_then_ends() {
    let mut buf: AsyncQueryResultStreamImpl<u32, &'static str> = AsyncQueryResultStreamImpl::new();
    assert!(buf.waker().is_none());
    assert!(!buf.extend(vec![1, 2]));
    assert!(!buf.extend(vec![3]));
    assert_eq!(buf.poll_next(Some("task")), Polled::Ready(Some(3)));
    assert_eq!(buf.waker(), Some(&"task"));
    assert_eq!(buf.poll_next(None), Polled::Ready(Some(2)));
    assert_eq!(buf.poll_next(None), Polled::Ready(Some(1)));
    assert_eq!(buf.poll_next(None), Polled::Pending);
    assert!(buf.set_done());
    assert_eq!(buf.poll_next(None), Polled::Ready(None));
    assert_eq!(buf.poll_next(None), Polled::Ready(None));
}

#[test]
fn sink_items_still_come_after_done() {
    let mut buf: AsyncQueryResultStreamImpl<&'static str, u8> = Default::default();
    assert!(!buf.set_done());
    assert_eq!(buf.poll_next(Some(1)), Polled::Ready(None));
    assert!(buf.extend(vec!["late"]));
    assert_eq!(buf.poll_next(Some(2)), Polled::Ready(Some("late")));
    assert_eq!(buf.waker(), Some(&2));
    assert_eq!(buf.poll_next(None), Polled::Ready(None));
}

#[test]
fn sink_wakes_only_after_a_poll() {
    let mut buf: AsyncQueryResultStreamImpl<u8, u8> = AsyncQueryResultStreamImpl::new();
    assert!(!buf.extend(vec![]));
    assert_eq!(buf.poll_next(Some(7)), Polled::Pending);
    assert!(buf.extend(vec![9]));
    assert_eq!(buf.poll_next(None), Polled::Ready(Some(9)));
}
