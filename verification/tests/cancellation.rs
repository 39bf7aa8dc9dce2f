//! Futures and streams that end when the shutdown is initiated.
use futures_task::noop_waker_ref;
use graceful_shutdown::{Poll, Shutdown, State};

#[test]
fn cancelled_only_while_pending() {
    let waker = noop_waker_ref();
    let mut shutdown = Shutdown::new();
    let future = shutdown.cancel_on_shutdown("future");
    assert_eq!(future.inner, "future");

    assert_eq!(future.poll(&mut shutdown, waker, Poll::<u8>::Pending), Poll::Pending);
    assert_eq!(future.poll(&mut shutdown, waker, Poll::Ready(1)), Poll::Ready(Some(1)));

    // The registered waker is handed out by the shutdown.
    assert_eq!(shutdown.shutdown().len(), 1);
    assert_eq!(future.poll(&mut shutdown, waker, Poll::Ready(2)), Poll::Ready(Some(2)));
    assert_eq!(future.poll(&mut shutdown, waker, Poll::<u8>::Pending), Poll::Ready(None));
    assert!(shutdown.shutdown().is_empty());
}

#[test]
fn initiated_does_not_wait_for_tasks() {
    let waker = noop_waker_ref();
    let mut shutdown = Shutdown::new();
    let _guard = shutdown.draining();
    let initiated = shutdown.initiated();
    assert_eq!(initiated.poll(&mut shutdown, waker), Poll::Pending);
    assert_eq!(shutdown.shutdown().len(), 1);
    assert_eq!(initiated.poll(&mut shutdown, waker), Poll::Ready(()));
    assert_eq!(shutdown.num_pending(), 1);
}

#[test]
fn stream_ends_when_pending_and_shutting_down() {
    let waker = noop_waker_ref();
    let mut shutdown = Shutdown::new();
    let mut stream = shutdown.graceful_stream(vec![1, 2]);
    assert!(!stream.is_terminated());
    assert_eq!(stream.size_hint((2, Some(2))), (2, Some(2)));
    assert_eq!(stream.size_hint((5, None)), (5, None));

    let item = stream.poll_next(&mut shutdown, waker, Poll::Ready(Some(1)));
    assert_eq!(item, Poll::Ready(Some(1)));
    assert_eq!(stream.poll_next(&mut shutdown, waker, Poll::<Option<i32>>::Pending), Poll::Pending);
    assert_eq!(shutdown.shutdown().len(), 1);

    // Items that are there still come.
    let item = stream.poll_next(&mut shutdown, waker, Poll::Ready(Some(2)));
    assert_eq!(item, Poll::Ready(Some(2)));
    assert!(!stream.is_terminated());

    let item = stream.poll_next(&mut shutdown, waker, Poll::<Option<i32>>::Pending);
    assert_eq!(item, Poll::Ready(None));
    assert!(stream.is_terminated());
    assert!(matches!(stream.state, State::Done));
    assert_eq!(stream.size_hint((5, None)), (0, Some(0)));

    // Nothing brings it back.
    let item = stream.poll_next(&mut shutdown, waker, Poll::Ready(Some(3)));
    assert_eq!(item, Poll::Ready(None));
}

#[test]
fn stream_ends_with_the_wrapped_stream() {
    let waker = noop_waker_ref();
    let mut shutdown = Shutdown::new();
    let mut stream = shutdown.graceful_stream(());
    let item = stream.poll_next(&mut shutdown, waker, Poll::Ready(None::<u8>));
    assert_eq!(item, Poll::Ready(None));
    assert!(stream.is_terminated());
    assert!(shutdown.is_active());
    assert!(shutdown.shutdown().is_empty());
}

#[test]
fn stream_of_an_active_shutdown_is_the_wrapped_stream() {
    let waker = noop_waker_ref();
    let mut shutdown = Shutdown::new();
    let mut stream = shutdown.graceful_stream(());
    let wrapped = [Some(Some(1)), None, Some(Some(2)), None, Some(None)];
    for step in wrapped {
        let polled = || match step {
            Some(item) => Poll::Ready(item),
            None => Poll::Pending,
        };
        assert!(!stream.is_terminated());
        assert_eq!(stream.poll_next(&mut shutdown, waker, polled()), polled());
    }
    for _ in 0..3 {
        assert!(stream.is_terminated());
        let item = stream.poll_next(&mut shutdown, waker, Poll::Ready(Some(9)));
        assert_eq!(item, Poll::Ready(None));
    }
}
