//! Whole runs of a shutdown and its companions.
use futures_task::noop_waker_ref;
use graceful_shutdown::{wake_all, Poll, Shutdown, TerminatorStep};
use std::future::Future;
use std::pin::Pin;
use std::task::Context;
use tokio::sync;

#[test]
fn basic_flow() {
    let cx = Context::from_waker(noop_waker_ref());
    let mut shutdown = Shutdown::new();

    assert!(shutdown.is_active());
    assert!(!shutdown.is_shutting_down());

    {
        let drain = shutdown.draining();
        wake_all(shutdown.shutdown());
        assert!(shutdown.is_shutting_down());
        assert!(!shutdown.is_active());
        assert_eq!(Poll::Pending, shutdown.poll(cx.waker()));
        wake_all(drain.release(&mut shutdown));
    }
    assert_eq!(shutdown.poll(cx.waker()), Poll::Ready(()));
}

#[test]
fn terminator() {
    let mut cx = Context::from_waker(noop_waker_ref());
    let (tx, rx) = sync::oneshot::channel();

    let mut shutdown = Shutdown::new();
    let _drain = shutdown.draining();

    let mut terminated = shutdown.with_terminator(rx);

    assert!(shutdown.is_active());
    wake_all(shutdown.shutdown());
    assert!(shutdown.is_shutting_down());
    assert_eq!(shutdown.num_pending(), 1);
    tx.send(()).unwrap();

    let step = terminated.poll(&mut shutdown, cx.waker());
    assert_eq!(step, TerminatorStep::PollTerminator);
    let polled = match Pin::new(&mut terminated.terminator).poll(&mut cx) {
        std::task::Poll::Ready(received) => Poll::Ready(received.unwrap()),
        std::task::Poll::Pending => Poll::Pending,
    };
    assert_eq!(terminated.resume(polled), Poll::Ready(true));
}

#[test]
fn terminator_waits_for_the_shutdown() {
    let cx = Context::from_waker(noop_waker_ref());
    let mut shutdown = Shutdown::new();
    let drain = shutdown.draining();
    let terminated = shutdown.with_terminator("never");
    assert_eq!(terminated.terminator, "never");

    // Not initiated: the terminator is left alone.
    let step = terminated.poll(&mut shutdown, cx.waker());
    assert_eq!(step, TerminatorStep::Return(Poll::Pending));

    // Initiated with a task pending: the terminator decides.
    assert_eq!(shutdown.shutdown().len(), 1);
    let step = terminated.poll(&mut shutdown, cx.waker());
    assert_eq!(step, TerminatorStep::PollTerminator);
    assert_eq!(terminated.resume(Poll::Pending), Poll::Pending);

    // All tasks completed normally.
    assert_eq!(drain.release(&mut shutdown).len(), 1);
    let step = terminated.poll(&mut shutdown, cx.waker());
    assert_eq!(step, TerminatorStep::Return(Poll::Ready(false)));
}

#[test]
fn graceful_task_holds_up_the_shutdown() {
    let cx = Context::from_waker(noop_waker_ref());
    let mut shutdown = Shutdown::new();
    let mut task = shutdown.graceful("task");
    assert_eq!(task.task, "task");
    assert_eq!(shutdown.num_pending(), 1);

    assert!(shutdown.shutdown().is_empty());
    assert_eq!(shutdown.poll(cx.waker()), Poll::Pending);

    let (polled, woken) = task.poll(&mut shutdown, Poll::<u32>::Pending);
    assert_eq!(polled, Poll::Pending);
    assert!(woken.is_empty());
    assert_eq!(shutdown.num_pending(), 1);

    let (polled, woken) = task.poll(&mut shutdown, Poll::Ready(7));
    assert_eq!(polled, Poll::Ready(7));
    assert_eq!(woken.len(), 1);
    assert_eq!(shutdown.num_pending(), 0);
    assert_eq!(shutdown.poll(cx.waker()), Poll::Ready(()));
}

#[test]
fn graceful_task_ends_before_the_shutdown() {
    let cx = Context::from_waker(noop_waker_ref());
    let mut shutdown = Shutdown::new();
    let mut first = shutdown.graceful(());
    let mut second = shutdown.graceful(());
    assert_eq!(shutdown.poll(cx.waker()), Poll::Pending);
    assert_eq!(shutdown.num_pending(), 2);

    // Nobody is woken by a task that ends while the shutdown is active.
    assert!(first.poll(&mut shutdown, Poll::Ready(())).1.is_empty());
    assert!(second.poll(&mut shutdown, Poll::Ready(())).1.is_empty());
    assert_eq!(shutdown.num_pending(), 0);
    assert_eq!(shutdown.poll(cx.waker()), Poll::Pending);
    assert_eq!(shutdown.shutdown().len(), 1);
    assert_eq!(shutdown.poll(cx.waker()), Poll::Ready(()));
}

#[test]
fn shutdown_after_a_future() {
    let cx = Context::from_waker(noop_waker_ref());
    let mut shutdown = Shutdown::default();
    assert_eq!(shutdown.poll(cx.waker()), Poll::Pending);

    let (polled, woken) = shutdown.shutdown_after(Poll::<&str>::Pending);
    assert_eq!(polled, Poll::Pending);
    assert!(woken.is_empty());
    assert!(shutdown.is_active());

    let (polled, woken) = shutdown.shutdown_after(Poll::Ready("interrupt"));
    assert_eq!(polled, Poll::Ready("interrupt"));
    assert_eq!(woken.len(), 1);
    assert!(shutdown.is_shutting_down());
}

#[test]
fn every_guard_has_to_be_released() {
    let cx = Context::from_waker(noop_waker_ref());
    let mut shutdown = Shutdown::new();
    let guard = shutdown.draining();
    let copy = guard.duplicate(&mut shutdown);
    assert_eq!(shutdown.num_pending(), 2);
    wake_all(shutdown.shutdown());
    assert_eq!(shutdown.num_pending(), 2);

    assert_eq!(shutdown.poll(cx.waker()), Poll::Pending);
    assert!(guard.release(&mut shutdown).is_empty());
    assert_eq!(shutdown.poll(cx.waker()), Poll::Pending);
    assert_eq!(copy.release(&mut shutdown).len(), 1);
    assert_eq!(shutdown.poll(cx.waker()), Poll::Ready(()));
}

#[test]
fn guard_taken_and_released_leaves_no_trace() {
    let mut shutdown = Shutdown::new();
    let guard = shutdown.draining();
    assert!(guard.release(&mut shutdown).is_empty());
    assert!(shutdown.is_active());
    assert_eq!(shutdown.num_pending(), 0);
}

#[test]
fn guard_taken_from_a_complete_shutdown_reopens_it() {
    let cx = Context::from_waker(noop_waker_ref());
    let mut shutdown = Shutdown::new();
    wake_all(shutdown.shutdown());
    assert_eq!(shutdown.poll(cx.waker()), Poll::Ready(()));
    let guard = shutdown.draining();
    assert_eq!(shutdown.poll(cx.waker()), Poll::Pending);
    assert_eq!(guard.release(&mut shutdown).len(), 1);
    assert_eq!(shutdown.poll(cx.waker()), Poll::Ready(()));
}

#[test]
fn shutdown_is_idempotent() {
    let mut shutdown = Shutdown::new();
    let _guard = shutdown.draining();
    wake_all(shutdown.shutdown());
    wake_all(shutdown.shutdown());
    assert!(shutdown.is_shutting_down());
    assert_eq!(shutdown.num_pending(), 1);
}

#[test]
fn completed_task_ends_once() {
    let cx = Context::from_waker(noop_waker_ref());
    let mut shutdown = Shutdown::new();
    let mut task = shutdown.graceful(());
    let guard = shutdown.draining();
    wake_all(shutdown.shutdown());

    assert!(task.guard.is_some());
    assert!(task.poll(&mut shutdown, Poll::Ready(())).1.is_empty());
    assert!(task.guard.is_none());
    assert_eq!(shutdown.num_pending(), 1);

    // The guard holds up the shutdown whatever becomes of the completed task.
    assert_eq!(shutdown.poll(cx.waker()), Poll::Pending);
    let (polled, woken) = task.poll(&mut shutdown, Poll::Ready(()));
    assert_eq!(polled, Poll::Ready(()));
    assert!(woken.is_empty());
    assert_eq!(shutdown.num_pending(), 1);
    assert_eq!(shutdown.poll(cx.waker()), Poll::Pending);

    assert_eq!(guard.release(&mut shutdown).len(), 1);
    assert!(task.poll(&mut shutdown, Poll::Ready(())).1.is_empty());
    assert!(shutdown.is_shutting_down());
    assert_eq!(shutdown.num_pending(), 0);
    assert_eq!(shutdown.poll(cx.waker()), Poll::Ready(()));
}
