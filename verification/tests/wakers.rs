//! Who is registered and who is woken.
use graceful_shutdown::{wake_all, Poll, Shutdown, MAX_PENDING};
use std::sync::atomic::{AtomicUsize, Ordering};
use std::sync::Arc;
use std::task::{Wake, Waker};

struct Count(AtomicUsize);

impl Wake for Count {
    fn wake(self: Arc<Self>) {
        self.0.fetch_add(1, Ordering::Relaxed);
    }
}

impl Count {
    fn new() -> Arc<Count> {
        Arc::new(Count(AtomicUsize::new(0)))
    }

    fn get(&self) -> usize {
        self.0.load(Ordering::Relaxed)
    }
}

fn wake(wakers: Vec<Waker>) -> usize {
    let n = wakers.len();
    wake_all(wakers);
    n
}

#[test]
fn one_task_is_registered_once() {
    let count = Count::new();
    let waker = Waker::from(count.clone());
    let same = waker.clone();
    let mut shutdown = Shutdown::new();
    assert_eq!(shutdown.poll(&waker), Poll::Pending);
    assert_eq!(shutdown.poll(&same), Poll::Pending);
    assert_eq!(shutdown.poll(&waker), Poll::Pending);
    assert_eq!(wake(shutdown.shutdown()), 1);
    assert_eq!(count.get(), 1);
}

#[test]
fn every_task_is_registered_in_order() {
    let counts = [Count::new(), Count::new(), Count::new()];
    let wakers = [
        Waker::from(counts[0].clone()),
        Waker::from(counts[1].clone()),
        Waker::from(counts[2].clone()),
    ];
    let mut shutdown = Shutdown::new();
    for waker in &wakers {
        assert_eq!(shutdown.poll(waker), Poll::Pending);
    }
    for waker in &wakers {
        assert_eq!(shutdown.poll(waker), Poll::Pending);
    }
    let woken = shutdown.shutdown();
    assert_eq!(woken.len(), 3);
    for i in 0..3 {
        assert!(woken[i].will_wake(&wakers[i]));
        assert_eq!(counts[i].get(), 0);
    }
    assert_eq!(wake(woken), 3);
    for count in &counts {
        assert_eq!(count.get(), 1);
    }
}

#[test]
fn waiter_is_woken_by_the_last_task() {
    let count = Count::new();
    let waker = Waker::from(count.clone());
    let mut shutdown = Shutdown::new();
    let first = shutdown.draining();
    let second = shutdown.draining();
    assert_eq!(wake(shutdown.shutdown()), 0);
    assert_eq!(shutdown.poll(&waker), Poll::Pending);
    assert_eq!(wake(first.release(&mut shutdown)), 0);
    assert_eq!(count.get(), 0);
    assert_eq!(wake(second.release(&mut shutdown)), 1);
    assert_eq!(count.get(), 1);
    assert_eq!(shutdown.poll(&waker), Poll::Ready(()));
}

#[test]
fn woken_waiter_can_register_again() {
    let count = Count::new();
    let waker = Waker::from(count.clone());
    let mut shutdown = Shutdown::new();
    let guard = shutdown.draining();
    assert_eq!(shutdown.poll(&waker), Poll::Pending);
    assert_eq!(wake(shutdown.shutdown()), 1);
    assert_eq!(shutdown.poll(&waker), Poll::Pending);
    assert_eq!(wake(guard.release(&mut shutdown)), 1);
    assert_eq!(count.get(), 2);
}

#[test]
fn ready_poll_registers_nobody() {
    let count = Count::new();
    let waker = Waker::from(count.clone());
    let mut shutdown = Shutdown::new();
    assert_eq!(wake(shutdown.shutdown()), 0);
    assert_eq!(shutdown.poll(&waker), Poll::Ready(()));
    assert_eq!(wake(shutdown.shutdown()), 0);
    assert_eq!(count.get(), 0);
}

#[test]
fn limit_is_half_of_usize() {
    assert_eq!(MAX_PENDING, usize::MAX / 2);
}

#[test]
fn registered_wakers_are_distinct() {
    let wakers = [Waker::from(Count::new()), Waker::from(Count::new())];
    let mut shutdown = Shutdown::new();
    let initiated = shutdown.initiated();
    for waker in [&wakers[0], &wakers[1], &wakers[0].clone(), &wakers[1]] {
        assert_eq!(initiated.poll(&mut shutdown, waker), Poll::Pending);
        assert_eq!(shutdown.poll(waker), Poll::Pending);
    }
    let woken = shutdown.shutdown();
    assert_eq!(woken.len(), 2);
    assert!(!woken[0].will_wake(&woken[1]));
}
