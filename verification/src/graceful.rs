//! Futures that the shutdown waits for.
use std::task::Waker;
use vstd::prelude::*;

use crate::poll::Poll;
use crate::shutdown::{Draining, Shutdown};

verus! {

/// A task that prevents the shutdown from completing until it has completed.
///
/// Made by [`Shutdown::graceful`]. Polling the task is the caller's part; [`Graceful::poll`] is
/// told what came of it.
pub struct Graceful<F> {
    /// The task.
    pub task: F,
    /// The guard that holds up the shutdown, until the task has completed.
    pub guard: Option<Draining>,
}

impl<F> Graceful<F> {
    /// One poll: `polled` is what polling the task came to, and what this poll comes to.
    ///
    /// With the first poll that is ready the guard is released. The second part of the result is
    /// the wakers to be woken: every registered one if this completes the shutdown, else none.
    #[must_use]
    pub fn poll<T>(&mut self, shutdown: &mut Shutdown, polled: Poll<T>) -> (result: (
        Poll<T>,
        Vec<Waker>,
    ))
        requires
            old(self).guard matches Some(guard) ==> guard.shutdown_id() == old(shutdown)@.id,
        ensures
            result.0 == polled,
            final(self).task == old(self).task,
            polled is Ready ==> final(self).guard is None,
            polled is Pending ==> final(self).guard == old(self).guard,
            polled is Ready && old(self).guard is Some ==> {
                &&& final(shutdown)@ == old(shutdown)@.after_end()
                &&& result.1@ == old(shutdown)@.woken_by_end()
            },
            polled is Pending || old(self).guard is None ==> {
                &&& final(shutdown)@ == old(shutdown)@
                &&& result.1@.len() == 0
            },
    {
        match polled {
            Poll::Ready(output) => {
                let woken = match self.guard.take() {
                    Some(guard) => guard.release(shutdown),
                    None => Vec::new(),
                };
                (Poll::Ready(output), woken)
            },
            Poll::Pending => (Poll::Pending, Vec::new()),
        }
    }
}

} // verus!
