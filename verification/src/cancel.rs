//! Futures that end when the shutdown is initiated.
use std::task::Waker;
use vstd::prelude::*;

use crate::poll::Poll;
use crate::shutdown::Shutdown;

verus! {

/// A future that is cancelled if the shutdown is initiated.
///
/// Made by [`Shutdown::cancel_on_shutdown`]. Polling the wrapped future is the caller's part;
/// [`CancelOnShutdown::poll`] is told what came of it.
pub struct CancelOnShutdown<F> {
    /// The wrapped future.
    pub inner: F,
    /// Which shutdown cancels it.
    pub id: Ghost<int>,
}

/// A future that completes when the shutdown is initiated, whatever is pending.
///
/// Made by [`Shutdown::initiated`].
pub struct Initiated {
    /// Which shutdown it waits for.
    pub id: Ghost<int>,
}

impl<F> CancelOnShutdown<F> {
    /// The shutdown that cancels the future.
    pub open spec fn shutdown_id(self) -> int {
        self.id@
    }

    pub(crate) fn new(id: Ghost<int>, inner: F) -> (result: Self)
        ensures
            result.inner == inner,
            result.shutdown_id() == id@,
    {
        CancelOnShutdown { inner, id }
    }

    /// One poll: `polled` is what polling the wrapped future came to.
    ///
    /// A completed future's output is returned in `Some`, initiated shutdown or not. A pending
    /// one comes to `None` if the shutdown has been initiated; else `waker` is registered.
    pub fn poll<T>(
        &self,
        shutdown: &mut Shutdown,
        waker: &Waker,
        polled: Poll<T>,
    ) -> (result: Poll<Option<T>>)
        requires
            self.shutdown_id() == old(shutdown)@.id,
        ensures
            polled matches Poll::Ready(output) ==> result == Poll::Ready(Some(output))
                && final(shutdown)@ == old(shutdown)@,
            polled is Pending && old(shutdown)@.active ==> result == Poll::<Option<T>>::Pending
                && old(shutdown)@.registers(*waker, final(shutdown)@),
            result is Pending ==> final(shutdown)@.awaited_by(*waker),
            polled is Pending && !old(shutdown)@.active ==> result == Poll::Ready(None::<T>)
                && final(shutdown)@ == old(shutdown)@,
    {
        match polled {
            Poll::Ready(output) => Poll::Ready(Some(output)),
            Poll::Pending => {
                if shutdown.is_active() {
                    shutdown.add_waker(waker);
                    Poll::Pending
                } else {
                    Poll::Ready(None)
                }
            },
        }
    }
}

impl Initiated {
    /// The shutdown that it waits for.
    pub open spec fn shutdown_id(self) -> int {
        self.id@
    }

    /// One poll: ready if the shutdown has been initiated; else `waker` is registered.
    pub fn poll(&self, shutdown: &mut Shutdown, waker: &Waker) -> (result: Poll<()>)
        requires
            self.shutdown_id() == old(shutdown)@.id,
        ensures
            old(shutdown)@.active ==> result == Poll::<()>::Pending,
            old(shutdown)@.active ==> old(shutdown)@.registers(*waker, final(shutdown)@),
            result is Pending ==> final(shutdown)@.awaited_by(*waker),
            !old(shutdown)@.active ==> result == Poll::Ready(()),
            !old(shutdown)@.active ==> final(shutdown)@ == old(shutdown)@,
    {
        if shutdown.is_active() {
            shutdown.add_waker(waker);
            Poll::Pending
        } else {
            Poll::Ready(())
        }
    }
}

} // verus!
