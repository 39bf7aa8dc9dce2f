//! The shutdown itself and the guard that holds it up.
use std::task::Waker;
use vstd::prelude::*;

use crate::cancel::{CancelOnShutdown, Initiated};
use crate::graceful::Graceful;
use crate::inner::Inner;
use crate::model::Model;
use crate::poll::Poll;
use crate::state::MAX_PENDING;
use crate::stream::{GracefulStream, State};
use crate::terminator::WithTerminator;

verus! {

/// A shutdown that completes once it has been initiated and no tasks are pending.
pub struct Shutdown {
    inner: Inner,
}

/// A guard that prevents the shutdown from completing.
///
/// It stands for one pending task. It is made by [`Shutdown::draining`] or
/// [`Draining::duplicate`] and given back with [`Draining::release`]; until then the shutdown that
/// made it waits for it.
#[must_use]
pub struct Draining {
    id: Ghost<int>,
}

impl View for Shutdown {
    type V = Model;

    closed spec fn view(&self) -> Model {
        self.inner@
    }
}

impl Shutdown {
    /// A new shutdown: not initiated, with no pending tasks.
    pub fn new() -> (shutdown: Shutdown)
        ensures
            shutdown@ == Model::initial(shutdown@.id),
    {
        Shutdown { inner: Inner::new() }
    }

    /// Adds an early termination condition. See [`WithTerminator`].
    pub fn with_terminator<T>(&self, terminator: T) -> (result: WithTerminator<T>)
        ensures
            result.terminator == terminator,
            result.shutdown_id() == self@.id,
    {
        WithTerminator { terminator, id: Ghost(self@.id) }
    }

    /// Initiates the shutdown and hands out every registered waker, to be woken by the caller.
    #[must_use]
    pub fn shutdown(&mut self) -> (woken: Vec<Waker>)
        ensures
            final(self)@ == old(self)@.after_shutdown(),
            woken@ == old(self)@.wakers,
    {
        self.inner.shutdown()
    }

    /// One poll of a future that initiates the shutdown once `f` has completed.
    ///
    /// `f` is what polling the wrapped future came to, and what the poll comes to. The second
    /// part of the result is the wakers to be woken.
    #[must_use]
    pub fn shutdown_after<T>(&mut self, f: Poll<T>) -> (result: (Poll<T>, Vec<Waker>))
        ensures
            result.0 == f,
            f is Ready ==> final(self)@ == old(self)@.after_shutdown(),
            f is Ready ==> result.1@ == old(self)@.wakers,
            f is Pending ==> final(self)@ == old(self)@ && result.1@.len() == 0,
    {
        match f {
            Poll::Ready(output) => {
                let woken = self.shutdown();
                (Poll::Ready(output), woken)
            },
            Poll::Pending => (Poll::Pending, Vec::new()),
        }
    }

    /// Returns true if the shutdown has been initiated.
    pub fn is_shutting_down(&self) -> (result: bool)
        ensures
            result == !self@.active,
    {
        self.inner.is_shutting_down()
    }

    /// Returns true if the shutdown has not yet been initiated.
    pub fn is_active(&self) -> (result: bool)
        ensures
            result == self@.active,
    {
        !self.is_shutting_down()
    }

    /// Returns how many tasks are pending, at most [`MAX_PENDING`].
    pub fn num_pending(&self) -> (result: usize)
        ensures
            result == self@.pending,
            result <= MAX_PENDING,
    {
        self.inner.num_pending()
    }

    /// Starts a task that the shutdown waits for. See [`Graceful`].
    ///
    /// No more than [`MAX_PENDING`] tasks can be pending.
    pub fn graceful<F>(&mut self, task: F) -> (result: Graceful<F>)
        requires
            old(self)@.has_room(),
        ensures
            final(self)@ == old(self)@.after_start(),
            result.task == task,
            result.guard matches Some(guard) && guard.shutdown_id() == old(self)@.id,
    {
        let guard = self.draining();
        Graceful { task, guard: Some(guard) }
    }

    /// Wraps a future so that it is cancelled if the shutdown is initiated. See
    /// [`CancelOnShutdown`].
    pub fn cancel_on_shutdown<F>(&self, future: F) -> (result: CancelOnShutdown<F>)
        ensures
            result.inner == future,
            result.shutdown_id() == self@.id,
    {
        CancelOnShutdown::new(Ghost(self@.id), future)
    }

    /// A future that waits only until the shutdown has been initiated. See [`Initiated`].
    pub fn initiated(&self) -> (result: Initiated)
        ensures
            result.shutdown_id() == self@.id,
    {
        Initiated { id: Ghost(self@.id) }
    }

    /// Wraps a stream so that it stops producing items once the shutdown is initiated. See
    /// [`GracefulStream`].
    pub fn graceful_stream<S>(&self, stream: S) -> (result: GracefulStream<S>)
        ensures
            result.state == (State::Running { id: Ghost(self@.id), stream }),
    {
        GracefulStream::new(Ghost(self@.id), stream)
    }

    /// Returns a guard that prevents the shutdown from completing.
    ///
    /// No more than [`MAX_PENDING`] tasks can be pending.
    pub fn draining(&mut self) -> (guard: Draining)
        requires
            old(self)@.has_room(),
        ensures
            final(self)@ == old(self)@.after_start(),
            guard.shutdown_id() == old(self)@.id,
    {
        self.start_task();
        Draining { id: Ghost(self@.id) }
    }

    /// One poll of the future that completes with the shutdown: ready once the shutdown has been
    /// initiated and no tasks are pending; else `waker` is registered.
    pub fn poll(&mut self, waker: &Waker) -> (result: Poll<()>)
        ensures
            old(self)@.complete() ==> result == Poll::Ready(()) && final(self)@ == old(self)@,
            !old(self)@.complete() ==> result == Poll::<()>::Pending,
            !old(self)@.complete() ==> old(self)@.registers(*waker, final(self)@),
            result is Ready <==> !old(self)@.active && old(self)@.pending == 0,
            result is Pending ==> final(self)@.awaited_by(*waker),
    {
        if self.is_complete() {
            Poll::Ready(())
        } else {
            self.add_waker(waker);
            Poll::Pending
        }
    }

    /// No more tasks are pending than the limit allows.
    pub proof fn lemma_pending_within_limit(&self)
        ensures
            self@.pending <= MAX_PENDING,
    {
        self.inner.lemma_pending_within_limit();
    }

    pub(crate) fn is_complete(&self) -> (result: bool)
        ensures
            result == self@.complete(),
    {
        self.inner.is_complete()
    }

    pub(crate) fn start_task(&mut self)
        requires
            old(self)@.has_room(),
        ensures
            final(self)@ == old(self)@.after_start(),
    {
        self.inner.start_task();
    }

    pub(crate) fn end_task(&mut self) -> (woken: Vec<Waker>)
        ensures
            final(self)@ == old(self)@.after_end(),
            woken@ == old(self)@.woken_by_end(),
    {
        self.inner.end_task()
    }

    pub(crate) fn add_waker(&mut self, waker: &Waker)
        ensures
            old(self)@.registers(*waker, final(self)@),
            final(self)@.awaited_by(*waker),
    {
        self.inner.add_waker(waker);
    }
}

impl Default for Shutdown {
    fn default() -> (shutdown: Shutdown)
        ensures
            shutdown@ == Model::initial(shutdown@.id),
    {
        Shutdown::new()
    }
}

impl Draining {
    /// The shutdown that the guard holds up.
    pub closed spec fn shutdown_id(self) -> int {
        self.id@
    }

    /// A second guard for the same shutdown, which waits for both.
    pub fn duplicate(&self, shutdown: &mut Shutdown) -> (guard: Draining)
        requires
            self.shutdown_id() == old(shutdown)@.id,
            old(shutdown)@.has_room(),
        ensures
            final(shutdown)@ == old(shutdown)@.after_start(),
            guard.shutdown_id() == self.shutdown_id(),
    {
        shutdown.draining()
    }

    /// Gives the guard back and hands out the wakers to be woken: every registered one if this
    /// completes the shutdown, else none.
    #[must_use]
    pub fn release(self, shutdown: &mut Shutdown) -> (woken: Vec<Waker>)
        requires
            self.shutdown_id() == old(shutdown)@.id,
        ensures
            final(shutdown)@ == old(shutdown)@.after_end(),
            woken@ == old(shutdown)@.woken_by_end(),
    {
        shutdown.end_task()
    }
}

} // verus!
