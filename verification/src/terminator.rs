//! A shutdown with an escape hatch.
use std::task::Waker;
use vstd::prelude::*;

use crate::poll::Poll;
use crate::shutdown::Shutdown;

verus! {

/// Waits for a shutdown to complete, or for a terminating condition once it has been initiated.
///
/// The output is `true` if the terminator ended the wait, and `false` if all tasks completed
/// normally. The terminator is not to be polled before the shutdown has been initiated:
/// [`WithTerminator::poll`] says when it is, and [`WithTerminator::resume`] is told what came of
/// it.
pub struct WithTerminator<T> {
    /// The terminating condition.
    pub terminator: T,
    /// Which shutdown it waits for.
    pub id: Ghost<int>,
}

/// What a poll of [`WithTerminator`] calls for.
#[derive(Debug, PartialEq, Eq)]
pub enum TerminatorStep {
    /// The poll is over and came to this.
    Return(Poll<bool>),
    /// The terminator is to be polled, and the outcome passed to [`WithTerminator::resume`].
    PollTerminator,
}

impl<T> WithTerminator<T> {
    /// The shutdown that it waits for.
    pub open spec fn shutdown_id(self) -> int {
        self.id@
    }

    /// The first half of a poll: everything but the terminator.
    pub fn poll(&self, shutdown: &mut Shutdown, waker: &Waker) -> (step: TerminatorStep)
        requires
            self.shutdown_id() == old(shutdown)@.id,
        ensures
            old(shutdown)@.complete() ==> step == TerminatorStep::Return(Poll::Ready(false))
                && final(shutdown)@ == old(shutdown)@,
            old(shutdown)@.active ==> step == TerminatorStep::Return(Poll::Pending),
            !old(shutdown)@.active && old(shutdown)@.pending > 0 ==> step
                == TerminatorStep::PollTerminator,
            !old(shutdown)@.complete() ==> old(shutdown)@.registers(*waker, final(shutdown)@),
            step == TerminatorStep::Return(Poll::Ready(false)) <==> !old(shutdown)@.active && old(
                shutdown)@.pending == 0,
            step != TerminatorStep::Return(Poll::Ready(false)) ==> final(shutdown)@.awaited_by(
                *waker,
            ),
    {
        if shutdown.is_shutting_down() {
            if shutdown.is_complete() {
                TerminatorStep::Return(Poll::Ready(false))
            } else {
                shutdown.add_waker(waker);
                TerminatorStep::PollTerminator
            }
        } else {
            shutdown.add_waker(waker);
            TerminatorStep::Return(Poll::Pending)
        }
    }

    /// The second half of a poll, where the first called for it: `polled` is what polling the
    /// terminator came to.
    pub fn resume(&self, polled: Poll<()>) -> (result: Poll<bool>)
        ensures
            polled is Ready ==> result == Poll::Ready(true),
            polled is Pending ==> result == Poll::<bool>::Pending,
    {
        match polled {
            Poll::Ready(_) => Poll::Ready(true),
            Poll::Pending => Poll::Pending,
        }
    }
}

} // verus!
