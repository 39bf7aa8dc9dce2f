//! Streams that end when the shutdown is initiated.
use std::task::Waker;
use vstd::prelude::*;

use crate::model::Model;
use crate::poll::Poll;
use crate::shutdown::Shutdown;

verus! {

/// A stream that stops producing items after the shutdown has been initiated.
///
/// Made by [`Shutdown::graceful_stream`]. Polling the wrapped stream is the caller's part, while
/// there is one; [`GracefulStream::poll_next`] is told what came of it.
pub struct GracefulStream<S> {
    /// Whether the stream goes on.
    pub state: State<S>,
}

/// The two states of a [`GracefulStream`].
pub enum State<S> {
    /// The wrapped stream may produce more items.
    Running {
        /// Which shutdown ends it.
        id: Ghost<int>,
        /// The wrapped stream.
        stream: S,
    },
    /// The stream has ended, and the wrapped stream is gone.
    Done,
}

impl<S> GracefulStream<S> {
    /// A poll that finds `model`, and `polled` from the wrapped stream, leaves the stream ended:
    /// it had ended before, the wrapped stream ends now, or it has nothing to give while the
    /// shutdown has been initiated.
    pub open spec fn ends<T>(self, model: Model, polled: Poll<Option<T>>) -> bool {
        ||| self.state is Done
        ||| polled == Poll::Ready(None::<T>)
        ||| polled is Pending && !model.active
    }

    /// The stream after such a poll.
    pub open spec fn after_poll<T>(self, model: Model, polled: Poll<Option<T>>) -> Self {
        if self.ends(model, polled) {
            GracefulStream { state: State::Done }
        } else {
            self
        }
    }

    /// What such a poll comes to.
    pub open spec fn outcome<T>(self, model: Model, polled: Poll<Option<T>>) -> Poll<Option<T>> {
        if self.ends(model, polled) {
            Poll::Ready(None)
        } else {
            polled
        }
    }

    /// While the stream runs, only the shutdown that made it can end it.
    pub open spec fn belongs_to(self, model: Model) -> bool {
        self.state matches State::Running { id, .. } ==> id@ == model.id
    }

    pub(crate) fn new(id: Ghost<int>, stream: S) -> (result: Self)
        ensures
            result.state == (State::Running { id, stream }),
    {
        GracefulStream { state: State::Running { id, stream } }
    }

    /// One poll: `polled` is what polling the wrapped stream came to. Once the stream has ended
    /// there is none, and `polled` is not looked at.
    ///
    /// Unless the stream ends, it comes to what the wrapped stream came to, and `waker` is
    /// registered.
    pub fn poll_next<T>(
        &mut self,
        shutdown: &mut Shutdown,
        waker: &Waker,
        polled: Poll<Option<T>>,
    ) -> (result: Poll<Option<T>>)
        requires
            old(self).belongs_to(old(shutdown)@),
        ensures
            result == old(self).outcome(old(shutdown)@, polled),
            *final(self) == old(self).after_poll(old(shutdown)@, polled),
            old(self).ends(old(shutdown)@, polled) ==> final(shutdown)@ == old(shutdown)@,
            !old(self).ends(old(shutdown)@, polled) ==> old(shutdown)@.registers(
                *waker,
                final(shutdown)@,
            ),
            // A stream that goes on has registered the waker, pending or not.
            result != Poll::Ready(None::<T>) ==> {
                &&& result == polled
                &&& *final(self) == *old(self)
                &&& old(shutdown)@.registers(*waker, final(shutdown)@)
                &&& final(shutdown)@.awaited_by(*waker)
            },
            // One that comes to the end is over, and has registered nobody.
            result == Poll::Ready(None::<T>) ==> {
                &&& final(self).state is Done
                &&& final(shutdown)@ == old(shutdown)@
            },
            // It comes to the end exactly where it had ended, or the wrapped stream ends, or has
            // nothing to give while the shutdown has been initiated.
            result == Poll::Ready(None::<T>) <==> {
                ||| old(self).state is Done
                ||| polled == Poll::Ready(None::<T>)
                ||| polled is Pending && !old(shutdown)@.active
            },
    {
        match self.state {
            State::Done => Poll::Ready(None),
            State::Running { .. } => match polled {
                Poll::Ready(Some(item)) => {
                    shutdown.add_waker(waker);
                    Poll::Ready(Some(item))
                },
                Poll::Ready(None) => {
                    self.state = State::Done;
                    Poll::Ready(None)
                },
                Poll::Pending => {
                    if shutdown.is_shutting_down() {
                        self.state = State::Done;
                        Poll::Ready(None)
                    } else {
                        shutdown.add_waker(waker);
                        Poll::Pending
                    }
                },
            },
        }
    }

    /// The bounds on the number of items still to come, where `stream` is what the wrapped stream
    /// says of itself.
    pub fn size_hint(&self, stream: (usize, Option<usize>)) -> (result: (usize, Option<usize>))
        ensures
            self.state is Done ==> result == (0usize, Some(0usize)),
            self.state is Running ==> result == stream,
    {
        match self.state {
            State::Done => (0, Some(0)),
            State::Running { .. } => stream,
        }
    }

    /// The stream has ended.
    pub fn is_terminated(&self) -> (result: bool)
        ensures
            result == (self.state is Done),
    {
        match self.state {
            State::Done => true,
            State::Running { .. } => false,
        }
    }
}

} // verus!
