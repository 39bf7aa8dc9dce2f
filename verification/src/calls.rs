//! What holds of every call of the operations, and of one call after another.
//!
//! In a law, `s` is the shutdown that a call is given and `final(s)` what the call makes of it; `r`
//! is what the call comes to, and `p` what polling the wrapped future or stream came to.
use std::task::Waker;
use vstd::prelude::*;

use crate::cancel::{CancelOnShutdown, Initiated};
use crate::graceful::Graceful;
use crate::model::contains_stand_in;
use crate::poll::Poll;
use crate::shutdown::{Draining, Shutdown};
use crate::stream::{GracefulStream, State};
use crate::terminator::{TerminatorStep, WithTerminator};
use crate::waker::wake_all;

verus! {

/// A poll that leaves its caller waiting, and one of a stream that gives an item, registers the
/// caller's waker: a waker is registered then that stands for it.
pub proof fn law_who_waits_is_registered<F, S, T>()
    ensures
        forall|s: &mut Shutdown, waker: &Waker, r: Poll<()>|
            #![trigger call_ensures(Shutdown::poll, (s, waker), r)]
            call_ensures(Shutdown::poll, (s, waker), r) && r is Pending ==> {
                &&& s@.registers(*waker, final(s)@)
                &&& final(s)@.awaited_by(*waker)
            },
        forall|f: &WithTerminator<F>, s: &mut Shutdown, waker: &Waker, r: TerminatorStep|
            #![trigger call_ensures(WithTerminator::<F>::poll, (f, s, waker), r)]
            call_ensures(WithTerminator::<F>::poll, (f, s, waker), r) && r
                != TerminatorStep::Return(Poll::Ready(false)) ==> {
                &&& s@.registers(*waker, final(s)@)
                &&& final(s)@.awaited_by(*waker)
            },
        forall|
            f: &CancelOnShutdown<F>,
            s: &mut Shutdown,
            waker: &Waker,
            p: Poll<T>,
            r: Poll<Option<T>>,
        |
            #![trigger call_ensures(CancelOnShutdown::<F>::poll::<T>, (f, s, waker, p), r)]
            call_ensures(CancelOnShutdown::<F>::poll::<T>, (f, s, waker, p), r) && r is Pending
                ==> {
                &&& s@.registers(*waker, final(s)@)
                &&& final(s)@.awaited_by(*waker)
            },
        forall|f: &Initiated, s: &mut Shutdown, waker: &Waker, r: Poll<()>|
            #![trigger call_ensures(Initiated::poll, (f, s, waker), r)]
            call_ensures(Initiated::poll, (f, s, waker), r) && r is Pending ==> {
                &&& s@.registers(*waker, final(s)@)
                &&& final(s)@.awaited_by(*waker)
            },
        forall|
            f: &mut GracefulStream<S>,
            s: &mut Shutdown,
            waker: &Waker,
            p: Poll<Option<T>>,
            r: Poll<Option<T>>,
        |
            #![trigger call_ensures(GracefulStream::<S>::poll_next::<T>, (f, s, waker, p), r)]
            call_ensures(GracefulStream::<S>::poll_next::<T>, (f, s, waker, p), r) && r
                != Poll::Ready(None::<T>) ==> {
                &&& s@.registers(*waker, final(s)@)
                &&& final(s)@.awaited_by(*waker)
            },
{
}

/// Who waits is woken by the initiation that comes next: where a shutdown is initiated as such a
/// poll left it, a waker goes out that stands for the caller's.
pub proof fn law_initiation_wakes_who_waits<F, S, T>()
    ensures
        forall|
            s: &mut Shutdown,
            waker: &Waker,
            r: Poll<()>,
            later: &mut Shutdown,
            woken: Vec<Waker>,
        |
            #![trigger
                call_ensures(Shutdown::poll, (s, waker), r),
                call_ensures(Shutdown::shutdown, (later,), woken)
            ]
            {
                &&& call_ensures(Shutdown::poll, (s, waker), r)
                &&& r is Pending
                &&& call_ensures(Shutdown::shutdown, (later,), woken)
                &&& later@ == final(s)@
            } ==> contains_stand_in(woken@, *waker),
        forall|
            f: &WithTerminator<F>,
            s: &mut Shutdown,
            waker: &Waker,
            r: TerminatorStep,
            later: &mut Shutdown,
            woken: Vec<Waker>,
        |
            #![trigger
                call_ensures(WithTerminator::<F>::poll, (f, s, waker), r),
                call_ensures(Shutdown::shutdown, (later,), woken)
            ]
            {
                &&& call_ensures(WithTerminator::<F>::poll, (f, s, waker), r)
                &&& r != TerminatorStep::Return(Poll::Ready(false))
                &&& call_ensures(Shutdown::shutdown, (later,), woken)
                &&& later@ == final(s)@
            } ==> contains_stand_in(woken@, *waker),
        forall|
            f: &CancelOnShutdown<F>,
            s: &mut Shutdown,
            waker: &Waker,
            p: Poll<T>,
            r: Poll<Option<T>>,
            later: &mut Shutdown,
            woken: Vec<Waker>,
        |
            #![trigger
                call_ensures(CancelOnShutdown::<F>::poll::<T>, (f, s, waker, p), r),
                call_ensures(Shutdown::shutdown, (later,), woken)
            ]
            {
                &&& call_ensures(CancelOnShutdown::<F>::poll::<T>, (f, s, waker, p), r)
                &&& r is Pending
                &&& call_ensures(Shutdown::shutdown, (later,), woken)
                &&& later@ == final(s)@
            } ==> contains_stand_in(woken@, *waker),
        forall|
            f: &Initiated,
            s: &mut Shutdown,
            waker: &Waker,
            r: Poll<()>,
            later: &mut Shutdown,
            woken: Vec<Waker>,
        |
            #![trigger
                call_ensures(Initiated::poll, (f, s, waker), r),
                call_ensures(Shutdown::shutdown, (later,), woken)
            ]
            {
                &&& call_ensures(Initiated::poll, (f, s, waker), r)
                &&& r is Pending
                &&& call_ensures(Shutdown::shutdown, (later,), woken)
                &&& later@ == final(s)@
            } ==> contains_stand_in(woken@, *waker),
        forall|
            f: &mut GracefulStream<S>,
            s: &mut Shutdown,
            waker: &Waker,
            p: Poll<Option<T>>,
            r: Poll<Option<T>>,
            later: &mut Shutdown,
            woken: Vec<Waker>,
        |
            #![trigger
                call_ensures(GracefulStream::<S>::poll_next::<T>, (f, s, waker, p), r),
                call_ensures(Shutdown::shutdown, (later,), woken)
            ]
            {
                &&& call_ensures(GracefulStream::<S>::poll_next::<T>, (f, s, waker, p), r)
                &&& r != Poll::Ready(None::<T>)
                &&& call_ensures(Shutdown::shutdown, (later,), woken)
                &&& later@ == final(s)@
            } ==> contains_stand_in(woken@, *waker),
{
}

/// Who waits for an initiated shutdown to complete is woken with its last task: where the last
/// guard is released as such a poll left the shutdown, a waker goes out that stands for the
/// caller's.
pub proof fn law_last_task_wakes_who_waits<F>()
    ensures
        forall|
            s: &mut Shutdown,
            waker: &Waker,
            r: Poll<()>,
            guard: Draining,
            later: &mut Shutdown,
            woken: Vec<Waker>,
        |
            #![trigger
                call_ensures(Shutdown::poll, (s, waker), r),
                call_ensures(Draining::release, (guard, later), woken)
            ]
            {
                &&& call_ensures(Shutdown::poll, (s, waker), r)
                &&& r is Pending
                &&& call_ensures(Draining::release, (guard, later), woken)
                &&& later@ == final(s)@
                &&& !s@.active
                &&& s@.pending == 1
            } ==> contains_stand_in(woken@, *waker),
        forall|
            f: &WithTerminator<F>,
            s: &mut Shutdown,
            waker: &Waker,
            r: TerminatorStep,
            guard: Draining,
            later: &mut Shutdown,
            woken: Vec<Waker>,
        |
            #![trigger
                call_ensures(WithTerminator::<F>::poll, (f, s, waker), r),
                call_ensures(Draining::release, (guard, later), woken)
            ]
            {
                &&& call_ensures(WithTerminator::<F>::poll, (f, s, waker), r)
                &&& r != TerminatorStep::Return(Poll::Ready(false))
                &&& call_ensures(Draining::release, (guard, later), woken)
                &&& later@ == final(s)@
                &&& !s@.active
                &&& s@.pending == 1
            } ==> contains_stand_in(woken@, *waker),
{
}

/// Every waker that is handed to [`wake_all`] has its own `wake` called.
pub proof fn law_wake_all_wakes_each_waker(wakers: Vec<Waker>)
    requires
        call_ensures(wake_all, (wakers,), ()),
    ensures
        forall|i: int|
            0 <= i < wakers@.len() ==> call_ensures(Waker::wake, (#[trigger] wakers@[i],), ()),
{
    let arguments = (wakers,);
    assert(call_ensures(wake_all, arguments, ()));
    assert forall|i: int| 0 <= i < wakers@.len() implies call_ensures(
        Waker::wake,
        (#[trigger] wakers@[i],),
        (),
    ) by {
        assert(call_ensures(Waker::wake, (arguments.0@[i],), ()));
    }
}

/// What a poll comes to, given what it finds and what it is told.
pub proof fn law_outcomes_of_polls<F, S, T>()
    ensures
        forall|s: &mut Shutdown, waker: &Waker, r: Poll<()>| #[trigger]
            call_ensures(Shutdown::poll, (s, waker), r) ==> (r is Ready <==> !s@.active
                && s@.pending == 0),
        forall|f: &WithTerminator<F>, s: &mut Shutdown, waker: &Waker, r: TerminatorStep|
             #[trigger]
            call_ensures(WithTerminator::<F>::poll, (f, s, waker), r) ==> r == (if s@.active {
                TerminatorStep::Return(Poll::Pending)
            } else if s@.pending == 0 {
                TerminatorStep::Return(Poll::Ready(false))
            } else {
                TerminatorStep::PollTerminator
            }),
        forall|f: &WithTerminator<F>, p: Poll<()>, r: Poll<bool>| #[trigger]
            call_ensures(WithTerminator::<F>::resume, (f, p), r) ==> r == (match p {
                Poll::Ready(_) => Poll::Ready(true),
                Poll::Pending => Poll::Pending,
            }),
        forall|
            f: &CancelOnShutdown<F>,
            s: &mut Shutdown,
            waker: &Waker,
            p: Poll<T>,
            r: Poll<Option<T>>,
        | #[trigger]
            call_ensures(CancelOnShutdown::<F>::poll::<T>, (f, s, waker, p), r) ==> r == (match p {
                Poll::Ready(output) => Poll::Ready(Some(output)),
                Poll::Pending => if s@.active {
                    Poll::Pending
                } else {
                    Poll::Ready(None)
                },
            }),
        forall|f: &Initiated, s: &mut Shutdown, waker: &Waker, r: Poll<()>| #[trigger]
            call_ensures(Initiated::poll, (f, s, waker), r) ==> (r is Ready <==> !s@.active),
        forall|
            f: &mut GracefulStream<S>,
            s: &mut Shutdown,
            waker: &Waker,
            p: Poll<Option<T>>,
            r: Poll<Option<T>>,
        | #[trigger]
            call_ensures(GracefulStream::<S>::poll_next::<T>, (f, s, waker, p), r) ==> {
                &&& r == (if f.state is Done || p is Pending && !s@.active {
                    Poll::Ready(None)
                } else {
                    p
                })
                &&& final(f).state == (if r == Poll::Ready(None::<T>) {
                    State::Done
                } else {
                    f.state
                })
            },
        forall|f: &mut Graceful<F>, s: &mut Shutdown, p: Poll<T>, r: (Poll<T>, Vec<Waker>)|
             #[trigger]
            call_ensures(Graceful::<F>::poll::<T>, (f, s, p), r) ==> r.0 == p,
        forall|s: &mut Shutdown, p: Poll<T>, r: (Poll<T>, Vec<Waker>)| #[trigger]
            call_ensures(Shutdown::shutdown_after::<T>, (s, p), r) ==> r.0 == p,
{
}

/// A poll that is over leaves the shutdown as it is.
pub proof fn law_finished_polls_change_nothing<F, S, T>()
    ensures
        forall|s: &mut Shutdown, waker: &Waker, r: Poll<()>| #[trigger]
            call_ensures(Shutdown::poll, (s, waker), r) && r is Ready ==> final(s)@ == s@,
        forall|f: &WithTerminator<F>, s: &mut Shutdown, waker: &Waker, r: TerminatorStep|
             #[trigger]
            call_ensures(WithTerminator::<F>::poll, (f, s, waker), r) && r
                == TerminatorStep::Return(Poll::Ready(false)) ==> final(s)@ == s@,
        forall|
            f: &CancelOnShutdown<F>,
            s: &mut Shutdown,
            waker: &Waker,
            p: Poll<T>,
            r: Poll<Option<T>>,
        | #[trigger]
            call_ensures(CancelOnShutdown::<F>::poll::<T>, (f, s, waker, p), r) && r is Ready
                ==> final(s)@ == s@,
        forall|f: &Initiated, s: &mut Shutdown, waker: &Waker, r: Poll<()>| #[trigger]
            call_ensures(Initiated::poll, (f, s, waker), r) && r is Ready ==> final(s)@ == s@,
        forall|
            f: &mut GracefulStream<S>,
            s: &mut Shutdown,
            waker: &Waker,
            p: Poll<Option<T>>,
            r: Poll<Option<T>>,
        | #[trigger]
            call_ensures(GracefulStream::<S>::poll_next::<T>, (f, s, waker, p), r) && r
                == Poll::Ready(None::<T>) ==> final(s)@ == s@,
{
}

/// A shutdown is initiated by [`Shutdown::shutdown`], and by [`Shutdown::shutdown_after`] once the
/// wrapped future has completed. Every registered waker goes out, in order, and the pending tasks
/// stay.
pub proof fn law_calls_that_initiate<T>()
    ensures
        forall|s: &mut Shutdown, woken: Vec<Waker>| #[trigger]
            call_ensures(Shutdown::shutdown, (s,), woken) ==> {
                &&& woken@ == s@.wakers
                &&& !final(s)@.active
                &&& final(s)@.pending == s@.pending
                &&& final(s)@.wakers.len() == 0
                &&& final(s)@.id == s@.id
            },
        forall|s: &mut Shutdown, p: Poll<T>, r: (Poll<T>, Vec<Waker>)| #[trigger]
            call_ensures(Shutdown::shutdown_after::<T>, (s, p), r) && p is Ready ==> {
                &&& r.1@ == s@.wakers
                &&& !final(s)@.active
                &&& final(s)@.pending == s@.pending
                &&& final(s)@.wakers.len() == 0
                &&& final(s)@.id == s@.id
            },
        forall|s: &mut Shutdown, p: Poll<T>, r: (Poll<T>, Vec<Waker>)| #[trigger]
            call_ensures(Shutdown::shutdown_after::<T>, (s, p), r) && p is Pending ==> final(s)@
                == s@ && r.1@.len() == 0,
{
}

/// Each call of [`Shutdown::draining`], [`Shutdown::graceful`] and [`Draining::duplicate`] counts
/// one more pending task, and does nothing else.
pub proof fn law_calls_that_start<F>()
    ensures
        forall|s: &mut Shutdown, guard: Draining| #[trigger]
            call_ensures(Shutdown::draining, (s,), guard) ==> {
                &&& final(s)@.pending == s@.pending + 1
                &&& final(s)@.active == s@.active
                &&& final(s)@.wakers == s@.wakers
                &&& final(s)@.id == s@.id
            },
        forall|s: &mut Shutdown, task: F, r: Graceful<F>| #[trigger]
            call_ensures(Shutdown::graceful::<F>, (s, task), r) ==> {
                &&& r.task == task
                &&& r.guard is Some
                &&& final(s)@.pending == s@.pending + 1
                &&& final(s)@.active == s@.active
                &&& final(s)@.wakers == s@.wakers
                &&& final(s)@.id == s@.id
            },
        forall|guard: &Draining, s: &mut Shutdown, r: Draining| #[trigger]
            call_ensures(Draining::duplicate, (guard, s), r) ==> {
                &&& final(s)@.pending == s@.pending + 1
                &&& final(s)@.active == s@.active
                &&& final(s)@.wakers == s@.wakers
                &&& final(s)@.id == s@.id
            },
{
}

/// A guard that is released, and a graceful task that completes while it holds its guard, count
/// one pending task less. All wakers go out where that completes the shutdown, else none. Nothing
/// else that a graceful task comes to counts.
pub proof fn law_calls_that_end<F, T>()
    ensures
        forall|guard: Draining, s: &mut Shutdown, woken: Vec<Waker>| #[trigger]
            call_ensures(Draining::release, (guard, s), woken) ==> {
                let completes = !s@.active && s@.pending == 1;
                &&& final(s)@.active == s@.active
                &&& final(s)@.id == s@.id
                &&& s@.pending > 0 ==> final(s)@.pending == s@.pending - 1
                &&& s@.pending == 0 ==> final(s)@.pending == 0
                &&& completes ==> woken@ == s@.wakers && final(s)@.wakers.len() == 0
                &&& !completes ==> woken@.len() == 0 && final(s)@.wakers == s@.wakers
            },
        forall|f: &mut Graceful<F>, s: &mut Shutdown, p: Poll<T>, r: (Poll<T>, Vec<Waker>)|
             #[trigger]
            call_ensures(Graceful::<F>::poll::<T>, (f, s, p), r) && p is Ready && f.guard is Some
                ==> {
                let completes = !s@.active && s@.pending == 1;
                &&& final(f).guard is None
                &&& final(s)@.active == s@.active
                &&& final(s)@.id == s@.id
                &&& s@.pending > 0 ==> final(s)@.pending == s@.pending - 1
                &&& s@.pending == 0 ==> final(s)@.pending == 0
                &&& completes ==> r.1@ == s@.wakers && final(s)@.wakers.len() == 0
                &&& !completes ==> r.1@.len() == 0 && final(s)@.wakers == s@.wakers
            },
        forall|f: &mut Graceful<F>, s: &mut Shutdown, p: Poll<T>, r: (Poll<T>, Vec<Waker>)|
             #[trigger]
            call_ensures(Graceful::<F>::poll::<T>, (f, s, p), r) && (p is Pending
                || f.guard is None) ==> {
                &&& final(f).guard == f.guard
                &&& final(s)@ == s@
                &&& r.1@.len() == 0
            },
{
}

/// What a shutdown tells of itself, from its making on.
pub proof fn law_calls_that_ask()
    ensures
        forall|s: Shutdown| #[trigger]
            call_ensures(Shutdown::new, (), s) ==> s@.active && s@.pending == 0 && s@.wakers.len()
                == 0,
        forall|s: &Shutdown, r: bool| #[trigger]
            call_ensures(Shutdown::is_active, (s,), r) ==> r == s@.active,
        forall|s: &Shutdown, r: bool| #[trigger]
            call_ensures(Shutdown::is_shutting_down, (s,), r) ==> r == !s@.active,
        forall|s: &Shutdown, r: usize| #[trigger]
            call_ensures(Shutdown::num_pending, (s,), r) ==> r == s@.pending && r <= usize::MAX / 2,
{
}

} // verus!
