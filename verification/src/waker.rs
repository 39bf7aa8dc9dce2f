//! What the crate uses of [`std::task::Waker`].
use std::task::Waker;
use vstd::prelude::*;

use crate::cancel::{CancelOnShutdown, Initiated};
use crate::graceful::Graceful;
use crate::poll::Poll;
use crate::shutdown::{Draining, Shutdown};
use crate::stream::GracefulStream;
use crate::terminator::{TerminatorStep, WithTerminator};

verus! {

/// The standard library's waker. Nothing inside it is known here.
#[verifier::external_type_specification]
#[verifier::external_body]
pub struct ExWaker(std::task::Waker);

/// `Waker::will_wake` compares two wakers. Nothing is claimed of the answer: the standard library
/// promises that `true` comes only for wakers of one task, that `false` may come even then, and
/// the task behind a waker is not a value that a contract could speak of. Contracts speak of the
/// answers that came back instead ([`recognises`], [`refuses`]).
pub assume_specification[ std::task::Waker::will_wake ](
    waker: &std::task::Waker,
    other: &std::task::Waker,
) -> bool;

/// `Waker::clone` makes a waker for the same task. Nothing is claimed of the clone beyond its
/// being one ([`vstd::prelude::cloned`]).
pub assume_specification[ <std::task::Waker as Clone>::clone ](
    waker: &std::task::Waker,
) -> std::task::Waker;

/// `Waker::wake` wakes up the task of a waker. Its effect is outside of what contracts see, so
/// nothing is claimed. Contracts speak of the call itself ([`was_woken`]). Verified code may make
/// the call only for wakers that were handed to [`wake_all`], so no poll wakes its own task by it.
pub assume_specification[ std::task::Waker::wake ](waker: std::task::Waker)
    requires
        is_due(waker),
;

/// `waker` is one of the wakers that [`wake_all`] has taken over. Nothing outside of this module
/// can bring that about for a waker of its choice but by handing it to `wake_all`.
pub closed spec fn is_due(waker: Waker) -> bool {
    exists|wakers: Vec<Waker>|
        #[trigger] wakers@.contains(waker) && call_ensures(take_over, (&wakers,), ())
}

/// A waker is due only as one of wakers that were taken over.
proof fn law_due_wakers_were_taken_over(waker: Waker)
    requires
        is_due(waker),
    ensures
        exists|wakers: Vec<Waker>|
            #[trigger] wakers@.contains(waker) && call_ensures(take_over, (&wakers,), ()),
{
}

/// Takes over wakers to be woken. There is nothing to do; that the call was made is what counts.
fn take_over(wakers: &Vec<Waker>) {
}

/// A call of `waker.wake()` may have returned. Nothing is known of `Waker::wake` beforehand, so a
/// function shows this of a waker only by making that call.
pub open spec fn was_woken(waker: Waker) -> bool {
    call_ensures(Waker::wake, (waker,), ())
}

/// `held.will_wake(waker)` may answer `true`.
pub open spec fn recognises(held: Waker, waker: Waker) -> bool {
    call_ensures(Waker::will_wake, (&held, &waker), true)
}

/// `held.will_wake(waker)` may answer `false`.
pub open spec fn refuses(held: Waker, waker: Waker) -> bool {
    call_ensures(Waker::will_wake, (&held, &waker), false)
}

/// Waking `held` is as good as waking `waker`: it is a clone of it, or said that it wakes the
/// same task.
pub open spec fn stands_for(held: Waker, waker: Waker) -> bool {
    cloned(waker, held) || recognises(held, waker)
}

/// Clones are answered as the wakers that they were made from: who denies that it wakes the task
/// of a waker denies it of the waker's clones.
pub open spec fn clones_are_answered_alike() -> bool {
    forall|held: Waker, waker: Waker, clone: Waker|
        #![trigger refuses(held, waker), cloned(waker, clone)]
        refuses(held, waker) && cloned(waker, clone) ==> refuses(held, clone)
}

/// Wakes every waker that an operation handed out.
///
/// The contract says that each of them is woken. In which order is not a thing that it can say;
/// the loop goes from the first to the last.
///
/// Waking stands above the operations. The contract also says what those come to, whoever is
/// woken: the wakers that go out, and when a poll goes on waiting. Being stated over them, this
/// function cannot be what one of them is built on, not even through others, since Verus takes no
/// contract that goes in a circle. So the operations hand out wakers, and wake nobody.
pub fn wake_all(wakers: Vec<Waker>)
    ensures
        forall|i: int| 0 <= i < wakers@.len() ==> was_woken(#[trigger] wakers@[i]),
        forall|i: int|
            0 <= i < wakers@.len() ==> call_ensures(Waker::wake, (#[trigger] wakers@[i],), ()),
        // Initiating a shutdown hands out all registered wakers, and ending a task does so only if
        // it was the last one of an initiated shutdown.
        forall|s: &mut Shutdown, woken: Vec<Waker>| #[trigger]
            call_ensures(Shutdown::shutdown, (s,), woken) ==> woken@ == s@.wakers,
        forall|guard: Draining, s: &mut Shutdown, woken: Vec<Waker>| #[trigger]
            call_ensures(Draining::release, (guard, s), woken) && woken@.len() > 0 ==> !s@.active
                && s@.pending == 1,
        // Starting a task gives a guard of the same shutdown.
        forall|s: &mut Shutdown, guard: Draining| #[trigger]
            call_ensures(Shutdown::draining, (s,), guard) ==> guard.shutdown_id() == s@.id,
        forall|s: &mut Shutdown, task: (), r: Graceful<()>| #[trigger]
            call_ensures(Shutdown::graceful::<()>, (s, task), r) ==> r.guard is Some,
        forall|guard: &Draining, s: &mut Shutdown, r: Draining| #[trigger]
            call_ensures(Draining::duplicate, (guard, s), r) ==> r.shutdown_id()
                == guard.shutdown_id(),
        // Two futures come to what the wrapped one comes to.
        forall|s: &mut Shutdown, p: Poll<()>, r: (Poll<()>, Vec<Waker>)| #[trigger]
            call_ensures(Shutdown::shutdown_after::<()>, (s, p), r) ==> r.0 == p,
        forall|f: &mut Graceful<()>, s: &mut Shutdown, p: Poll<()>, r: (Poll<()>, Vec<Waker>)|
             #[trigger]
            call_ensures(Graceful::<()>::poll::<()>, (f, s, p), r) ==> r.0 == p,
        // The others go on waiting as long as what they wait for has not come.
        forall|s: &mut Shutdown, waker: &Waker, r: Poll<()>| #[trigger]
            call_ensures(Shutdown::poll, (s, waker), r) ==> (r is Pending <==> s@.active
                || s@.pending > 0),
        forall|f: &WithTerminator<()>, s: &mut Shutdown, waker: &Waker, r: TerminatorStep|
             #[trigger]
            call_ensures(WithTerminator::<()>::poll, (f, s, waker), r) ==> (r
                == TerminatorStep::Return(Poll::Pending) <==> s@.active),
        forall|
            f: &CancelOnShutdown<()>,
            s: &mut Shutdown,
            waker: &Waker,
            p: Poll<()>,
            r: Poll<Option<()>>,
        | #[trigger]
            call_ensures(CancelOnShutdown::<()>::poll::<()>, (f, s, waker, p), r) ==> (r is Pending
                <==> p is Pending && s@.active),
        forall|f: &Initiated, s: &mut Shutdown, waker: &Waker, r: Poll<()>| #[trigger]
            call_ensures(Initiated::poll, (f, s, waker), r) ==> (r is Pending <==> s@.active),
        forall|
            f: &mut GracefulStream<()>,
            s: &mut Shutdown,
            waker: &Waker,
            p: Poll<Option<()>>,
            r: Poll<Option<()>>,
        | #[trigger]
            call_ensures(GracefulStream::<()>::poll_next::<()>, (f, s, waker, p), r) && r is Pending
                ==> p is Pending && s@.active,
{
    take_over(&wakers);
    let ghost due = wakers;
    for waker in woken: wakers
        invariant
            forall|i: int|
                0 <= i < woken.index() ==> call_ensures(
                    Waker::wake,
                    (#[trigger] woken.seq()[i],),
                    (),
                ),
            woken.seq() == wakers@,
            due@ == wakers@,
            call_ensures(take_over, (&due,), ()),
    {
        assert(due@.contains(waker));
        waker.wake();
    }
}

} // verus!
