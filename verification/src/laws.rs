//! What holds of a shutdown over whole histories of operations.
//!
//! A history is a sequence of events and the models before, between and after them, whichever
//! handles the events came through and in whatever order. Guards and graceful tasks start and end
//! tasks; polls register wakers.
use std::task::Waker;
use vstd::prelude::*;

use crate::model::{Model, contains_stand_in, distinct};
use crate::poll::Poll;
use crate::shutdown::Shutdown;
use crate::state::{MAX_PENDING, word_active, word_of, word_pending};
use crate::stream::{GracefulStream, State};
use crate::waker::{clones_are_answered_alike, recognises, refuses, stands_for, was_woken};

verus! {

/// What can happen to a shutdown.
pub enum Event {
    /// It is initiated: [`crate::Shutdown::shutdown`], [`crate::Shutdown::shutdown_after`].
    Shutdown,
    /// A task starts: [`crate::Shutdown::graceful`], [`crate::Shutdown::draining`],
    /// [`crate::Draining::duplicate`].
    Start,
    /// A task ends: [`crate::Graceful::poll`], [`crate::Draining::release`].
    End,
    /// A poll registers a waker: any that leaves its caller waiting, and one of a stream that gives
    /// an item.
    Register(Waker),
}

/// `event` leads from `before` to `after`.
pub open spec fn step(before: Model, event: Event, after: Model) -> bool {
    match event {
        Event::Shutdown => after == before.after_shutdown(),
        Event::Start => before.has_room() && after == before.after_start(),
        Event::End => after == before.after_end(),
        Event::Register(waker) => before.registers(waker, after),
    }
}

/// The wakers that `event` hands out to be woken.
pub open spec fn woken(before: Model, event: Event) -> Seq<Waker> {
    match event {
        Event::Shutdown => before.wakers,
        Event::End => before.woken_by_end(),
        Event::Start | Event::Register(_) => Seq::empty(),
    }
}

/// `events` lead through `models`.
pub open spec fn history(models: Seq<Model>, events: Seq<Event>) -> bool {
    &&& models.len() == events.len() + 1
    &&& forall|i: int|
        0 <= i < events.len() ==> step(models[i], #[trigger] events[i], models[i + 1])
}

/// The first `n` events initiate the shutdown.
pub open spec fn initiates(events: Seq<Event>, n: int) -> bool {
    exists|i: int| 0 <= i < n && #[trigger] events[i] is Shutdown
}

/// How many of the first `n` events start a task.
pub open spec fn starts(events: Seq<Event>, n: int) -> nat
    decreases n,
{
    if n <= 0 {
        0
    } else if events[n - 1] is Start {
        starts(events, n - 1) + 1
    } else {
        starts(events, n - 1)
    }
}

/// How many of the first `n` events end a task.
pub open spec fn ends(events: Seq<Event>, n: int) -> nat
    decreases n,
{
    if n <= 0 {
        0
    } else if events[n - 1] is End {
        ends(events, n - 1) + 1
    } else {
        ends(events, n - 1)
    }
}

/// No more tasks end than have started, at any time. So it is as long as every guard and every
/// graceful task is handed to the shutdown that made it: each of them ends at most one task.
pub open spec fn balanced(events: Seq<Event>) -> bool {
    forall|n: int| 0 <= n <= events.len() ==> #[trigger] ends(events, n) <= starts(events, n)
}

/// In every history, a shutdown that was active at first is active exactly as long as no event has
/// initiated it.
pub proof fn law_active_until_initiated(models: Seq<Model>, events: Seq<Event>, n: int)
    requires
        history(models, events),
        0 <= n <= events.len(),
    ensures
        models[n].active == (models[0].active && !initiates(events, n)),
    decreases n,
{
    if n > 0 {
        law_active_until_initiated(models, events, n - 1);
        assert(step(models[n - 1], events[n - 1], models[n - 1 + 1]));
        if initiates(events, n) && !(events[n - 1] is Shutdown) {
            let i = choose|i: int| 0 <= i < n && #[trigger] events[i] is Shutdown;
            assert(0 <= i < n - 1 && events[i] is Shutdown);
        }
        if initiates(events, n - 1) {
            let i = choose|i: int| 0 <= i < n - 1 && #[trigger] events[i] is Shutdown;
            assert(0 <= i < n && events[i] is Shutdown);
        }
    }
}

/// In every history, an initiated shutdown stays initiated.
pub proof fn law_initiated_for_good(models: Seq<Model>, events: Seq<Event>, i: int, j: int)
    requires
        history(models, events),
        0 <= i <= j <= events.len(),
        !models[i].active,
    ensures
        !models[j].active,
    decreases j - i,
{
    if i < j {
        assert(step(models[i], events[i], models[i + 1]));
        law_initiated_for_good(models, events, i + 1, j);
    }
}

/// In a balanced history that begins with no task pending, the pending tasks are those that have
/// started and not ended.
pub proof fn law_pending_counts_tasks(models: Seq<Model>, events: Seq<Event>, n: int)
    requires
        history(models, events),
        models[0].pending == 0,
        balanced(events),
        0 <= n <= events.len(),
    ensures
        models[n].pending == starts(events, n) - ends(events, n),
    decreases n,
{
    if n > 0 {
        law_pending_counts_tasks(models, events, n - 1);
        assert(step(models[n - 1], events[n - 1], models[n - 1 + 1]));
        assert(ends(events, n) <= starts(events, n));
    }
}

/// In a balanced history of a new shutdown, the shutdown is complete exactly when it has been
/// initiated and every task that has started has ended. In particular it is not complete while a
/// guard or a graceful task is outstanding.
pub proof fn law_completes_when_initiated_and_drained(
    models: Seq<Model>,
    events: Seq<Event>,
    n: int,
)
    requires
        history(models, events),
        models[0] == Model::initial(models[0].id),
        balanced(events),
        0 <= n <= events.len(),
    ensures
        models[n].complete() <==> initiates(events, n) && starts(events, n) == ends(events, n),
{
    law_active_until_initiated(models, events, n);
    law_pending_counts_tasks(models, events, n);
}

/// In every history, a shutdown stays the one that it is.
pub proof fn law_identity_is_kept(models: Seq<Model>, events: Seq<Event>, n: int)
    requires
        history(models, events),
        0 <= n <= events.len(),
    ensures
        models[n].id == models[0].id,
    decreases n,
{
    if n > 0 {
        law_identity_is_kept(models, events, n - 1);
        assert(step(models[n - 1], events[n - 1], models[n - 1 + 1]));
    }
}

/// A waker that a poll registers is awaited by the shutdown from then on.
pub proof fn law_registered_waker_is_awaited(before: Model, waker: Waker, after: Model)
    requires
        step(before, Event::Register(waker), after),
    ensures
        after.awaited_by(waker),
{
    if after.wakers == before.wakers && before.recognised(waker) {
        let i = choose|i: int|
            0 <= i < before.wakers.len() && recognises(#[trigger] before.wakers[i], waker);
        assert(stands_for(after.wakers[i], waker));
    } else {
        assert(stands_for(after.wakers[after.wakers.len() - 1], waker));
    }
}

/// What registering a waker comes to, call by call. The flag, the number of pending tasks and the
/// wakers that were there stay. Either one of those, asked by `will_wake`, said that it wakes the
/// same task, and nothing is added; or each of them denied it, and a clone of the waker is added
/// behind them. Either way a waker is registered that will do for it.
pub proof fn law_registration(before: Model, waker: Waker, after: Model)
    requires
        before.registers(waker, after),
    ensures
        after.id == before.id,
        after.active == before.active,
        after.pending == before.pending,
        before.wakers.len() <= after.wakers.len() <= before.wakers.len() + 1,
        forall|i: int| 0 <= i < before.wakers.len() ==> after.wakers[i] == before.wakers[i],
        after.wakers.len() == before.wakers.len() ==> exists|i: int|
            0 <= i < before.wakers.len() && call_ensures(
                Waker::will_wake,
                (&#[trigger] before.wakers[i], &waker),
                true,
            ),
        after.wakers.len() > before.wakers.len() ==> cloned(waker, after.wakers.last()),
        after.wakers.len() > before.wakers.len() ==> forall|i: int|
            0 <= i < before.wakers.len() ==> call_ensures(
                Waker::will_wake,
                (&#[trigger] before.wakers[i], &waker),
                false,
            ),
        exists|i: int|
            0 <= i < after.wakers.len() && (cloned(waker, #[trigger] after.wakers[i])
                || call_ensures(Waker::will_wake, (&after.wakers[i], &waker), true)),
{
    let last = after.wakers.len() - 1;
    if after.wakers.len() == before.wakers.len() {
        let i = choose|i: int|
            0 <= i < before.wakers.len() && recognises(#[trigger] before.wakers[i], waker);
        assert(call_ensures(Waker::will_wake, (&after.wakers[i], &waker), true));
    } else {
        assert forall|i: int| 0 <= i < before.wakers.len() implies after.wakers[i]
            == before.wakers[i] by {
            assert(after.wakers.drop_last()[i] == after.wakers[i]);
        }
        assert forall|i: int| 0 <= i < before.wakers.len() implies call_ensures(
            Waker::will_wake,
            (&#[trigger] before.wakers[i], &waker),
            false,
        ) by {
            assert(refuses(before.wakers[i], waker));
        }
        assert(cloned(waker, after.wakers[last]));
    }
}

/// A waker stands for another exactly if it is a clone of it, or said, asked by `will_wake`, that
/// it wakes the same task. A shutdown awaits a waker exactly if one is registered that stands for it.
pub proof fn law_stand_ins(model: Model, waker: Waker)
    ensures
        model.awaited_by(waker) <==> contains_stand_in(model.wakers, waker),
        contains_stand_in(model.wakers, waker) <==> exists|i: int|
            0 <= i < model.wakers.len() && (cloned(waker, #[trigger] model.wakers[i])
                || call_ensures(Waker::will_wake, (&model.wakers[i], &waker), true)),
{
    if contains_stand_in(model.wakers, waker) {
        let i = choose|i: int|
            0 <= i < model.wakers.len() && stands_for(#[trigger] model.wakers[i], waker);
        assert(cloned(waker, model.wakers[i]) || call_ensures(
            Waker::will_wake,
            (&model.wakers[i], &waker),
            true,
        ));
    }
    assert forall|i: int|
        0 <= i < model.wakers.len() && (cloned(waker, #[trigger] model.wakers[i]) || call_ensures(
            Waker::will_wake,
            (&model.wakers[i], &waker),
            true,
        )) implies contains_stand_in(model.wakers, waker) by {
        assert(stands_for(model.wakers[i], waker));
    }
}

/// That a waker was woken is that `wake` was called on it, on the waker itself and no other.
pub proof fn law_woken_is_a_call_of_wake(waker: Waker)
    ensures
        was_woken(waker) <==> call_ensures(Waker::wake, (waker,), ()),
{
}

/// A registered waker is recognised from then on, where clones recognise what they were made from.
pub proof fn law_registered_waker_is_recognised(before: Model, waker: Waker, after: Model)
    requires
        step(before, Event::Register(waker), after),
        forall|clone: Waker| #[trigger] cloned(waker, clone) ==> recognises(clone, waker),
    ensures
        exists|i: int|
            0 <= i < after.wakers.len() && recognises(#[trigger] after.wakers[i], waker),
{
    if after.wakers == before.wakers && before.recognised(waker) {
        let i = choose|i: int|
            0 <= i < before.wakers.len() && recognises(#[trigger] before.wakers[i], waker);
        assert(recognises(after.wakers[i], waker));
    } else {
        assert(cloned(waker, after.wakers.last()));
        assert(recognises(after.wakers[after.wakers.len() - 1], waker));
    }
}

/// No task is registered twice: where clones are answered as their originals, every event keeps the
/// registered wakers distinct.
pub proof fn law_event_keeps_wakers_distinct(before: Model, event: Event, after: Model)
    requires
        step(before, event, after),
        clones_are_answered_alike(),
        distinct(before.wakers),
    ensures
        distinct(after.wakers),
{
    if let Event::Register(waker) = event {
        if after.wakers != before.wakers {
            let last = after.wakers.len() - 1;
            assert(after.wakers.drop_last() == before.wakers);
            assert(forall|i: int| 0 <= i < last ==> after.wakers[i] == before.wakers[i]);
            assert forall|i: int, j: int| 0 <= i < j < after.wakers.len() implies refuses(
                #[trigger] after.wakers[i],
                #[trigger] after.wakers[j],
            ) by {
                if j == last {
                    assert(refuses(before.wakers[i], waker));
                    assert(cloned(waker, after.wakers[j]));
                } else {
                    assert(refuses(before.wakers[i], before.wakers[j]));
                }
            }
        }
    }
}

/// No task is ever registered twice: where clones are answered as their originals, the registered
/// wakers of a shutdown that had none at first are distinct throughout every history.
pub proof fn law_wakers_are_distinct(models: Seq<Model>, events: Seq<Event>, n: int)
    requires
        history(models, events),
        clones_are_answered_alike(),
        models[0].wakers.len() == 0,
        0 <= n <= events.len(),
    ensures
        distinct(models[n].wakers),
    decreases n,
{
    if n > 0 {
        law_wakers_are_distinct(models, events, n - 1);
        assert(step(models[n - 1], events[n - 1], models[n - 1 + 1]));
        law_event_keeps_wakers_distinct(models[n - 1], events[n - 1], models[n]);
    }
}

/// Nothing drops a registered waker or changes the order of the wakers: an event either keeps all
/// of them where they are or hands out all of them.
pub proof fn law_wakers_are_kept_or_handed_out(before: Model, event: Event, after: Model)
    requires
        step(before, event, after),
    ensures
        before.wakers.is_prefix_of(woken(before, event) + after.wakers),
        woken(before, event).len() > 0 ==> woken(before, event) == before.wakers
            && after.wakers.len() == 0,
{
    let all = woken(before, event) + after.wakers;
    if let Event::Register(waker) = event {
        if after.wakers != before.wakers {
            assert(after.wakers.drop_last() == before.wakers);
        }
    }
    assert(before.wakers =~= all.subrange(0, before.wakers.len() as int));
}

/// While an awaited waker is not handed out, it stays awaited, no event initiates the shutdown,
/// and no event completes it.
proof fn lemma_still_awaited(before: Model, event: Event, after: Model, waker: Waker)
    requires
        step(before, event, after),
        before.awaited_by(waker),
        !contains_stand_in(woken(before, event), waker),
    ensures
        after.awaited_by(waker),
        before.active ==> after.active,
        !before.complete() ==> !after.complete(),
{
    law_wakers_are_kept_or_handed_out(before, event, after);
    let i = choose|i: int|
        0 <= i < before.wakers.len() && stands_for(#[trigger] before.wakers[i], waker);
    let all = woken(before, event) + after.wakers;
    assert(woken(before, event) != before.wakers);
    assert(woken(before, event).len() == 0);
    assert(all =~= after.wakers);
    assert(after.wakers[i] == before.wakers[i]);
}

/// Nobody who waits for the shutdown to complete is forgotten: between a moment at which the
/// shutdown awaits a waker and is not complete, and one at which it is complete, a waker that
/// stands for it is handed out.
pub proof fn law_completion_wakes_every_waiter(
    models: Seq<Model>,
    events: Seq<Event>,
    i: int,
    j: int,
    waker: Waker,
)
    requires
        history(models, events),
        0 <= i <= j <= events.len(),
        models[i].awaited_by(waker),
        !models[i].complete(),
        models[j].complete(),
    ensures
        exists|k: int|
            i <= k < j && contains_stand_in(woken(models[k], #[trigger] events[k]), waker),
    decreases j - i,
{
    assert(i < j);
    assert(step(models[i], events[i], models[i + 1]));
    if !contains_stand_in(woken(models[i], events[i]), waker) {
        lemma_still_awaited(models[i], events[i], models[i + 1], waker);
        law_completion_wakes_every_waiter(models, events, i + 1, j, waker);
    }
}

/// Nobody who waits for the shutdown to be initiated is forgotten: between a moment at which the
/// shutdown awaits a waker and is active, and one at which it is initiated, a waker that stands
/// for it is handed out.
pub proof fn law_initiation_wakes_every_waiter(
    models: Seq<Model>,
    events: Seq<Event>,
    i: int,
    j: int,
    waker: Waker,
)
    requires
        history(models, events),
        0 <= i <= j <= events.len(),
        models[i].awaited_by(waker),
        models[i].active,
        !models[j].active,
    ensures
        exists|k: int|
            i <= k < j && contains_stand_in(woken(models[k], #[trigger] events[k]), waker),
    decreases j - i,
{
    assert(i < j);
    assert(step(models[i], events[i], models[i + 1]));
    if !contains_stand_in(woken(models[i], events[i]), waker) {
        lemma_still_awaited(models[i], events[i], models[i + 1], waker);
        law_initiation_wakes_every_waiter(models, events, i + 1, j, waker);
    }
}

/// In every history, a complete shutdown stays complete until a task starts.
pub proof fn law_complete_until_a_task_starts(
    models: Seq<Model>,
    events: Seq<Event>,
    i: int,
    j: int,
)
    requires
        history(models, events),
        0 <= i <= j <= events.len(),
        models[i].complete(),
        forall|k: int| i <= k < j ==> !(#[trigger] events[k] is Start),
    ensures
        models[j].complete(),
    decreases j - i,
{
    if i < j {
        assert(step(models[i], events[i], models[i + 1]));
        law_complete_until_a_task_starts(models, events, i + 1, j);
    }
}

/// A new shutdown is active, waits for no task, and nobody waits for it.
pub proof fn law_new_shutdown(id: int)
    ensures
        Model::initial(id).id == id,
        Model::initial(id).active,
        Model::initial(id).pending == 0,
        Model::initial(id).wakers.len() == 0,
{
}

/// A shutdown is complete exactly if it is not active and no task is pending, and has room for a
/// task exactly if fewer are pending than half of what a `usize` holds.
pub proof fn law_complete_and_room(model: Model)
    ensures
        model.complete() <==> !model.active && model.pending == 0,
        model.has_room() <==> model.pending < usize::MAX / 2,
{
}

/// Initiating a shutdown leaves no waker registered and no task forgotten.
pub proof fn law_initiating(model: Model)
    ensures
        !model.after_shutdown().active,
        model.after_shutdown().pending == model.pending,
        model.after_shutdown().wakers.len() == 0,
        model.after_shutdown().id == model.id,
{
}

/// Starting a task adds it to the pending ones, and does nothing else.
pub proof fn law_starting(model: Model)
    ensures
        model.after_start().pending == model.pending + 1,
        model.after_start().active == model.active,
        model.after_start().wakers == model.wakers,
        model.after_start().id == model.id,
{
}

/// Ending a task takes one from the pending ones, where there is one, and never touches the flag.
/// The registered wakers go out, all of them, exactly where that completes the shutdown; else they
/// stay, all of them, and nobody is woken.
pub proof fn law_ending(model: Model)
    ensures
        model.after_end().active == model.active,
        model.after_end().id == model.id,
        model.pending > 0 ==> model.after_end().pending == model.pending - 1,
        model.pending == 0 ==> model.after_end().pending == 0,
        !model.active && model.pending == 1 ==> {
            &&& model.woken_by_end() == model.wakers
            &&& model.after_end().wakers.len() == 0
        },
        model.active || model.pending != 1 ==> {
            &&& model.woken_by_end().len() == 0
            &&& model.after_end().wakers == model.wakers
        },
{
}

/// Initiating a shutdown twice is the same as once.
pub proof fn law_shutdown_is_idempotent(model: Model)
    ensures
        model.after_shutdown().after_shutdown() == model.after_shutdown(),
{
}

/// No more tasks are pending than the limit allows, in any shutdown.
pub proof fn law_pending_within_limit(shutdown: Shutdown)
    ensures
        shutdown@.pending <= MAX_PENDING,
{
    shutdown.lemma_pending_within_limit();
}

/// Ending a task undoes starting it. Where that completes the shutdown, the wakers leave.
pub proof fn law_end_undoes_start(model: Model)
    requires
        model.has_room(),
    ensures
        model.after_start().after_end() == (Model {
            wakers: if model.complete() {
                Seq::empty()
            } else {
                model.wakers
            },
            ..model
        }),
        model.after_start().woken_by_end() == (if model.complete() {
            model.wakers
        } else {
            Seq::empty()
        }),
{
}

/// A shutdown is not complete after a task has started.
pub proof fn law_started_task_prevents_completion(model: Model)
    ensures
        !model.after_start().complete(),
{
}

/// The stream after the first `n` of a sequence of polls, of which the i-th finds `models[i]`, and
/// `polled[i]` from the wrapped stream.
pub open spec fn stream_after<S, T>(
    stream: GracefulStream<S>,
    models: Seq<Model>,
    polled: Seq<Poll<Option<T>>>,
    n: int,
) -> GracefulStream<S>
    decreases n,
{
    if n <= 0 {
        stream
    } else {
        stream_after(stream, models, polled, n - 1).after_poll(models[n - 1], polled[n - 1])
    }
}

/// What poll `n` of that sequence comes to.
pub open spec fn stream_outcome<S, T>(
    stream: GracefulStream<S>,
    models: Seq<Model>,
    polled: Seq<Poll<Option<T>>>,
    n: int,
) -> Poll<Option<T>> {
    stream_after(stream, models, polled, n).outcome(models[n], polled[n])
}

/// A poll of a stream comes to the end exactly where it leaves the stream ended, and otherwise
/// comes to what the wrapped stream came to and leaves the stream as it is. So a poll that is
/// pending, or gives an item, is never taken for the end: it registers its waker.
pub proof fn law_stream_ends_with_its_end<S, T>(
    stream: GracefulStream<S>,
    model: Model,
    polled: Poll<Option<T>>,
)
    ensures
        stream.ends(model, polled) <==> stream.outcome(model, polled) == Poll::Ready(None::<T>),
        stream.ends(model, polled) <==> stream.after_poll(model, polled).state is Done,
        !stream.ends(model, polled) ==> stream.outcome(model, polled) == polled,
        !stream.ends(model, polled) ==> stream.after_poll(model, polled) == stream,
        stream.state is Running && polled is Pending ==> (stream.ends(model, polled)
            <==> !model.active),
        stream.state is Running && polled is Ready ==> (stream.ends(model, polled) <==> polled
            == Poll::Ready(None::<T>)),
        stream.state is Done ==> stream.ends(model, polled),
{
}

/// A running stream belongs to the shutdown whose number it bears, and an ended one to any.
pub proof fn law_stream_belongs_to_its_shutdown<S>(stream: GracefulStream<S>, model: Model)
    ensures
        stream.belongs_to(model) <==> match stream.state {
            State::Running { id, .. } => id@ == model.id,
            State::Done => true,
        },
{
}

/// From the first poll that comes to the end on, every poll of a stream comes to the end, whatever
/// the shutdown does and whatever is said of the wrapped stream.
pub proof fn law_ended_stream_stays_ended<S, T>(
    stream: GracefulStream<S>,
    models: Seq<Model>,
    polled: Seq<Poll<Option<T>>>,
    i: int,
    j: int,
)
    requires
        0 <= i <= j,
        stream_outcome(stream, models, polled, i) == Poll::Ready(None::<T>),
    ensures
        stream_outcome(stream, models, polled, j) == Poll::Ready(None::<T>),
        i < j ==> stream_after(stream, models, polled, j).state is Done,
    decreases j - i,
{
    if i < j {
        law_ended_stream_stays_ended(stream, models, polled, i, j - 1);
        assert(stream_after(stream, models, polled, j) == stream_after(
            stream,
            models,
            polled,
            j - 1,
        ).after_poll(models[j - 1], polled[j - 1]));
    }
}

/// Until a poll comes to the end, a running stream comes to what the wrapped stream comes to, poll
/// by poll. A poll comes to the end only where the wrapped stream does, or is pending while the
/// shutdown has been initiated.
pub proof fn law_running_stream_is_the_wrapped_stream<S, T>(
    stream: GracefulStream<S>,
    models: Seq<Model>,
    polled: Seq<Poll<Option<T>>>,
    n: int,
)
    requires
        stream.state is Running,
        0 <= n,
        forall|i: int|
            0 <= i < n ==> #[trigger] stream_outcome(stream, models, polled, i) != Poll::Ready(
                None::<T>,
            ),
    ensures
        stream_after(stream, models, polled, n) == stream,
        polled[n] is Pending && !models[n].active ==> stream_outcome(stream, models, polled, n)
            == Poll::Ready(None::<T>),
        !(polled[n] is Pending && !models[n].active) ==> stream_outcome(stream, models, polled, n)
            == polled[n],
    decreases n,
{
    if n > 0 {
        law_running_stream_is_the_wrapped_stream(stream, models, polled, n - 1);
        assert(stream_outcome(stream, models, polled, n - 1) != Poll::Ready(None::<T>));
    }
}

/// While the shutdown stays active, a running stream comes to what the wrapped stream comes to,
/// poll by poll up to and including its end.
pub proof fn law_stream_of_an_active_shutdown<S, T>(
    stream: GracefulStream<S>,
    models: Seq<Model>,
    polled: Seq<Poll<Option<T>>>,
    n: int,
)
    requires
        stream.state is Running,
        0 <= n,
        forall|i: int| 0 <= i <= n ==> (#[trigger] models[i]).active,
        forall|i: int| 0 <= i < n ==> #[trigger] polled[i] != Poll::Ready(None::<T>),
    ensures
        stream_outcome(stream, models, polled, n) == polled[n],
    decreases n,
{
    assert forall|i: int| 0 <= i < n implies #[trigger] stream_outcome(stream, models, polled, i)
        != Poll::Ready(None::<T>) by {
        law_stream_of_an_active_shutdown(stream, models, polled, i);
        assert(polled[i] != Poll::Ready(None::<T>));
    }
    assert(models[n].active);
    law_running_stream_is_the_wrapped_stream(stream, models, polled, n);
}

/// Ending a task where none is pending changes nothing and wakes nobody.
pub proof fn law_nothing_to_end(model: Model)
    requires
        model.pending == 0,
    ensures
        model.after_end() == model,
        model.woken_by_end().len() == 0,
{
}

/// Every state word is the word of its flag and its number of pending tasks.
pub proof fn law_word_of_parts(word: usize)
    ensures
        word_of(word_active(word), word_pending(word)) == word,
        word_pending(word) <= MAX_PENDING,
{
}

/// Every flag and every number of pending tasks within the limit have a word of their own.
pub proof fn law_parts_of_word(active: bool, pending: nat)
    requires
        pending <= MAX_PENDING,
    ensures
        0 <= word_of(active, pending) <= usize::MAX,
        word_active(word_of(active, pending) as usize) == active,
        word_pending(word_of(active, pending) as usize) == pending,
{
}

} // verus!
