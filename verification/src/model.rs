//! The mathematical model of a shutdown, and what each operation does to it.
use std::task::Waker;
use vstd::prelude::*;

use crate::state::MAX_PENDING;
use crate::waker::{recognises, refuses, stands_for};

verus! {

/// A shutdown as the contracts see it.
#[verifier::ext_equal]
pub struct Model {
    /// Which shutdown this is. A guard, future or stream bears the number of the shutdown that
    /// made it, and nothing else is known of the number.
    pub id: int,
    /// No shutdown has been initiated.
    pub active: bool,
    /// The number of tasks that the shutdown waits for.
    pub pending: nat,
    /// The registered wakers, oldest first.
    pub wakers: Seq<Waker>,
}

impl Model {
    /// A new shutdown: not initiated, nothing pending, nobody waiting.
    pub open spec fn initial(id: int) -> Model {
        Model { id, active: true, pending: 0, wakers: Seq::empty() }
    }

    /// The shutdown has been initiated and no task is pending.
    pub open spec fn complete(self) -> bool {
        !self.active && self.pending == 0
    }

    /// The shutdown has been initiated and exactly one task is pending.
    pub open spec fn on_last_task(self) -> bool {
        !self.active && self.pending == 1
    }

    /// One more task can be started.
    pub open spec fn has_room(self) -> bool {
        self.pending < MAX_PENDING
    }

    /// The model after the shutdown is initiated. All wakers leave.
    pub open spec fn after_shutdown(self) -> Model {
        Model { active: false, wakers: Seq::empty(), ..self }
    }

    /// The model after a task is started.
    pub open spec fn after_start(self) -> Model {
        Model { pending: self.pending + 1, ..self }
    }

    /// The model after a task is ended. All wakers leave with the last task of an initiated
    /// shutdown. With no task pending there is none to end, and nothing changes.
    pub open spec fn after_end(self) -> Model {
        if self.pending == 0 {
            self
        } else {
            Model {
                pending: (self.pending - 1) as nat,
                wakers: if self.on_last_task() {
                    Seq::empty()
                } else {
                    self.wakers
                },
                ..self
            }
        }
    }

    /// The wakers that ending a task hands out: all of them where that completes the shutdown.
    pub open spec fn woken_by_end(self) -> Seq<Waker> {
        if self.on_last_task() {
            self.wakers
        } else {
            Seq::empty()
        }
    }

    /// `next` is this model after `waker` has been registered: it is the same where a registered
    /// waker said that it wakes the same task, and holds a clone of `waker` at the end where all
    /// of them denied it.
    pub open spec fn registers(self, waker: Waker, next: Model) -> bool {
        &&& next.id == self.id
        &&& next.active == self.active
        &&& next.pending == self.pending
        &&& {
            ||| next.wakers == self.wakers && self.recognised(waker)
            ||| next.wakers.len() == self.wakers.len() + 1 && next.wakers.drop_last() == self.wakers
                && cloned(waker, next.wakers.last()) && self.refused(waker)
        }
    }

    /// Asked one by one from the oldest, some registered waker says that it wakes the same task.
    pub open spec fn recognised(self, waker: Waker) -> bool {
        exists|i: int|
            0 <= i < self.wakers.len() && recognises(#[trigger] self.wakers[i], waker) && (
            forall|j: int| 0 <= j < i ==> refuses(#[trigger] self.wakers[j], waker))
    }

    /// Every registered waker denies that it wakes the same task.
    pub open spec fn refused(self, waker: Waker) -> bool {
        forall|i: int| 0 <= i < self.wakers.len() ==> refuses(#[trigger] self.wakers[i], waker)
    }

    /// Some registered waker stands for `waker`.
    pub open spec fn awaited_by(self, waker: Waker) -> bool {
        contains_stand_in(self.wakers, waker)
    }
}

/// No waker of the sequence is taken for a later one: each denies that it wakes the task of any
/// waker behind it.
pub open spec fn distinct(wakers: Seq<Waker>) -> bool {
    forall|i: int, j: int|
        0 <= i < j < wakers.len() ==> refuses(#[trigger] wakers[i], #[trigger] wakers[j])
}

/// Some waker of the sequence stands for `waker`.
pub open spec fn contains_stand_in(wakers: Seq<Waker>, waker: Waker) -> bool {
    exists|i: int| 0 <= i < wakers.len() && stands_for(#[trigger] wakers[i], waker)
}

} // verus!
