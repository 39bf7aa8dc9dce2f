//! The state of a shutdown and the operations on it.
use std::task::Waker;
use vstd::prelude::*;

use crate::model::Model;
use crate::state::{ACTIVE_STATE, MAX_PENDING};
use crate::state::{lemma_active_state, lemma_masks, word_active, word_pending};
use crate::waker::{recognises, refuses, stands_for};

verus! {

/// The state word and the registered wakers.
pub struct Inner {
    state: usize,
    wakers: Vec<Waker>,
    id: Ghost<int>,
}

impl View for Inner {
    type V = Model;

    closed spec fn view(&self) -> Model {
        Model {
            id: self.id@,
            active: word_active(self.state),
            pending: word_pending(self.state),
            wakers: self.wakers@,
        }
    }
}

impl Inner {
    /// A new state.
    pub fn new() -> (inner: Inner)
        ensures
            inner@ == Model::initial(inner@.id),
    {
        proof {
            lemma_active_state();
        }
        // There probably won't be more than 2 futures waiting at a time.
        Inner { state: ACTIVE_STATE, wakers: Vec::with_capacity(2), id: Ghost(0) }
    }

    /// Clears the flag and hands out all wakers.
    pub fn shutdown(&mut self) -> (woken: Vec<Waker>)
        ensures
            final(self)@ == old(self)@.after_shutdown(),
            woken@ == old(self)@.wakers,
    {
        proof {
            lemma_masks(self.state);
        }
        self.state = self.state & MAX_PENDING;
        self.wake()
    }

    /// Counts one more pending task.
    pub fn start_task(&mut self)
        requires
            old(self)@.has_room(),
        ensures
            final(self)@ == old(self)@.after_start(),
    {
        self.state = self.state + 1;
    }

    /// Counts one pending task less, where there is one, and hands out all wakers if that completes
    /// the shutdown.
    pub fn end_task(&mut self) -> (woken: Vec<Waker>)
        ensures
            final(self)@ == old(self)@.after_end(),
            woken@ == old(self)@.woken_by_end(),
    {
        let previous: usize = self.state;
        if self.num_pending() == 0 {
            return Vec::new();
        }
        self.state = previous - 1;
        if previous == 1 {
            self.wake()
        } else {
            Vec::new()
        }
    }

    /// Hands out all wakers, oldest first.
    pub fn wake(&mut self) -> (woken: Vec<Waker>)
        ensures
            final(self)@ == (Model { wakers: Seq::empty(), ..old(self)@ }),
            woken@ == old(self)@.wakers,
    {
        let mut woken: Vec<Waker> = Vec::new();
        std::mem::swap(&mut woken, &mut self.wakers);
        woken
    }

    /// The flag is cleared.
    pub fn is_shutting_down(&self) -> (result: bool)
        ensures
            result == !self@.active,
    {
        proof {
            lemma_masks(self.state);
        }
        self.state & ACTIVE_STATE == 0
    }

    /// The flag is cleared and no task is pending.
    pub fn is_complete(&self) -> (result: bool)
        ensures
            result == self@.complete(),
    {
        self.state == 0
    }

    /// The number of pending tasks.
    pub fn num_pending(&self) -> (result: usize)
        ensures
            result == self@.pending,
            result <= MAX_PENDING,
    {
        proof {
            lemma_masks(self.state);
        }
        self.state & MAX_PENDING
    }

    /// No more tasks are pending than the limit allows.
    pub proof fn lemma_pending_within_limit(&self)
        ensures
            self@.pending <= MAX_PENDING,
    {
    }

    /// Registers `waker`, unless a registered waker wakes the same task.
    pub fn add_waker(&mut self, waker: &Waker)
        ensures
            old(self)@.registers(*waker, final(self)@),
            final(self)@.awaited_by(*waker),
    {
        let mut i: usize = 0;
        while i < self.wakers.len()
            invariant
                i <= self.wakers.len(),
                self@ == old(self)@,
                self@.wakers == self.wakers@,
                forall|j: int| 0 <= j < i ==> refuses(#[trigger] self@.wakers[j], *waker),
            decreases self.wakers.len() - i,
        {
            if self.wakers[i].will_wake(waker) {
                assert(recognises(self@.wakers[i as int], *waker));
                assert(stands_for(self@.wakers[i as int], *waker));
                return;
            }
            i += 1;
        }
        self.wakers.push(waker.clone());
        assert(self@.wakers.drop_last() =~= old(self)@.wakers);
        assert(stands_for(self@.wakers[i as int], *waker));
    }
}

} // verus!
