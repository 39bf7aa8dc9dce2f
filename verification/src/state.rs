//! The state word: one integer for the flag and the number of pending tasks.
//!
//! The most significant bit is 1 until a shutdown has been initiated. The other bits count the
//! pending tasks.
use vstd::prelude::*;

verus! {

/// The largest number of tasks that can be pending.
pub const MAX_PENDING: usize = usize::MAX / 2;

/// The word of a shutdown that has not been initiated and has no pending tasks.
pub const ACTIVE_STATE: usize = !MAX_PENDING;

/// The flag in a word.
pub open spec fn word_active(word: usize) -> bool {
    word > MAX_PENDING
}

/// The number of pending tasks in a word.
pub open spec fn word_pending(word: usize) -> nat {
    if word_active(word) {
        (word - MAX_PENDING - 1) as nat
    } else {
        word as nat
    }
}

/// The word of a flag and a number of pending tasks.
pub open spec fn word_of(active: bool, pending: nat) -> int {
    if active {
        MAX_PENDING + 1 + pending
    } else {
        pending as int
    }
}

/// The masks split a word into its flag and its number of pending tasks.
pub proof fn lemma_masks(word: usize)
    ensures
        word & MAX_PENDING == word_pending(word),
        word & ACTIVE_STATE == 0 <==> !word_active(word),
{
    let half: usize = MAX_PENDING;
    lemma_half();
    assert(word & half == (if word > half {
        word - half - 1
    } else {
        word as int
    })) by (bit_vector)
        requires
            half == !0usize >> 1,
    ;
    assert((word & !half == 0) <==> word <= half) by (bit_vector)
        requires
            half == !0usize >> 1,
    ;
}

/// The word of a new shutdown in numbers.
pub proof fn lemma_active_state()
    ensures
        ACTIVE_STATE == MAX_PENDING + 1,
{
    let half: usize = MAX_PENDING;
    lemma_half();
    assert(!half == half + 1) by (bit_vector)
        requires
            half == !0usize >> 1,
    ;
}

/// The limit in bits: all but the most significant one.
proof fn lemma_half()
    ensures
        MAX_PENDING == !0usize >> 1,
{
    let top: usize = usize::MAX;
    assert(top <= !0usize && !0usize >> 1 == !0usize / 2) by (bit_vector);
}

} // verus!
