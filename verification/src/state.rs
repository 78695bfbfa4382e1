//! The flags word shared by the two handles of a pair, and the decisions that
//! the handles take from the word an atomic operation hands back.
//!
//! Bit `ALIVE_FLAG` is set while both handles exist; bit `UNLOCKED_FLAG` is set
//! while no guard holds the lock. Every change to the word is one atomic
//! read-modify-write whose effect is one of `after_lock`, `after_unlock` or
//! `after_detach` below.
use vstd::prelude::*;

verus! {

/// Both sides of the pair are alive, i.e. neither handle was dropped.
pub const ALIVE_FLAG: u8 = 0b01;

/// The pair is unlocked, i.e. a guard can be acquired.
pub const UNLOCKED_FLAG: u8 = 0b10;

/// The word of a fresh pair: both handles alive, no guard.
pub const INITIAL_STATE: u8 = 0b11;

/// The mask that taking the lock applies with `fetch_and`.
pub const LOCK_MASK: u8 = 0b1111_1101;

/// The mask that dropping a handle applies with `fetch_and`.
pub const DETACH_MASK: u8 = 0b1111_1110;

/// Both handles exist.
pub open spec fn is_alive(state: u8) -> bool {
    state & ALIVE_FLAG == ALIVE_FLAG
}

/// No guard holds the lock.
pub open spec fn is_unlocked(state: u8) -> bool {
    state & UNLOCKED_FLAG == UNLOCKED_FLAG
}

/// The word after an attempt to take the lock: the unlocked bit cleared.
pub open spec fn after_lock(state: u8) -> u8 {
    state & LOCK_MASK
}

/// The word after a guard gave the lock back: the unlocked bit set.
pub open spec fn after_unlock(state: u8) -> u8 {
    state | UNLOCKED_FLAG
}

/// The word after one handle was dropped: the alive bit cleared.
pub open spec fn after_detach(state: u8) -> u8 {
    state & DETACH_MASK
}

/// What each transition does to the two flags, and what it leaves alone.
pub proof fn lemma_flags(state: u8)
    ensures
        !is_unlocked(after_lock(state)),
        is_alive(after_lock(state)) == is_alive(state),
        !is_unlocked(state) ==> after_lock(state) == state,
        is_unlocked(after_unlock(state)),
        is_alive(after_unlock(state)) == is_alive(state),
        !is_alive(after_detach(state)),
        is_unlocked(after_detach(state)) == is_unlocked(state),
        !is_alive(state) ==> after_detach(state) == state,
{
    assert(!is_unlocked(after_lock(state))) by (bit_vector);
    assert(is_alive(after_lock(state)) == is_alive(state)) by (bit_vector);
    assert(!is_unlocked(state) ==> after_lock(state) == state) by (bit_vector);
    assert(is_unlocked(after_unlock(state))) by (bit_vector);
    assert(is_alive(after_unlock(state)) == is_alive(state)) by (bit_vector);
    assert(!is_alive(after_detach(state))) by (bit_vector);
    assert(is_unlocked(after_detach(state)) == is_unlocked(state)) by (bit_vector);
    assert(!is_alive(state) ==> after_detach(state) == state) by (bit_vector);
}

/// Taking the lock and giving it back leaves the word as it was, when the lock
/// was free to take.
pub proof fn lemma_unlock_undoes_lock(state: u8)
    requires
        is_unlocked(state),
    ensures
        after_unlock(after_lock(state)) == state,
{
    assert(is_unlocked(state) ==> after_unlock(after_lock(state)) == state) by (bit_vector);
}

/// Dropping a handle does not interfere with the lock: detaching commutes with
/// taking and with giving back the lock.
pub proof fn lemma_detach_commutes(state: u8)
    ensures
        after_detach(after_lock(state)) == after_lock(after_detach(state)),
        after_detach(after_unlock(state)) == after_unlock(after_detach(state)),
{
    assert(after_detach(after_lock(state)) == after_lock(after_detach(state))) by (bit_vector);
    assert(after_detach(after_unlock(state)) == after_unlock(after_detach(state)))
        by (bit_vector);
}

/// The fresh word: both handles alive and the lock free.
pub proof fn lemma_initial_state()
    ensures
        is_alive(INITIAL_STATE),
        is_unlocked(INITIAL_STATE),
        INITIAL_STATE == ALIVE_FLAG | UNLOCKED_FLAG,
        LOCK_MASK == !UNLOCKED_FLAG,
        DETACH_MASK == !ALIVE_FLAG,
{
    assert(INITIAL_STATE & ALIVE_FLAG == ALIVE_FLAG) by (bit_vector);
    assert(INITIAL_STATE & UNLOCKED_FLAG == UNLOCKED_FLAG) by (bit_vector);
    assert(INITIAL_STATE == ALIVE_FLAG | UNLOCKED_FLAG) by (bit_vector);
    assert(LOCK_MASK == !UNLOCKED_FLAG) by (bit_vector);
    assert(DETACH_MASK == !ALIVE_FLAG) by (bit_vector);
}

/// Whether the attempt to take the lock that `fetch_and(LOCK_MASK)` made, and
/// that returned `previous`, won it: it did exactly when the lock was free.
pub fn lock_acquired(previous: u8) -> (won: bool)
    ensures
        won == is_unlocked(previous),
    opens_invariants none
    no_unwind
{
    previous & UNLOCKED_FLAG == UNLOCKED_FLAG
}

/// Whether the handle whose `fetch_and(DETACH_MASK)` returned `previous` was the
/// last one of its pair, and so must release the value.
pub fn is_last_handle(previous: u8) -> (last: bool)
    ensures
        last == !is_alive(previous),
    opens_invariants none
    no_unwind
{
    previous & ALIVE_FLAG != ALIVE_FLAG
}

/// Whether the word `state` says that the paired handle is still alive.
pub fn paired_handle_alive(state: u8) -> (alive: bool)
    ensures
        alive == is_alive(state),
    opens_invariants none
    no_unwind
{
    state & ALIVE_FLAG == ALIVE_FLAG
}

} // verus!
