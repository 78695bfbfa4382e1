//! The std primitives that hold a pair's shared state, each behind a trusted item.
//!
//! The flags word is a `std::sync::atomic::AtomicU8`; the value is parked in a
//! `std::sync::Mutex<Option<T>>` while no guard holds it. The flag protocol
//! guarantees that only the side that owns the lock touches the slot, so the
//! mutex is never contended: it is the safe stand-in for an `UnsafeCell`.
//!
//! What another thread does to these objects is not a function of the
//! arguments, so the contracts below state only what holds of every outcome.
//! The release paths run inside `Drop`, which must not unwind; each item used
//! there states that it does not unwind.
use std::sync::atomic::AtomicU8;
use std::sync::{Arc, Mutex, MutexGuard};
use vstd::prelude::*;

verus! {

#[verifier::external_type_specification]
#[verifier::external_body]
#[verifier::reject_recursive_types(T)]
pub struct ExMutex<T: ?Sized>(Mutex<T>);

#[verifier::external_type_specification]
#[verifier::external_body]
#[verifier::reject_recursive_types(T)]
pub struct ExMutexGuard<'a, T: ?Sized + 'a>(MutexGuard<'a, T>);

/// `AtomicU8::fetch_and` with `AcqRel` ordering: in one atomic step, stores
/// the word it finds with the bits of `mask` kept and all others cleared, and
/// returns the word it found. Which word that is depends on the other thread,
/// so it is not claimed; what is claimed is the word the step left, `found &
/// mask`, returned as a ghost value beside it. Atomic read-modify-write
/// operations never panic (`no_unwind`).
#[verifier::external_body]
pub(crate) fn state_fetch_and(state: &AtomicU8, mask: u8) -> (step: (u8, Ghost<u8>))
    ensures
        step.1@ == step.0 & mask,
    opens_invariants none
    no_unwind
{
    let found = state.fetch_and(mask, std::sync::atomic::Ordering::AcqRel);
    (found, Ghost(found & mask))
}

/// `AtomicU8::fetch_or` with `Release` ordering: in one atomic step, stores the
/// word it finds with the bits of `bits` set, and returns the word it found (not
/// claimed, as at `state_fetch_and`); the word left, `found | bits`, comes back
/// as a ghost value. It never panics.
#[verifier::external_body]
pub(crate) fn state_fetch_or(state: &AtomicU8, bits: u8) -> (step: (u8, Ghost<u8>))
    ensures
        step.1@ == step.0 | bits,
    opens_invariants none
    no_unwind
{
    let found = state.fetch_or(bits, std::sync::atomic::Ordering::Release);
    (found, Ghost(found | bits))
}

/// `Mutex::new`: a new, unlocked mutex around `value`. A `Mutex` is opaque to
/// these specifications and what it holds has no model here, so that the
/// mutex holds `value` is left unsaid.
#[verifier::external_body]
pub(crate) fn slot_new<T>(value: Option<T>) -> Mutex<Option<T>> {
    Mutex::new(value)
}

/// `Mutex::try_lock`, which never blocks and never panics. `None` stands for
/// `TryLockError::WouldBlock`; a poisoned mutex is entered anyway through
/// `PoisonError::into_inner`, since what it protects is a plain `Option` that no
/// code of this library leaves half-written. Whether the mutex was free depends
/// on the other thread: not claimed.
#[verifier::external_body]
pub(crate) fn slot_try_lock<'a, S>(slot: &'a Mutex<S>) -> (entered: Option<MutexGuard<'a, S>>)
    opens_invariants none
    no_unwind
{
    match slot.try_lock() {
        Ok(guard) => Some(guard),
        Err(std::sync::TryLockError::Poisoned(poisoned)) => Some(poisoned.into_inner()),
        Err(std::sync::TryLockError::WouldBlock) => None,
    }
}

/// `DerefMut::deref_mut` of a `MutexGuard`: the protected value, mutably, for as
/// long as the guard is borrowed. The mutex is opaque here, so what the value is
/// is not claimed. It never panics.
#[verifier::external_body]
pub(crate) fn slot_contents<'b, 'a, S>(guard: &'b mut MutexGuard<'a, S>) -> &'b mut S
    opens_invariants none
    no_unwind
{
    &mut **guard
}

/// `Arc::ptr_eq`: true when both point to the same allocation. Specification
/// equality compares two `Arc`s by what they point to, so the claim is that a `true` result means
/// the two are equal; the converse (equal contents in two allocations) is not a
/// fact about pointers and is not claimed.
#[verifier::external_body]
pub(crate) fn same_allocation<T>(a: &Arc<T>, b: &Arc<T>) -> (same: bool)
    ensures
        same ==> *a == *b,
{
    Arc::ptr_eq(a, b)
}

/// `core::ptr::eq` on two flag words: true when both references point to the
/// same atomic. As at `same_allocation`, only `true ==> equal` is claimed.
#[verifier::external_body]
pub(crate) fn same_state(a: &AtomicU8, b: &AtomicU8) -> (same: bool)
    ensures
        same ==> *a == *b,
{
    core::ptr::eq(a, b)
}

/// Whether `text` is a debug representation of a value of the type called
/// `name`: the name, then ` { ptr: `, then a non-empty address, then ` }`.
pub open spec fn is_debug_text(name: Seq<char>, text: Seq<char>) -> bool {
    exists|address: Seq<char>|
        address.len() > 0 && text == name + " { ptr: "@ + address + " }"@
}

/// `format!("{:p}", state)`: the address of `state` as pointer formatting
/// prints it, which is never empty (at least `0x` and one digit). The address
/// itself depends on the machine and the run and is not claimed.
#[verifier::external_body]
pub(crate) fn address_text(state: &AtomicU8) -> (text: String)
    ensures
        text@.len() > 0,
{
    format!("{:p}", state)
}

} // verus!
