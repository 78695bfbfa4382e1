//! The two linked handles, their guards, and the operations on them.
use std::sync::atomic::AtomicU8;
use std::sync::{Arc, Mutex};
use vstd::prelude::*;

use crate::private;
use crate::state::{
    after_detach, after_lock, after_unlock, is_alive, is_unlocked, is_last_handle, lock_acquired, paired_handle_alive, DETACH_MASK, INITIAL_STATE, LOCK_MASK,
    UNLOCKED_FLAG,
};
use crate::sync::{
    address_text, is_debug_text, same_allocation, same_state, slot_contents, slot_new, slot_try_lock,
    state_fetch_and, state_fetch_or,
};

verus! {

/// What the two handles of a pair share: the flags word, and the slot in which
/// the value waits while no guard holds it.
#[verifier::reject_recursive_types(T)]
pub struct Inner<T> {
    state: AtomicU8,
    slot: Mutex<Option<T>>,
}

/// Takes the value out of the slot. `None` when the slot was empty or busy, which
/// the flag protocol rules out for the side that has just won the lock.
fn slot_take<T>(inner: &Inner<T>) -> Option<T>
    opens_invariants none
    no_unwind
{
    match slot_try_lock(&inner.slot) {
        Some(mut entered) => {
            let contents = slot_contents(&mut entered);
            let mut taken: Option<T> = None;
            std::mem::swap(contents, &mut taken);
            taken
        },
        None => None,
    }
}

/// Puts `value` into the slot; `false` when the slot was busy, which the flag
/// protocol rules out for the side that holds the lock.
fn slot_put<T>(inner: &Inner<T>, value: T) -> (stored: bool)
    opens_invariants none
    no_unwind
{
    match slot_try_lock(&inner.slot) {
        Some(mut entered) => {
            let contents = slot_contents(&mut entered);
            let mut put = Some(value);
            std::mem::swap(contents, &mut put);
            true
        },
        None => false,
    }
}

/// The trace of the atomic step that gives the lock back: the word it found and
/// the word it left.
pub(crate) open spec fn is_unlock_step(step: (u8, u8)) -> bool {
    step.1 == after_unlock(step.0)
}

/// What an attempt to take the lock did: the word its `fetch_and` found and the
/// word that step left, what the slot yielded, the step that gave the lock back
/// if the attempt had to, and the value if the lock was won.
///
/// The ghost parts are a trace: each is computed from an exec result (the word
/// found) and the argument the step was given (its mask, the unlocked bit), so
/// they state which step the code asked for and what that step leaves. A trace
/// is still only ghost data; it does not by itself witness that the atomic
/// step ran, nor what the other thread did in between.
#[verifier::reject_recursive_types(T)]
struct Attempt<T> {
    found: u8,
    left: Ghost<u8>,
    taken: Ghost<Option<T>>,
    gave_back: Ghost<Option<(u8, u8)>>,
    value: Option<T>,
}

/// Settles an attempt whose `fetch_and` found the word `found`, given what was
/// taken from the slot (`None` when the lock was not won, so nothing was
/// taken). The value is handed on exactly when the lock was won and the slot
/// held it; when the lock was won and the slot was empty, the lock is given back
/// with one `fetch_or` of the unlocked bit, whose trace is returned.
fn settle_attempt<T>(inner: &Inner<T>, found: u8, taken: Option<T>) -> (settled: (
    Option<T>,
    Ghost<Option<(u8, u8)>>,
))
    ensures
        settled.0 is Some <==> is_unlocked(found) && taken is Some,
        settled.0 is Some ==> settled.0 == taken,
        settled.1@ is Some <==> is_unlocked(found) && taken is None,
        settled.1@ matches Some(step) ==> is_unlock_step(step),
{
    if !lock_acquired(found) {
        return (None, Ghost(None));
    }
    match taken {
        Some(value) => (Some(value), Ghost(None)),
        None => {
            let (back_found, back_left) = state_fetch_or(&inner.state, UNLOCKED_FLAG);
            (None, Ghost(Some((back_found, back_left@))))
        },
    }
}

/// Tries to take the lock of the pair: one `fetch_and(LOCK_MASK)`, which clears
/// the unlocked bit and leaves every other bit alone; when the word it found had
/// the unlocked bit set, the lock is won and the value is taken out of the slot,
/// and the slot is not consulted otherwise. See `Attempt` for what the ghost
/// parts of the result do and do not witness.
fn acquire<T>(inner: &Inner<T>) -> (attempt: Attempt<T>)
    ensures
        attempt.left@ == after_lock(attempt.found),
        !is_unlocked(attempt.found) ==> attempt.taken@ is None,
        attempt.value is Some <==> is_unlocked(attempt.found) && attempt.taken@ is Some,
        attempt.value is Some ==> attempt.value == attempt.taken@,
        attempt.gave_back@ is Some <==> is_unlocked(attempt.found) && attempt.taken@ is None,
        attempt.gave_back@ matches Some(step) ==> is_unlock_step(step),
{
    let (found, left) = state_fetch_and(&inner.state, LOCK_MASK);
    let taken = if lock_acquired(found) {
        slot_take(inner)
    } else {
        None
    };
    let ghost yielded = taken;
    let (value, gave_back) = settle_attempt(inner, found, taken);
    Attempt { found, left, taken: Ghost(yielded), gave_back, value }
}

/// Gives the lock back: the value into the slot, then, when it was stored, one
/// `fetch_or` of the unlocked bit, whose trace is returned (see `Attempt` for
/// what a trace does and does not witness). When the slot is busy, which the
/// flag protocol rules out for the side that holds the lock but which no proof
/// here excludes, the value is dropped and the lock stays taken.
fn release<T>(inner: &Inner<T>, value: T) -> (trace: (bool, Ghost<Option<(u8, u8)>>))
    ensures
        trace.1@ is Some <==> trace.0,
        trace.1@ matches Some(step) ==> is_unlock_step(step),
    opens_invariants none
    no_unwind
{
    if slot_put(inner, value) {
        let (found, left) = state_fetch_or(&inner.state, UNLOCKED_FLAG);
        (true, Ghost(Some((found, left@))))
    } else {
        (false, Ghost(None))
    }
}

/// The debug text of a value of the type called `name` whose pair has the flags
/// word `state`: the name, ` { ptr: `, the word's address and ` }`.
fn debug_ptr(name: &str, state: &AtomicU8) -> (text: String)
    ensures
        is_debug_text(name@, text@),
{
    let address = address_text(state);
    let mut text = name.to_owned();
    text.append(" { ptr: ");
    text.append(address.as_str());
    text.append(" }");
    assert(text@ == name@ + " { ptr: "@ + address@ + " }"@);
    text
}

/// The value that a guard holds, together with the pair it came from. Dropping
/// a `Hold` that still has its value gives the lock back. The value is boxed so
/// that the guards are `Unpin` whatever `T` is, as the handles are.
#[verifier::reject_recursive_types(T)]
struct Hold<T> {
    home: Arc<Inner<T>>,
    value: Option<Box<T>>,
}

impl<T> Hold<T> {
    /// The held value, mutably; the `Hold` keeps it.
    fn value_mut(&mut self) -> (value: &mut T)
        requires
            old(self).value is Some,
        ensures
            *value == *old(self).value->0,
            *final(self).value->0 == *final(value),
            final(self).value is Some,
            final(self).home == old(self).home,
        opens_invariants none
        no_unwind
    {
        match &mut self.value {
            Some(value) => &mut **value,
            None => unreached(),
        }
    }

    /// Takes the value out, leaving the `Hold` empty, so that dropping it gives
    /// nothing back.
    fn take_value(&mut self) -> (value: Option<Box<T>>)
        ensures
            value == old(self).value,
            final(self).value is None,
            final(self).home == old(self).home,
        opens_invariants none
        no_unwind
    {
        let mut value: Option<Box<T>> = None;
        std::mem::swap(&mut self.value, &mut value);
        value
    }

    /// Gives the lock back, if the `Hold` still has the value: hands that
    /// value to `release`, and returns what `release` did. With no value, it
    /// does nothing.
    fn give_back(&mut self) -> (trace: Option<(bool, Ghost<Option<(u8, u8)>>)>)
        ensures
            final(self).value is None,
            final(self).home == old(self).home,
            trace is Some <==> old(self).value is Some,
            trace matches Some(t) ==> (t.1@ is Some <==> t.0),
            trace matches Some(t) ==> (t.1@ matches Some(step) ==> is_unlock_step(step)),
        opens_invariants none
        no_unwind
    {
        match self.take_value() {
            Some(value) => Some(release(&self.home, *value)),
            None => None,
        }
    }
}

impl<T> Drop for Hold<T> {
    fn drop(&mut self)
        opens_invariants none
        no_unwind
    {
        let _ = self.give_back();
    }
}

/// One of the two linked handles that share ownership of a value behind a
/// spin-lock. It behaves like `Arc<Mutex<T>>`, but it is neither `Clone` nor
/// `Default`: there are exactly two handles to each value.
#[verifier::reject_recursive_types(T)]
pub struct Bilock<T> {
    inner: Arc<Inner<T>>,
}

/// Guard that holds the lock and gives it back when it is dropped.
#[verifier::reject_recursive_types(T)]
pub struct Guard<'a, T> {
    hold: Hold<T>,
    handle: &'a mut Bilock<T>,
}

/// Owned lock guard: holds the lock and the handle until it is dropped or
/// unlocked.
#[verifier::reject_recursive_types(T)]
pub struct OwnedGuard<T> {
    hold: Hold<T>,
    handle: Bilock<T>,
}

impl<T> Bilock<T> {
    /// The shared part of the pair this handle belongs to, as a spec value. The
    /// two handles of one pair, and their guards, have equal values; equal values
    /// do not by themselves identify one pair, since the atomic word and the
    /// slot inside are opaque here.
    pub closed spec fn pair(&self) -> Inner<T> {
        *self.inner
    }

    /// Returns the two handles of a new pair; once both are dropped, the
    /// contained value is dropped.
    pub fn new(value: T) -> (handles: (Self, Self))
        ensures
            handles.0.pair() == handles.1.pair(),
    {
        let inner = Arc::new(Inner { state: AtomicU8::new(INITIAL_STATE), slot: slot_new(Some(value)) });
        let other = inner.clone();
        (Bilock { inner }, Bilock { inner: other })
    }

    /// If the pair is unlocked, takes the lock and returns a guard; otherwise
    /// returns `self` back. That is useful in loops.
    pub fn do_try_lock(&mut self) -> (result: Result<Guard<'_, T>, &mut Self>)
        ensures
            match result {
                Ok(guard) => guard.pair() == old(self).pair(),
                Err(handle) => *handle == *old(self) && *final(self) == *final(handle),
            },
    {
        let attempt = acquire(&self.inner);
        self.guard_from(attempt.value)
    }

    /// Turns what an attempt took into a guard: `Ok` exactly when it took the
    /// value, and the guard then holds that value.
    fn guard_from(&mut self, taken: Option<T>) -> (result: Result<Guard<'_, T>, &mut Self>)
        ensures
            result is Ok <==> taken is Some,
            match result {
                Ok(guard) => guard.pair() == old(self).pair() && guard.value() == taken->0,
                Err(handle) => *handle == *old(self) && *final(self) == *final(handle),
            },
    {
        match taken {
            Some(value) => {
                let home = self.inner.clone();
                Ok(Guard { hold: Hold { home, value: Some(Box::new(value)) }, handle: self })
            },
            None => Err(self),
        }
    }

    /// If the pair is unlocked, takes the lock and returns a guard.
    pub fn try_lock(&mut self) -> (guard: Option<Guard<'_, T>>)
        ensures
            guard matches Some(g) ==> g.pair() == old(self).pair(),
            guard is None ==> *final(self) == *old(self),
    {
        match self.do_try_lock() {
            Ok(guard) => Some(guard),
            Err(_) => None,
        }
    }

    /// If the pair is unlocked, consumes `self` and returns an owned guard that
    /// holds the lock.
    ///
    /// # Errors
    ///
    /// If a lock is held, then `self` is returned back.
    pub fn try_owned_lock(self) -> (result: Result<OwnedGuard<T>, Self>)
        ensures
            match result {
                Ok(guard) => guard.pair() == self.pair(),
                Err(handle) => handle == self,
            },
    {
        let attempt = acquire(&self.inner);
        Self::owned_guard_from(self, attempt.value)
    }

    /// Turns what an attempt took into an owned guard: `Ok` exactly when it
    /// took the value, and the guard then holds that value.
    fn owned_guard_from(handle: Self, taken: Option<T>) -> (result: Result<OwnedGuard<T>, Self>)
        ensures
            result is Ok <==> taken is Some,
            match result {
                Ok(guard) => guard.pair() == handle.pair() && guard.value() == taken->0,
                Err(h) => h == handle,
            },
    {
        match taken {
            Some(value) => {
                let home = handle.inner.clone();
                Ok(OwnedGuard { hold: Hold { home, value: Some(Box::new(value)) }, handle })
            },
            None => Err(handle),
        }
    }

    /// If `guard` and `other` come from the same `Bilock::new()` call, then
    /// the contained value is returned.
    ///
    /// # Errors
    ///
    /// If `guard` and `other` are not the result of the same `Bilock::new()`
    /// call, then they are returned unchanged.
    pub fn join(guard: OwnedGuard<T>, other: Self) -> (result: Result<T, (OwnedGuard<T>, Self)>)
        ensures
            match result {
                Ok(value) => value == guard.value() && guard.pair() == other.pair(),
                Err((g, o)) => g == guard && o == other,
            },
    {
        if same_allocation(&guard.handle.inner, &other.inner) {
            Ok(Self::join_unchecked(guard, other))
        } else {
            Err((guard, other))
        }
    }

    /// Consumes an owned guard and the paired handle, and returns the value
    /// without checking that the two belong to the same pair. If they do not,
    /// `other` is just dropped and the pair of `guard` stays locked for good.
    pub fn join_unchecked(guard: OwnedGuard<T>, other: Self) -> (value: T)
        ensures
            value == guard.value(),
    {
        {
            let _dropped = other;
        }
        Self::into_inner_unchecked(guard)
    }

    /// Consumes an owned guard and returns the value, if the other side of the
    /// pair has already been dropped.
    ///
    /// # Errors
    ///
    /// If the paired handle is still alive, the guard is returned unchanged.
    pub fn into_inner(guard: OwnedGuard<T>) -> (result: Result<T, OwnedGuard<T>>)
        ensures
            match result {
                Ok(value) => value == guard.value(),
                Err(g) => g == guard,
            },
    {
        let observed = guard.hold.home.state.load(std::sync::atomic::Ordering::Acquire);
        Self::into_inner_observed(guard, observed)
    }

    /// What `into_inner` does once it has loaded the flags word `observed`:
    /// hands out the value exactly when that word says the paired handle is gone,
    /// and otherwise returns the guard unchanged.
    pub fn into_inner_observed(guard: OwnedGuard<T>, observed: u8) -> (result: Result<T, OwnedGuard<T>>)
        ensures
            result is Ok <==> !is_alive(observed),
            match result {
                Ok(value) => value == guard.value(),
                Err(g) => g == guard,
            },
    {
        if paired_handle_alive(observed) {
            Err(guard)
        } else {
            Ok(Self::into_inner_unchecked(guard))
        }
    }

    /// Consumes an owned guard and returns the value without checking whether
    /// the paired handle is still alive. If it is, the pair stays locked for good.
    pub fn into_inner_unchecked(guard: OwnedGuard<T>) -> (value: T)
        ensures
            value == guard.value(),
    {
        proof {
            use_type_invariant(&guard);
        }
        let OwnedGuard { hold, handle: _ } = guard;
        let mut hold = hold;
        match hold.take_value() {
            Some(value) => *value,
            None => unreached(),
        }
    }

    /// A debug representation: the type's name and the address of the pair.
    pub fn debug_string(&self) -> (text: String)
        ensures
            is_debug_text("Bilock"@, text@),
    {
        debug_ptr("Bilock", &self.inner.state)
    }
}

/// Drops a handle: one `fetch_and(DETACH_MASK)`, which clears the alive bit and
/// leaves every other bit alone. Returns the word it found, the trace of the
/// word it left, and whether it emptied the slot, which it does exactly when the
/// alive bit was already clear: the handle was the last one of its pair and
/// drops the value. As at `Attempt`, the ghost word is a trace of the step asked
/// for, not a witness that it ran.
fn detach<T>(inner: &Inner<T>) -> (trace: (u8, Ghost<u8>, bool))
    ensures
        trace.1@ == after_detach(trace.0),
        trace.2 == !is_alive(trace.0),
    opens_invariants none
    no_unwind
{
    let (found, left) = state_fetch_and(&inner.state, DETACH_MASK);
    if is_last_handle(found) {
        let _value = slot_take(inner);
        (found, left, true)
    } else {
        (found, left, false)
    }
}

impl<T> Drop for Bilock<T> {
    /// Detaches the handle from its pair (see `detach`); the handle itself is
    /// left as it was.
    fn drop(&mut self)
        ensures
            final(self).pair() == old(self).pair(),
        opens_invariants none
        no_unwind
    {
        let _ = detach(&self.inner);
    }
}

impl<'a, T> Guard<'a, T> {
    #[verifier::type_invariant]
    spec fn holds_value(self) -> bool {
        &&& self.hold.value is Some
        &&& *self.hold.home == *self.handle.inner
    }

    /// The shared part of the pair whose lock this guard holds, as a spec value
    /// (see `Bilock::pair`).
    pub closed spec fn pair(&self) -> Inner<T> {
        *self.hold.home
    }

    /// The value behind the guard.
    pub closed spec fn value(&self) -> T {
        *self.hold.value->0
    }

    /// Releases the lock by dropping the guard explicitly. This is the same as
    /// dropping the guard.
    pub fn unlock(guard: Self) {
        let Guard { hold, handle: _ } = guard;
        let mut hold = hold;
        hold.give_back();
    }

    /// A debug representation: the type's name and the address of the pair.
    pub fn debug_string(&self) -> (text: String)
        ensures
            is_debug_text("Guard"@, text@),
    {
        debug_ptr("Guard", &self.handle.inner.state)
    }
}

impl<T> OwnedGuard<T> {
    #[verifier::type_invariant]
    spec fn holds_value(self) -> bool {
        &&& self.hold.value is Some
        &&& *self.hold.home == *self.handle.inner
    }

    /// The shared part of the pair whose lock this guard holds, as a spec value
    /// (see `Bilock::pair`).
    pub closed spec fn pair(&self) -> Inner<T> {
        *self.handle.inner
    }

    /// The value behind the guard.
    pub closed spec fn value(&self) -> T {
        *self.hold.value->0
    }

    /// Releases the lock and returns the handle.
    pub fn unlock(guard: Self) -> (handle: Bilock<T>)
        ensures
            handle.pair() == guard.pair(),
    {
        let OwnedGuard { hold, handle } = guard;
        let mut hold = hold;
        hold.give_back();
        handle
    }

    /// A debug representation: the type's name and the address of the pair.
    pub fn debug_string(&self) -> (text: String)
        ensures
            is_debug_text("OwnedGuard"@, text@),
    {
        debug_ptr("OwnedGuard", &self.hold.home.state)
    }
}

impl<'a, T> std::ops::Deref for Guard<'a, T> {
    type Target = T;

    fn deref(&self) -> (value: &T)
        ensures
            *value == self.value(),
    {
        proof {
            use_type_invariant(self);
        }
        &**self.hold.value.as_ref().unwrap()
    }
}

impl<'a, T> std::ops::DerefMut for Guard<'a, T> {
    fn deref_mut(&mut self) -> (value: &mut T)
        ensures
            *value == old(self).value(),
            final(self).value() == *final(value),
            final(self).pair() == old(self).pair(),
    {
        proof {
            use_type_invariant(&*self);
        }
        self.hold.value_mut()
    }
}

impl<T> std::ops::Deref for OwnedGuard<T> {
    type Target = T;

    fn deref(&self) -> (value: &T)
        ensures
            *value == self.value(),
    {
        proof {
            use_type_invariant(self);
        }
        &**self.hold.value.as_ref().unwrap()
    }
}

impl<T> std::ops::DerefMut for OwnedGuard<T> {
    fn deref_mut(&mut self) -> (value: &mut T)
        ensures
            *value == old(self).value(),
            final(self).value() == *final(value),
            final(self).pair() == old(self).pair(),
    {
        proof {
            use_type_invariant(&*self);
        }
        self.hold.value_mut()
    }
}

/// Implemented by the types that belong to a `Bilock` pair.
pub trait BilockLike: private::BilockLike {
    /// True if `left` and `right` belong to the same `Bilock` pair.
    fn ptr_eq<R: private::BilockLike>(left: &Self, right: &R) -> (same: bool)
        ensures
            same ==> left.flags() == right.flags(),
    {
        same_state(left.state(), right.state())
    }

    /// Returns `true` if the paired handle is still alive.
    fn other_side_alive(&self) -> bool {
        paired_handle_alive(self.state().load(std::sync::atomic::Ordering::Acquire))
    }
}

impl<T> private::BilockLike for Bilock<T> {
    closed spec fn flags(&self) -> AtomicU8 {
        self.inner.state
    }

    fn state(&self) -> &AtomicU8 {
        &self.inner.state
    }
}

impl<'a, T> private::BilockLike for Guard<'a, T> {
    closed spec fn flags(&self) -> AtomicU8 {
        self.handle.inner.state
    }

    fn state(&self) -> &AtomicU8 {
        &self.handle.inner.state
    }
}

impl<T> private::BilockLike for OwnedGuard<T> {
    closed spec fn flags(&self) -> AtomicU8 {
        self.hold.home.state
    }

    fn state(&self) -> &AtomicU8 {
        &self.hold.home.state
    }
}

impl<T> BilockLike for Bilock<T> {}

impl<'a, T> BilockLike for Guard<'a, T> {}

impl<T> BilockLike for OwnedGuard<T> {}

impl<'r, B: private::BilockLike> private::BilockLike for &'r B {
    closed spec fn flags(&self) -> AtomicU8 {
        (**self).flags()
    }

    fn state(&self) -> &AtomicU8 {
        (**self).state()
    }
}

/// A reference to a handle or guard belongs to the same pair as what it refers to.
impl<'r, B: BilockLike> BilockLike for &'r B {}

} // verus!
