use std::sync::atomic::{AtomicUsize, Ordering};
use std::sync::Arc;

use bilock::{Bilock, BilockLike, Guard, OwnedGuard};

/// Blocks until the lock is won, as a spin loop over the non-blocking attempt.
fn lock<T>(handle: &mut Bilock<T>) -> Guard<'_, T> {
    let mut this = handle;
    loop {
        this = match this.do_try_lock() {
            Ok(guard) => return guard,
            Err(this) => this,
        };
        std::hint::spin_loop();
    }
}

/// Consumes the handle and blocks until the lock is won.
fn owned_lock<T>(handle: Bilock<T>) -> OwnedGuard<T> {
    let mut this = handle;
    loop {
        this = match this.try_owned_lock() {
            Ok(guard) => return guard,
            Err(this) => this,
        };
        std::hint::spin_loop();
    }
}

/// Holds only for types that are `Unpin`: the handles and guards must be, for
/// any `T`.
#[allow(dead_code)]
trait ExpectedToBeUnpin: Unpin {}

impl<T> ExpectedToBeUnpin for Bilock<T> {}
impl<T> ExpectedToBeUnpin for Guard<'_, T> {}
impl<T> ExpectedToBeUnpin for OwnedGuard<T> {}

struct DropCounter {
    drops: Arc<AtomicUsize>,
}

impl Drop for DropCounter {
    fn drop(&mut self) {
        let _: usize = self.drops.fetch_add(1, Ordering::SeqCst);
    }
}

#[test]
fn new_returns_two_handles() {
    let (mut left, mut right) = Bilock::new(42);

    assert_eq!(*lock(&mut left), 42);
    assert_eq!(right.try_lock().as_deref(), Some(&42));
}

#[test]
fn shared_value_survives_until_last_drop() {
    let drops = Arc::new(AtomicUsize::new(0));
    let value = DropCounter {
        drops: drops.clone(),
    };

    let (left, right) = Bilock::new(value);
    drop(left);
    assert_eq!(drops.load(Ordering::SeqCst), 0);

    drop(right);
    assert_eq!(drops.load(Ordering::SeqCst), 1);
}

#[test]
fn try_lock_returns_none_while_other_guard_exists() {
    let (mut left, mut right) = Bilock::new(0);
    let _guard = lock(&mut left);

    assert!(right.try_lock().is_none());
}

#[test]
fn lock_works_after_other_handle_dropped_while_guard_held() {
    let (mut left, right) = Bilock::new(7);
    let guard = lock(&mut left);
    drop(right);
    drop(guard);

    let guard = lock(&mut left);
    assert_eq!(*guard, 7);
}

#[test]
fn owned_lock_unlock_returns_handle() {
    let (left, right) = Bilock::new(13);
    let owned = owned_lock(left);
    assert_eq!(*owned, 13);

    let mut left = OwnedGuard::unlock(owned);
    assert_eq!(*lock(&mut left), 13);
    drop(right);
    drop(left);
}

#[test]
fn join_returns_value_for_same_pair() {
    let drops = Arc::new(AtomicUsize::new(0));
    let value = DropCounter {
        drops: drops.clone(),
    };

    let (left, right) = Bilock::new(value);
    let owned = owned_lock(left);
    let value = match Bilock::join(owned, right) {
        Ok(value) => value,
        Err(_) => panic!("join of a pair failed"),
    };

    assert_eq!(drops.load(Ordering::SeqCst), 0);
    drop(value);
    assert_eq!(drops.load(Ordering::SeqCst), 1);
}

#[test]
fn join_returns_err_for_different_pairs() {
    let (l1, _r1) = Bilock::new(1);
    let (l2, _r2) = Bilock::new(2);

    let owned = owned_lock(l1);
    let (owned, mut l2) = match Bilock::join(owned, l2) {
        Ok(_) => panic!("join of two pairs succeeded"),
        Err(both) => both,
    };

    assert_eq!(*owned, 1);
    assert_eq!(*lock(&mut l2), 2);
}

#[test]
fn try_owned_lock_fails_when_locked() {
    let (mut left, right) = Bilock::new(0);
    let _guard = lock(&mut left);

    assert!(right.try_owned_lock().is_err());
}

#[test]
fn owned_guard_drop_releases_lock() {
    let (left, mut right) = Bilock::new(0);
    let _owned = owned_lock(left);

    assert!(right.try_lock().is_none());
}

#[test]
fn formatting_is_sane() {
    let (mut left, right) = Bilock::new(0);
    let owned = lock(&mut left);

    let owned = owned.debug_string();
    let right = right.debug_string();
    assert_eq!(
        owned.split_once(' ').unwrap().1,
        right.split_once(' ').unwrap().1,
    );
}

// Tests of this crate's own.

#[test]
fn readme_example() {
    let (mut left, mut right) = Bilock::new(42);
    let guard = lock(&mut left);
    assert_eq!(*guard, 42);
    drop(guard);

    let mut guard = lock(&mut right);
    *guard = 4711;
    assert_eq!(*guard, 4711);
    drop(guard);
    assert_eq!(*lock(&mut left), 4711);
}

#[test]
fn guard_unlock_lets_the_other_side_lock() {
    let (mut left, mut right) = Bilock::new(10);
    let guard = lock(&mut left);
    assert!(right.try_lock().is_none());
    Guard::unlock(guard);
    assert_eq!(right.try_lock().as_deref(), Some(&10));
    assert!(left.try_lock().is_some());
}

#[test]
fn lock_is_released_then_taken_again_by_the_same_side() {
    let (mut left, _right) = Bilock::new(5);
    for round in 0..100 {
        let mut guard = left.try_lock().unwrap();
        assert_eq!(*guard, 5 + round);
        *guard += 1;
    }
    assert_eq!(*left.try_lock().unwrap(), 105);
}

#[test]
fn do_try_lock_hands_the_handle_back_while_locked() {
    let (mut left, mut right) = Bilock::new(3);
    let _guard = lock(&mut left);
    let back = match right.do_try_lock() {
        Ok(_) => panic!("locked twice"),
        Err(back) => back,
    };
    assert!(back.other_side_alive());
}

#[test]
fn try_owned_lock_succeeds_when_free_and_returns_handle_when_not() {
    let (left, right) = Bilock::new(5);
    let owned_a = left.try_owned_lock().ok().unwrap();
    assert_eq!(*owned_a, 5);
    let right = match right.try_owned_lock() {
        Ok(_) => panic!("locked twice"),
        Err(right) => right,
    };
    let left = OwnedGuard::unlock(owned_a);
    assert!(Bilock::ptr_eq(&left, &right));
    let owned_b = right.try_owned_lock().ok().unwrap();
    assert_eq!(*owned_b, 5);
}

#[test]
fn owned_guard_deref_mut_writes_through() {
    let (left, mut right) = Bilock::new(11);
    let mut owned = owned_lock(left);
    *owned = 12;
    let left = OwnedGuard::unlock(owned);
    assert_eq!(*lock(&mut right), 12);
    drop(left);
}

#[test]
fn other_side_alive_tracks_the_paired_handle() {
    let (left, right) = Bilock::new(0);
    assert!(left.other_side_alive());
    assert!(right.other_side_alive());
    drop(right);
    assert!(!left.other_side_alive());
}

#[test]
fn guards_see_the_other_side_alive_and_dropped() {
    let (mut left, right) = Bilock::new(0);
    {
        let guard = lock(&mut left);
        assert!(guard.other_side_alive());
    }
    let owned = owned_lock(left);
    assert!(owned.other_side_alive());
    drop(right);
    assert!(!owned.other_side_alive());
}

#[test]
fn ptr_eq_tells_pairs_apart() {
    let (mut a, b) = Bilock::new(0);
    let (c, _d) = Bilock::new(0);
    assert!(Bilock::ptr_eq(&a, &b));
    assert!(Bilock::ptr_eq(&b, &a));
    assert!(!Bilock::ptr_eq(&a, &c));
    let guard = lock(&mut a);
    assert!(Guard::ptr_eq(&guard, &b));
    assert!(!Guard::ptr_eq(&guard, &c));
    drop(guard);
    let owned = owned_lock(b);
    assert!(OwnedGuard::ptr_eq(&owned, &a));
    assert!(!OwnedGuard::ptr_eq(&owned, &c));
}

#[test]
fn into_inner_returns_value_after_other_side_dropped() {
    let (a, b) = Bilock::new(1);
    let owned = owned_lock(a);
    drop(b);
    assert_eq!(Bilock::into_inner(owned).ok(), Some(1));
}

#[test]
fn into_inner_returns_guard_while_other_side_alive() {
    let (a, mut b) = Bilock::new(1);
    let owned = owned_lock(a);
    let owned = match Bilock::into_inner(owned) {
        Ok(_) => panic!("the other side is alive"),
        Err(owned) => owned,
    };
    assert_eq!(*owned, 1);
    assert!(b.try_lock().is_none());
    drop(owned);
    assert_eq!(b.try_lock().as_deref(), Some(&1));
}

#[test]
fn into_inner_unchecked_returns_value() {
    let (a, b) = Bilock::new(1);
    let owned = owned_lock(a);
    drop(b);
    assert_eq!(Bilock::into_inner_unchecked(owned), 1);
}

#[test]
fn join_unchecked_returns_value() {
    let (a, b) = Bilock::new(8);
    let owned = owned_lock(a);
    assert_eq!(Bilock::join_unchecked(owned, b), 8);
}

#[test]
fn value_handed_out_is_not_dropped_again() {
    let drops = Arc::new(AtomicUsize::new(0));
    let (a, b) = Bilock::new(DropCounter {
        drops: drops.clone(),
    });
    let owned = owned_lock(a);
    drop(b);
    let value = match Bilock::into_inner(owned) {
        Ok(value) => value,
        Err(_) => panic!("the other side is gone"),
    };
    assert_eq!(drops.load(Ordering::SeqCst), 0);
    drop(value);
    assert_eq!(drops.load(Ordering::SeqCst), 1);
}

#[test]
fn value_in_a_guard_is_dropped_with_the_last_handle() {
    let drops = Arc::new(AtomicUsize::new(0));
    let (mut a, b) = Bilock::new(DropCounter {
        drops: drops.clone(),
    });
    drop(b);
    let guard = lock(&mut a);
    drop(guard);
    assert_eq!(drops.load(Ordering::SeqCst), 0);
    drop(a);
    assert_eq!(drops.load(Ordering::SeqCst), 1);
}

#[test]
fn dropping_the_first_handle_keeps_the_lock_state() {
    let (mut a, b) = Bilock::new(0);
    let guard = lock(&mut a);
    drop(b);
    assert!(!guard.other_side_alive());
    drop(guard);
    assert!(a.try_lock().is_some());
}

#[test]
fn debug_strings_name_the_type() {
    let (mut a, b) = Bilock::new(0);
    assert!(b.debug_string().starts_with("Bilock { ptr: "));
    assert!(b.debug_string().ends_with(" }"));
    let guard = lock(&mut a);
    assert!(guard.debug_string().starts_with("Guard { ptr: "));
    drop(guard);
    let owned = owned_lock(a);
    assert!(owned.debug_string().starts_with("OwnedGuard { ptr: "));
    assert_eq!(
        owned.debug_string().split_once(' ').unwrap().1,
        b.debug_string().split_once(' ').unwrap().1,
    );
}

#[test]
fn into_inner_observed_decides_by_the_alive_bit() {
    let (a, _b) = Bilock::new(9);
    let owned = owned_lock(a);
    let owned = match Bilock::into_inner_observed(owned, 0b01) {
        Ok(_) => panic!("the word says the other side is alive"),
        Err(owned) => owned,
    };
    assert_eq!(*owned, 9);
    assert_eq!(Bilock::into_inner_observed(owned, 0b00).ok(), Some(9));
}

#[test]
fn debug_strings_frame_the_address() {
    let (a, _b) = Bilock::new(0);
    let text = a.debug_string();
    let address = text
        .strip_prefix("Bilock { ptr: ")
        .unwrap()
        .strip_suffix(" }")
        .unwrap();
    assert!(!address.is_empty());
}

#[test]
fn references_belong_to_the_same_pair() {
    let (a, b) = Bilock::new(0);
    let (c, _d) = Bilock::new(0);
    let ra = &a;
    assert!(<&Bilock<i32>>::ptr_eq(&ra, &b));
    assert!(!<&Bilock<i32>>::ptr_eq(&ra, &c));
    assert!(ra.other_side_alive());
    drop(b);
    assert!(!(&a).other_side_alive());
}

#[test]
fn guards_are_unpin_even_for_a_pinned_value() {
    fn unpin<U: Unpin>(_: &U) {}
    let (a, _b) = Bilock::new(std::marker::PhantomPinned);
    let owned = owned_lock(a);
    unpin(&owned);
}
