//! The sealed half of `BilockLike`: access to the flags word of a pair.
use std::sync::atomic::AtomicU8;
use vstd::prelude::*;

verus! {

/// Implemented by the handles and guards of this crate only.
pub trait BilockLike {
    /// The pair's flags atomic, as a spec value. The atomic is opaque here, so
    /// this carries no word: it is only what `ptr_eq` compares.
    spec fn flags(&self) -> AtomicU8;

    /// The flags word shared by the pair.
    fn state(&self) -> (state: &AtomicU8)
        ensures
            *state == self.flags(),
    ;
}

} // verus!
