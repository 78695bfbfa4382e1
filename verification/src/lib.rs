//! Bilock: a minimal lock-based two-handle mutex pair.
//!
//! `Bilock::new()` provides two linked handles that share ownership of the same
//! guarded value. A lock is held by either a temporary `Guard` or an
//! `OwnedGuard`, and the underlying value is released once both handles are
//! dropped.
mod bilock;
mod private;
pub mod protocol;
pub mod state;
mod sync;

pub use bilock::{Bilock, BilockLike, Guard, OwnedGuard};
