# bilock

Two linked handles that share ownership of one value behind a lock: a
temporary `Guard` or an `OwnedGuard` holds the lock, and the value is dropped
once both handles are gone.

Layout:

- `src/state.rs`: the flags word of a pair (alive bit, unlocked bit), the
  effect of each atomic operation on it, and the decisions taken from the word
  an atomic operation returns.
- `src/protocol.rs`: the two-sided protocol as a state machine over that word,
  with its laws: mutual exclusion in every interleaving, when a lock attempt
  wins, that unlocking undoes locking, when `into_inner` and `join` hand the
  value out, and that the value is dropped by the last handle and only once.
  The laws are proved of the model; the code's contracts state each decision,
  and ghost traces of each atomic step asked for, over the same spec functions.
  A trace is not a witness that the step ran, and no proof ties the shared word
  of two running threads to the model.
- `src/bilock.rs`: `Bilock`, `Guard`, `OwnedGuard` and `BilockLike`.
- `src/sync.rs`: the std primitives behind trusted items: the atomic flags
  word, and a `Mutex<Option<T>>` slot that parks the value while no guard holds
  it. The flag protocol keeps that mutex uncontended; it stands where an
  `UnsafeCell` would.
- `app/lib.rs`: `BlockingLock`, with the blocking `lock` and `owned_lock`.
  Waiting for the other thread is a loop with no provable bound, so it drives
  the library's non-blocking attempts from here.
