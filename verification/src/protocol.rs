//! The protocol that the two handles of a pair follow, as a state machine over
//! the flags word, and the laws that every run of it keeps.
//!
//! Each event is one operation on one side of a pair. Its effect on the word is
//! that of the atomic step the operation makes, and its branch is the one that
//! the operation's decision takes on the word the step found. The private
//! helpers in `bilock.rs` state this per step, as ghost traces over the same
//! spec functions (a trace states which step the code asked for and what it
//! leaves; it is not a witness that the step ran): `acquire` and `settle_attempt` (`after_lock`, `is_unlocked`),
//! `release` (`after_unlock`), `detach` (`after_detach`, `is_alive`) and
//! `Bilock::into_inner_observed` (`is_alive`). The model itself is not linked to
//! the running code by a proof: relating the shared atomic word of two threads
//! to this model would need ghost state that follows the atomic, and the
//! contracts here keep to per-step facts. The laws below are proved of the model.
use vstd::prelude::*;

use crate::state::{
    after_detach, after_lock, after_unlock, is_alive, is_unlocked, lemma_detach_commutes,
    lemma_flags, lemma_initial_state, lemma_unlock_undoes_lock, INITIAL_STATE,
};

verus! {

/// One of the two handles of a pair.
pub enum Side {
    Left,
    Right,
}

impl Side {
    /// The paired side.
    pub open spec fn other(self) -> Side {
        match self {
            Side::Left => Side::Right,
            Side::Right => Side::Left,
        }
    }
}

/// What one side of a pair is doing.
pub enum HandleState {
    /// The handle exists and holds no guard.
    Idle,
    /// A `Guard` or an `OwnedGuard` of this side holds the lock.
    Holding,
    /// The handle was dropped, or consumed with the value.
    Gone,
}

/// Where the shared value is.
pub enum ValueAt {
    /// In the pair's slot, free to be locked.
    Slot,
    /// In a guard of the given side.
    HeldBy(Side),
    /// Handed to the user by `into_inner` or `join`.
    Returned,
    /// Dropped, together with the last handle.
    Dropped,
}

/// The abstract state of one pair.
pub struct PairModel {
    pub state: u8,
    pub left: HandleState,
    pub right: HandleState,
    pub value: ValueAt,
}

/// One operation of the library on one side.
pub enum Event {
    /// `try_lock`, `do_try_lock` or `try_owned_lock`.
    Lock(Side),
    /// Dropping a guard, `Guard::unlock` or `OwnedGuard::unlock`.
    Unlock(Side),
    /// Dropping a handle.
    DropHandle(Side),
    /// `Bilock::into_inner` on an owned guard of the side.
    IntoInner(Side),
    /// `Bilock::join` of an owned guard of the side with the other handle.
    Join(Side),
}

impl PairModel {
    /// The pair that `Bilock::new` makes.
    pub open spec fn fresh() -> PairModel {
        PairModel {
            state: INITIAL_STATE,
            left: HandleState::Idle,
            right: HandleState::Idle,
            value: ValueAt::Slot,
        }
    }

    pub open spec fn handle(self, side: Side) -> HandleState {
        match side {
            Side::Left => self.left,
            Side::Right => self.right,
        }
    }

    pub open spec fn with_handle(self, side: Side, h: HandleState) -> PairModel {
        match side {
            Side::Left => PairModel { left: h, ..self },
            Side::Right => PairModel { right: h, ..self },
        }
    }

    pub open spec fn with_state(self, state: u8) -> PairModel {
        PairModel { state, ..self }
    }

    pub open spec fn with_value(self, value: ValueAt) -> PairModel {
        PairModel { value, ..self }
    }

    /// Whether the side can make the operation: an idle handle can lock or be
    /// dropped, a holding side can unlock or consume its guard, and `join` needs
    /// the other handle too.
    pub open spec fn enabled(self, event: Event) -> bool {
        match event {
            Event::Lock(s) => self.handle(s) is Idle,
            Event::Unlock(s) => self.handle(s) is Holding,
            Event::DropHandle(s) => self.handle(s) is Idle,
            Event::IntoInner(s) => self.handle(s) is Holding,
            Event::Join(s) => self.handle(s) is Holding && self.handle(s.other()) is Idle,
        }
    }

    /// Dropping the handle of `side`: `fetch_and(DETACH_MASK)`, and when the
    /// alive bit was already clear, the value in the slot is dropped.
    pub open spec fn detach(self, side: Side) -> PairModel {
        let last = !is_alive(self.state);
        let value = if last && self.value is Slot {
            ValueAt::Dropped
        } else {
            self.value
        };
        self.with_state(after_detach(self.state)).with_handle(side, HandleState::Gone).with_value(
            value,
        )
    }

    /// The value leaves the owned guard of `side` for the user, and the
    /// guard's handle is dropped.
    pub open spec fn consume(self, side: Side) -> PairModel {
        self.with_value(ValueAt::Returned).detach(side)
    }

    /// The effect of one operation.
    pub open spec fn step(self, event: Event) -> PairModel {
        match event {
            Event::Lock(s) => {
                let tried = self.with_state(after_lock(self.state));
                if is_unlocked(self.state) {
                    tried.with_handle(s, HandleState::Holding).with_value(ValueAt::HeldBy(s))
                } else {
                    tried
                }
            },
            Event::Unlock(s) => self.with_state(after_unlock(self.state)).with_handle(
                s,
                HandleState::Idle,
            ).with_value(ValueAt::Slot),
            Event::DropHandle(s) => self.detach(s),
            Event::IntoInner(s) => if is_alive(self.state) {
                self
            } else {
                self.consume(s)
            },
            Event::Join(s) => self.detach(s.other()).consume(s),
        }
    }

    /// The invariant of a pair.
    pub open spec fn inv(self) -> bool {
        &&& (self.left is Holding <==> self.value == ValueAt::HeldBy(Side::Left))
        &&& (self.right is Holding <==> self.value == ValueAt::HeldBy(Side::Right))
        &&& (self.value is Slot ==> is_unlocked(self.state))
        &&& (self.value is HeldBy ==> !is_unlocked(self.state))
        &&& (is_alive(self.state) <==> !(self.left is Gone) && !(self.right is Gone))
        &&& (self.left is Gone && self.right is Gone <==> (self.value is Returned
            || self.value is Dropped))
    }

    /// The pair after the events, one after another.
    pub open spec fn run(self, events: Seq<Event>) -> PairModel
        decreases events.len(),
    {
        if events.len() == 0 {
            self
        } else {
            self.step(events[0]).run(events.drop_first())
        }
    }

    /// Whether each event is enabled when it comes.
    pub open spec fn can_run(self, events: Seq<Event>) -> bool
        decreases events.len(),
    {
        if events.len() == 0 {
            true
        } else {
            self.enabled(events[0]) && self.step(events[0]).can_run(events.drop_first())
        }
    }
}

/// A new pair satisfies the invariant.
pub proof fn lemma_fresh_inv()
    ensures
        PairModel::fresh().inv(),
{
    lemma_initial_state();
}

/// Every operation keeps the invariant.
pub proof fn lemma_step_inv(pair: PairModel, event: Event)
    requires
        pair.inv(),
        pair.enabled(event),
    ensures
        pair.step(event).inv(),
{
    lemma_flags(pair.state);
    lemma_flags(after_detach(pair.state));
    match event {
        Event::Join(s) => {
            let mid = pair.detach(s.other());
            lemma_flags(mid.state);
            assert(mid.value == ValueAt::HeldBy(s));
        },
        _ => {},
    }
}

/// Every run of a pair, in any interleaving of the two sides, keeps the
/// invariant.
pub proof fn lemma_run_inv(pair: PairModel, events: Seq<Event>)
    requires
        pair.inv(),
        pair.can_run(events),
    ensures
        pair.run(events).inv(),
    decreases events.len(),
{
    if events.len() > 0 {
        lemma_step_inv(pair, events[0]);
        lemma_run_inv(pair.step(events[0]), events.drop_first());
    }
}

/// Mutual exclusion: in every reachable state, at most one side holds the lock.
pub proof fn lemma_mutual_exclusion(events: Seq<Event>)
    requires
        PairModel::fresh().can_run(events),
    ensures
        !(PairModel::fresh().run(events).left is Holding && PairModel::fresh().run(
            events,
        ).right is Holding),
{
    lemma_fresh_inv();
    lemma_run_inv(PairModel::fresh(), events);
}

/// An attempt to lock succeeds exactly when the other side holds no guard; and
/// when it succeeds, the value was in the slot.
pub proof fn lemma_lock_outcome(pair: PairModel, side: Side)
    requires
        pair.inv(),
        pair.enabled(Event::Lock(side)),
    ensures
        pair.step(Event::Lock(side)).handle(side) is Holding <==> !(pair.handle(
            side.other(),
        ) is Holding),
        pair.step(Event::Lock(side)).handle(side) is Holding ==> pair.value is Slot,
        !(pair.step(Event::Lock(side)).handle(side) is Holding) ==> pair.step(Event::Lock(side))
            == pair,
{
    lemma_flags(pair.state);
}

/// Giving the lock back undoes taking it.
pub proof fn lemma_unlock_after_lock(pair: PairModel, side: Side)
    requires
        pair.inv(),
        pair.enabled(Event::Lock(side)),
        pair.step(Event::Lock(side)).handle(side) is Holding,
    ensures
        pair.step(Event::Lock(side)).step(Event::Unlock(side)) == pair,
{
    lemma_flags(pair.state);
    lemma_unlock_undoes_lock(pair.state);
}

/// `into_inner` hands out the value exactly when the other handle is gone, and
/// otherwise changes nothing.
pub proof fn lemma_into_inner_outcome(pair: PairModel, side: Side)
    requires
        pair.inv(),
        pair.enabled(Event::IntoInner(side)),
    ensures
        pair.step(Event::IntoInner(side)).value is Returned <==> pair.handle(side.other()) is Gone,
        !(pair.handle(side.other()) is Gone) ==> pair.step(Event::IntoInner(side)) == pair,
{
    lemma_flags(pair.state);
}

/// `join` of an owned guard with the other handle of its pair hands out the
/// value and leaves nothing behind.
pub proof fn lemma_join_outcome(pair: PairModel, side: Side)
    requires
        pair.inv(),
        pair.enabled(Event::Join(side)),
    ensures
        pair.step(Event::Join(side)).value is Returned,
        pair.step(Event::Join(side)).left is Gone,
        pair.step(Event::Join(side)).right is Gone,
{
    lemma_flags(pair.state);
}

/// Dropping a handle drops the value exactly when the other handle is already
/// gone and the value is in the slot; dropping the first handle leaves it alone.
pub proof fn lemma_drop_outcome(pair: PairModel, side: Side)
    requires
        pair.inv(),
        pair.enabled(Event::DropHandle(side)),
    ensures
        pair.step(Event::DropHandle(side)).value is Dropped <==> pair.handle(side.other()) is Gone,
        !(pair.handle(side.other()) is Gone) ==> pair.step(Event::DropHandle(side)).value
            == pair.value,
{
    lemma_flags(pair.state);
}

/// Once both handles are gone no operation is possible, so the value is
/// dropped or handed out at most once.
pub proof fn lemma_finished(pair: PairModel, event: Event)
    requires
        pair.inv(),
        pair.left is Gone,
        pair.right is Gone,
    ensures
        !pair.enabled(event),
        pair.value is Returned || pair.value is Dropped,
{
}

/// Dropping a handle commutes with the other side locking or unlocking.
pub proof fn lemma_drop_commutes(pair: PairModel, side: Side, event: Event)
    requires
        pair.inv(),
        pair.enabled(Event::DropHandle(side)),
        event == Event::Lock(side.other()) || event == Event::Unlock(side.other()),
        pair.enabled(event),
    ensures
        pair.step(Event::DropHandle(side)).step(event) == pair.step(event).step(
            Event::DropHandle(side),
        ),
{
    lemma_flags(pair.state);
    lemma_flags(after_detach(pair.state));
    lemma_detach_commutes(pair.state);
}

} // verus!
