//! The mathematical model of the lock: the states the turn counter ranges
//! over and the effect of each protocol step on the shared state.

use vstd::prelude::*;

verus! {

/// Sentinel value of the turn counter while some guard holds the lock.
pub const LOCKED: u64 = u64::MAX;

/// Sentinel value of the turn counter once the lock has been poisoned.
pub const POISON: u64 = u64::MAX - 1;

/// The abstract state of one lock: the turn counter, the participant count it
/// was built for, and the protected value.
pub struct LockState<T> {
    pub turn: u64,
    pub num_tickets: u64,
    pub value: T,
}

impl<T> LockState<T> {
    /// The states the protocol can reach: the participant count is positive
    /// and leaves the two sentinels outside the ticket range, and the turn is
    /// either a valid ticket or one of the sentinels.
    pub open spec fn wf(self) -> bool {
        &&& 1 <= self.num_tickets <= POISON
        &&& self.turn < self.num_tickets || self.turn == LOCKED || self.turn == POISON
    }
}

/// An acquisition by `ticket` succeeds exactly when the turn counter reads it.
pub open spec fn can_acquire(turn: u64, ticket: u64) -> bool {
    turn == ticket
}

/// The ticket whose turn follows `ticket` in the rotation.
pub open spec fn next_turn(ticket: u64, num_tickets: u64) -> u64 {
    (((ticket + 1) % (num_tickets as int)) as u64)
}

/// Effect of a non-blocking acquisition attempt by `ticket` on the state:
/// when the turn reads the ticket the lock becomes held, otherwise — not this
/// ticket's turn, already held, or poisoned — nothing changes.
pub open spec fn try_step<T>(s: LockState<T>, ticket: u64) -> LockState<T> {
    if can_acquire(s.turn, ticket) {
        LockState { turn: LOCKED, ..s }
    } else {
        s
    }
}

/// Effect of releasing the guard acquired by `ticket`: while the lock is held
/// the turn advances to the next ticket in the rotation; otherwise — the lock
/// was poisoned while held — nothing changes.
pub open spec fn release_step<T>(s: LockState<T>, ticket: u64) -> LockState<T> {
    if s.turn == LOCKED {
        LockState { turn: next_turn(ticket, s.num_tickets), ..s }
    } else {
        s
    }
}

/// Effect of writing the protected value under a guard.
pub open spec fn write_step<T>(s: LockState<T>, value: T) -> LockState<T> {
    LockState { value: value, ..s }
}

/// Effect of dropping a handle: the lock is poisoned whatever its state was;
/// the protected value is kept.
pub open spec fn poison_step<T>(s: LockState<T>) -> LockState<T> {
    LockState { turn: POISON, ..s }
}

} // verus!
