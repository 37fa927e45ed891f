//! The lock itself: the shared state, the per-participant handles, and the
//! guard that witnesses exclusive access to the protected value.

use crate::model::{
    can_acquire, poison_step, release_step, try_step, write_step, LockState, LOCKED, POISON,
};
use vstd::prelude::*;

verus! {

/// The shared state of one lock: the turn counter and the protected value,
/// together with the participant count the lock was built for. One `Shared`
/// is produced per lock and every handle of that lock operates on it.
pub struct Shared<T> {
    current: u64,
    num_tickets: u64,
    value: T,
}

impl<T> View for Shared<T> {
    type V = LockState<T>;

    closed spec fn view(&self) -> LockState<T> {
        LockState { turn: self.current, num_tickets: self.num_tickets, value: self.value }
    }
}

/// A sequence-mutex handle: one participant's ticket onto a shared lock.
/// Handles are produced together by [`Sequex::new`] and guarantee that the
/// lock is acquired in ticket order, as opposed to the order in which
/// acquisitions are requested.
pub struct Sequex {
    ticket: u64,
    num_tickets: u64,
}

/// An access token returned by a successful acquisition. While it is alive it
/// is the only way to reach the protected value; releasing it advances the
/// turn to the next ticket in the rotation.
#[derive(Debug)]
pub struct Guard {
    ticket: u64,
    num_tickets: u64,
}

/// The error reported by an acquisition attempt on a poisoned lock. The
/// condition is permanent: it never clears.
#[derive(Debug)]
pub struct SequexPoisoned;

impl Sequex {
    /// The ticket this handle was assigned at construction.
    pub closed spec fn spec_ticket(&self) -> u64 {
        self.ticket
    }

    /// The participant count of the lock this handle belongs to.
    pub closed spec fn spec_num_tickets(&self) -> u64 {
        self.num_tickets
    }

    /// A handle as `new` produces it: its ticket is a valid position in the
    /// rotation, and the ticket range leaves the sentinels free.
    pub open spec fn wf(&self) -> bool {
        self.spec_ticket() < self.spec_num_tickets() && self.spec_num_tickets() <= POISON
    }

    /// The ticket this handle was assigned at construction.
    #[verifier::when_used_as_spec(spec_ticket)]
    pub fn ticket(&self) -> (r: u64)
        ensures
            r == self.spec_ticket(),
    {
        self.ticket
    }

    /// The participant count of the lock this handle belongs to.
    #[verifier::when_used_as_spec(spec_num_tickets)]
    pub fn num_tickets(&self) -> (r: u64)
        ensures
            r == self.spec_num_tickets(),
    {
        self.num_tickets
    }

    /// Build one lock around `value` for `num_tickets` participants and hand
    /// out the handles, carrying tickets `0` through `num_tickets - 1` in
    /// order. The turn counter starts at ticket `0`.
    ///
    /// A participant count of zero is rejected, as is one so large that the
    /// ticket range would reach the sentinel values of the turn counter.
    pub fn new<T>(value: T, num_tickets: u64) -> (r: Option<(Shared<T>, Vec<Sequex>)>)
        ensures
            r is Some <==> 1 <= num_tickets <= POISON,
            r matches Some(p) ==> {
                &&& p.0@ == (LockState { turn: 0u64, num_tickets: num_tickets, value: value })
                &&& p.0@.wf()
                &&& p.1@.len() == num_tickets
                &&& forall|i: int|
                    0 <= i < num_tickets ==> {
                        &&& (#[trigger] p.1@[i]).wf()
                        &&& p.1@[i].spec_ticket() == i
                        &&& p.1@[i].spec_num_tickets() == num_tickets
                    }
            },
    {
        if num_tickets == 0 || num_tickets > POISON {
            return None;
        }
        let shared = Shared { current: 0, num_tickets, value };
        let mut handles: Vec<Sequex> = Vec::new();
        let mut t: u64 = 0;
        while t < num_tickets
            invariant
                t <= num_tickets,
                1 <= num_tickets <= POISON,
                handles@.len() == t,
                forall|i: int|
                    0 <= i < t ==> {
                        &&& (#[trigger] handles@[i]).wf()
                        &&& handles@[i].spec_ticket() == i
                        &&& handles@[i].spec_num_tickets() == num_tickets
                    },
            decreases num_tickets - t,
        {
            handles.push(Sequex { ticket: t, num_tickets });
            t = t + 1;
        }
        Some((shared, handles))
    }

    /// Attempt to acquire the lock without blocking.
    ///
    /// When the turn counter reads this handle's ticket the attempt succeeds
    /// and yields the guard; when the lock is poisoned it reports
    /// [`SequexPoisoned`]; otherwise — not this handle's turn, or held by the
    /// current turn's owner — it yields no guard and no error, and the caller
    /// may retry later.
    pub fn try_lock<T>(&self, shared: &mut Shared<T>) -> (r: Result<
        Option<Guard>,
        SequexPoisoned,
    >)
        requires
            self.wf(),
            old(shared)@.wf(),
            self.spec_num_tickets() == old(shared)@.num_tickets,
        ensures
            final(shared)@ == try_step(old(shared)@, self.spec_ticket()),
            final(shared)@.wf(),
            (r matches Ok(Some(g)) ==> g.wf() && g.ticket() == self.spec_ticket()
                && g.num_tickets() == self.spec_num_tickets()),
            (r matches Ok(Some(_))) <==> can_acquire(old(shared)@.turn, self.spec_ticket()),
            r is Err <==> old(shared)@.turn == POISON,
            (r matches Ok(None)) <==> (old(shared)@.turn != POISON && !can_acquire(
                old(shared)@.turn,
                self.spec_ticket(),
            )),
    {
        if shared.current == self.ticket {
            shared.current = LOCKED;
            Ok(Some(Guard { ticket: self.ticket, num_tickets: self.num_tickets }))
        } else if shared.current == POISON {
            Err(SequexPoisoned)
        } else {
            Ok(None)
        }
    }

    /// Retire this handle from the rotation. Dropping any handle — for any
    /// reason, graceful teardown included — poisons the lock for every
    /// participant, permanently; the protected value itself is kept.
    pub fn poison<T>(self, shared: &mut Shared<T>)
        requires
            old(shared)@.wf(),
        ensures
            final(shared)@ == poison_step(old(shared)@),
            final(shared)@.wf(),
            final(shared)@.turn == POISON,
    {
        shared.current = POISON;
    }
}

impl Guard {
    /// The ticket of the handle this guard was acquired through.
    pub closed spec fn ticket(&self) -> u64 {
        self.ticket
    }

    /// The participant count of the lock this guard belongs to.
    pub closed spec fn num_tickets(&self) -> u64 {
        self.num_tickets
    }

    /// A guard as a successful acquisition produces it.
    pub open spec fn wf(&self) -> bool {
        self.ticket() < self.num_tickets() && self.num_tickets() <= POISON
    }

    /// Read the protected value. Access goes through the guard: only the
    /// holder of the single live guard may observe the value.
    pub fn get<'a, T>(&self, shared: &'a Shared<T>) -> (r: &'a T)
        ensures
            *r == shared@.value,
    {
        &shared.value
    }

    /// Replace the protected value. Access goes through the guard: only the
    /// holder of the single live guard may change the value.
    pub fn set<T>(&self, shared: &mut Shared<T>, value: T)
        ensures
            final(shared)@ == write_step(old(shared)@, value),
    {
        shared.value = value;
    }

    /// Release the lock, consuming the guard and advancing the turn to the
    /// next ticket in the rotation. When the turn counter no longer reads the
    /// held sentinel — the lock was poisoned while held — the release changes
    /// nothing: the poison stays, and the release itself never fails.
    pub fn release<T>(self, shared: &mut Shared<T>)
        requires
            self.wf(),
            old(shared)@.wf(),
            self.num_tickets() == old(shared)@.num_tickets,
        ensures
            final(shared)@ == release_step(old(shared)@, self.ticket()),
            final(shared)@.wf(),
    {
        if shared.current == LOCKED {
            shared.current = (self.ticket + 1) % self.num_tickets;
        }
    }
}

impl SequexPoisoned {
    /// The description of the failure: the lock was poisoned by a dropped
    /// handle and can never be acquired again.
    pub fn message(&self) -> (r: &'static str)
        ensures
            r@ == "sequex poisoned"@,
    {
        "sequex poisoned"
    }
}

} // verus!
