//! The guarantees of the protocol, stated over the model of
//! [`crate::model`] and proved once and for all.

use crate::model::{
    can_acquire, next_turn, release_step, try_step, write_step, LockState, LOCKED, POISON,
};
use vstd::prelude::*;

verus! {

/// Mutual exclusion: once any ticket's acquisition succeeds, the lock is held
/// and no acquisition by any ticket can succeed until the holder releases —
/// at most one guard is live at any instant.
pub proof fn lemma_mutual_exclusion<T>(s: LockState<T>, t1: u64, t2: u64)
    requires
        s.wf(),
        t1 < s.num_tickets,
        t2 < s.num_tickets,
        can_acquire(s.turn, t1),
    ensures
        !can_acquire(try_step(s, t1).turn, t2),
{
}

/// Ordering: while the lock is neither held nor poisoned, exactly the handle
/// whose ticket equals the turn can acquire, and once it releases the turn
/// has advanced by exactly one position in the rotation — so successive
/// acquisitions follow ticket order 0, 1, ..., N - 1, 0, ... with no skips
/// and no repeats.
pub proof fn lemma_rotation<T>(s: LockState<T>)
    requires
        s.wf(),
        s.turn < s.num_tickets,
    ensures
        forall|t: u64| t < s.num_tickets ==> (can_acquire(s.turn, t) <==> t == s.turn),
        release_step(try_step(s, s.turn), s.turn).turn == next_turn(s.turn, s.num_tickets),
        next_turn(s.turn, s.num_tickets) == (s.turn + 1) % (s.num_tickets as int),
        next_turn(s.turn, s.num_tickets) < s.num_tickets,
        s.turn < s.num_tickets - 1 ==> next_turn(s.turn, s.num_tickets) == s.turn + 1,
        s.turn == s.num_tickets - 1 ==> next_turn(s.turn, s.num_tickets) == 0,
{
    assert((s.num_tickets as int) % (s.num_tickets as int) == 0) by (nonlinear_arith)
        requires
            s.num_tickets >= 1,
    ;
    assert(0 <= s.turn + 1 < s.num_tickets ==> (s.turn + 1) % (s.num_tickets as int) == s.turn
        + 1) by (nonlinear_arith);
}

/// Poisoning is permanent: in the poisoned state no acquisition can succeed,
/// acquisition attempts and releases leave the state poisoned, and writing
/// the protected value does not clear the poison.
pub proof fn lemma_poison_permanent<T>(s: LockState<T>, t: u64, v: T)
    requires
        s.wf(),
        s.turn == POISON,
        t < s.num_tickets,
    ensures
        !can_acquire(s.turn, t),
        try_step(s, t) == s,
        release_step(s, t) == s,
        write_step(s, v).turn == POISON,
{
}

/// Round trip: a value written under one guard is the value observed by the
/// next guard in the rotation when no write comes between — acquiring,
/// writing `v`, releasing, and acquiring with the next ticket yields a state
/// whose protected value is still `v`.
pub proof fn lemma_round_trip<T>(s: LockState<T>, v: T)
    requires
        s.wf(),
        s.turn < s.num_tickets,
    ensures
        ({
            let held = try_step(s, s.turn);
            let written = write_step(held, v);
            let released = release_step(written, s.turn);
            let next = next_turn(s.turn, s.num_tickets);
            &&& can_acquire(released.turn, next)
            &&& try_step(released, next).value == v
            &&& try_step(released, next).turn == LOCKED
        }),
{
}

} // verus!
