use sequex::{next_backoff, Sequex, INITIAL_BACKOFF_MICROS, MAX_BACKOFF_MICROS};

#[test]
fn new_hands_out_tickets_in_order() {
    let (_, handles) = Sequex::new(0u32, 3).unwrap();
    assert_eq!(handles.len(), 3);
    for (i, h) in handles.iter().enumerate() {
        assert_eq!(h.ticket(), i as u64);
        assert_eq!(h.num_tickets(), 3);
    }
}

#[test]
fn new_single_participant() {
    let (_, handles) = Sequex::new(0u32, 1).unwrap();
    assert_eq!(handles.len(), 1);
    assert_eq!(handles[0].ticket(), 0);
}

#[test]
fn new_rejects_zero_participants() {
    assert!(Sequex::new(0u32, 0).is_none());
}

#[test]
fn new_rejects_count_reaching_sentinels() {
    assert!(Sequex::new(0u32, u64::MAX).is_none());
}

#[test]
fn try_lock_out_of_turn_yields_no_guard_and_no_error() {
    let (mut shared, handles) = Sequex::new(0u32, 3).unwrap();
    let r = handles[1].try_lock(&mut shared);
    assert!(matches!(r, Ok(None)));
    let r = handles[2].try_lock(&mut shared);
    assert!(matches!(r, Ok(None)));
}

#[test]
fn try_lock_while_held_yields_no_guard() {
    let (mut shared, handles) = Sequex::new(0u32, 3).unwrap();
    let guard = handles[0].try_lock(&mut shared).unwrap().unwrap();
    // The lock is held: nobody can acquire, not even the holder's own handle.
    assert!(matches!(handles[0].try_lock(&mut shared), Ok(None)));
    assert!(matches!(handles[1].try_lock(&mut shared), Ok(None)));
    assert!(matches!(handles[2].try_lock(&mut shared), Ok(None)));
    guard.release(&mut shared);
    assert!(matches!(handles[1].try_lock(&mut shared), Ok(Some(_))));
}

#[test]
fn rotation_scenario() {
    let (mut shared, handles) = Sequex::new(0u32, 3).unwrap();
    let (h0, h1, h2) = (&handles[0], &handles[1], &handles[2]);
    assert!(matches!(h1.try_lock(&mut shared), Ok(None)));
    let g0 = h0.try_lock(&mut shared).unwrap().unwrap();
    g0.set(&mut shared, 42);
    g0.release(&mut shared);
    let g1 = h1.try_lock(&mut shared).unwrap().unwrap();
    assert_eq!(*g1.get(&shared), 42);
    assert!(matches!(h2.try_lock(&mut shared), Ok(None)));
    g1.release(&mut shared);
    assert!(matches!(h2.try_lock(&mut shared), Ok(Some(_))));
}

#[test]
fn rotation_wraps_around() {
    let (mut shared, handles) = Sequex::new(0u32, 3).unwrap();
    // In both rounds the turns come in ticket order 0, 1, 2.
    for _ in 0..2 {
        for h in handles.iter() {
            let g = h.try_lock(&mut shared).unwrap().unwrap();
            g.release(&mut shared);
        }
    }
    // After two full rotations the turn is back at ticket 0.
    assert!(matches!(handles[0].try_lock(&mut shared), Ok(Some(_))));
}

#[test]
fn rotation_single_participant_cycles_to_itself() {
    let (mut shared, handles) = Sequex::new(0u32, 1).unwrap();
    let g = handles[0].try_lock(&mut shared).unwrap().unwrap();
    g.release(&mut shared);
    let g = handles[0].try_lock(&mut shared).unwrap().unwrap();
    g.release(&mut shared);
}

#[test]
fn round_trip_value_preserved() {
    let (mut shared, handles) = Sequex::new(0u64, 3).unwrap();
    let g0 = handles[0].try_lock(&mut shared).unwrap().unwrap();
    g0.set(&mut shared, 7777);
    g0.release(&mut shared);
    let g1 = handles[1].try_lock(&mut shared).unwrap().unwrap();
    assert_eq!(*g1.get(&shared), 7777);
    g1.release(&mut shared);
    // No write under the second guard: the third still observes the value.
    let g2 = handles[2].try_lock(&mut shared).unwrap().unwrap();
    assert_eq!(*g2.get(&shared), 7777);
    g2.release(&mut shared);
}

#[test]
fn poisoning_scenario() {
    let (mut shared, mut handles) = Sequex::new(0u32, 3).unwrap();
    let h2 = handles.pop().unwrap();
    h2.poison(&mut shared);
    let err = handles[0].try_lock(&mut shared).unwrap_err();
    assert_eq!(err.message(), "sequex poisoned");
    assert!(handles[1].try_lock(&mut shared).is_err());
    // The poison never clears.
    assert!(handles[0].try_lock(&mut shared).is_err());
    assert!(handles[1].try_lock(&mut shared).is_err());
}

#[test]
fn poison_while_held_sticks() {
    let (mut shared, mut handles) = Sequex::new(0u32, 3).unwrap();
    let g0 = handles[0].try_lock(&mut shared).unwrap().unwrap();
    let h1 = handles.remove(1);
    h1.poison(&mut shared);
    // The release finds the lock poisoned, changes nothing, and does not fail.
    g0.release(&mut shared);
    assert!(handles[0].try_lock(&mut shared).is_err());
    assert!(handles[1].try_lock(&mut shared).is_err());
}

#[test]
fn poison_after_full_rotation() {
    let (mut shared, mut handles) = Sequex::new(0u32, 2).unwrap();
    for h in handles.iter() {
        let g = h.try_lock(&mut shared).unwrap().unwrap();
        g.release(&mut shared);
    }
    // Even graceful teardown after legitimate use poisons the lock.
    let h1 = handles.pop().unwrap();
    h1.poison(&mut shared);
    assert!(handles[0].try_lock(&mut shared).is_err());
}

#[test]
fn backoff_doubles_until_the_cap() {
    assert_eq!(next_backoff(INITIAL_BACKOFF_MICROS), 200);
    assert_eq!(next_backoff(200), 400);
    assert_eq!(next_backoff(500_000), 1_000_000);
    assert_eq!(next_backoff(500_001), MAX_BACKOFF_MICROS);
    assert_eq!(next_backoff(MAX_BACKOFF_MICROS), MAX_BACKOFF_MICROS);
    let mut backoff = INITIAL_BACKOFF_MICROS;
    for _ in 0..100 {
        backoff = next_backoff(backoff);
        assert!(backoff <= MAX_BACKOFF_MICROS);
    }
    assert_eq!(backoff, MAX_BACKOFF_MICROS);
}
