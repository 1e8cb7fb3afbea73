use instrumented_mutex::Coordinator;

#[test]
fn register_hands_out_distinct_identities() {
    let mut coord = Coordinator::new();
    let a = coord.register();
    let b = coord.register();
    let c = coord.register();
    assert_ne!(a, b);
    assert_ne!(a, c);
    assert_ne!(b, c);
    assert_eq!((a, b, c), (0, 1, 2));
}

#[test]
fn identity_count_and_is_held_observe_the_table() {
    let mut coord = Coordinator::new();
    assert_eq!(coord.identity_count(), 0);
    let key = coord.register();
    assert_eq!(coord.identity_count(), 1);
    assert!(!coord.is_held(key));
    assert!(coord.try_write_lock(key));
    assert!(coord.is_held(key));
    coord.unlock(key);
    assert!(!coord.is_held(key));
}

#[test]
fn try_write_lock_succeeds_only_on_free() {
    let mut coord = Coordinator::new();
    let key = coord.register();
    assert!(coord.try_write_lock(key));
    assert!(!coord.try_write_lock(key));
    coord.unlock(key);
    assert!(coord.try_write_lock(key));
}

#[test]
fn locks_are_independent() {
    let mut coord = Coordinator::new();
    let a = coord.register();
    let b = coord.register();
    assert!(coord.try_write_lock(a));
    assert!(coord.try_write_lock(b));
    coord.unlock(a);
    assert!(!coord.try_write_lock(b));
    assert!(coord.try_write_lock(a));
}

#[test]
fn analyse_reports_contended_locks_in_order() {
    let mut coord = Coordinator::new();
    let a = coord.register();
    let b = coord.register();
    let c = coord.register();
    assert_eq!(coord.analyse(), Vec::<usize>::new());

    assert!(coord.try_write_lock(a));
    assert!(coord.try_write_lock(c));
    // A held lock without waiters is not contended.
    assert_eq!(coord.analyse(), Vec::<usize>::new());

    coord.subscribe_write(c, 7);
    coord.subscribe_write(a, 8);
    assert_eq!(coord.analyse(), vec![a, c]);

    // The free lock never shows up, and releasing clears the waiters.
    let _ = b;
    coord.unlock(a);
    assert_eq!(coord.analyse(), vec![c]);
    coord.unlock(c);
    assert_eq!(coord.analyse(), Vec::<usize>::new());
}

#[test]
fn unlock_clears_waiters_and_frees() {
    let mut coord = Coordinator::new();
    let key = coord.register();
    assert!(coord.try_write_lock(key));
    coord.subscribe_write(key, 1);
    coord.subscribe_write(key, 1);
    coord.subscribe_write(key, 2);
    assert_eq!(coord.analyse(), vec![key]);
    coord.unlock(key);
    assert_eq!(coord.analyse(), Vec::<usize>::new());
    assert!(coord.try_write_lock(key));
    // Waiters from the previous hold are gone: the lock is held but not contended.
    assert_eq!(coord.analyse(), Vec::<usize>::new());
}
