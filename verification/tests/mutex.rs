use instrumented_mutex::mutex::LockAttempt;
use instrumented_mutex::mutex::TryLockError;
use instrumented_mutex::Coordinator;
use instrumented_mutex::Mutex;

#[test]
fn value_persists_across_lock_cycles() {
    let mut coord = Coordinator::new();
    let mut m = Mutex::new(0u64, &mut coord);

    let mut guard = m.try_lock(&mut coord).unwrap_or_else(|_| panic!("fresh lock is free"));
    assert_eq!(*guard.get(), 0);
    *guard.get_mut() = 5;
    m.release(guard, &mut coord, false);

    let guard = m.try_lock(&mut coord).unwrap_or_else(|_| panic!("released lock is free"));
    assert_eq!(*guard.get(), 5);
    m.release(guard, &mut coord, false);

    assert_eq!(m.into_inner().unwrap_or_else(|_| panic!("never poisoned")), 5);
}

#[test]
fn repeated_increments_are_not_lost() {
    let mut coord = Coordinator::new();
    let mut m = Mutex::new(0u64, &mut coord);
    for _ in 0..2000 {
        let mut guard = match m.try_lock(&mut coord) {
            Ok(g) => g,
            Err(_) => panic!("lock is free between cycles"),
        };
        *guard.get_mut() += 1;
        m.release(guard, &mut coord, false);
    }
    assert_eq!(m.into_inner().unwrap_or_else(|_| panic!("never poisoned")), 2000);
}

#[test]
fn second_try_lock_would_block() {
    let mut coord = Coordinator::new();
    let mut m = Mutex::new(1u32, &mut coord);
    let guard = m.try_lock(&mut coord).unwrap_or_else(|_| panic!("fresh lock is free"));
    match m.try_lock(&mut coord) {
        Err(TryLockError::WouldBlock) => {}
        _ => panic!("a held lock must report WouldBlock"),
    }
    m.release(guard, &mut coord, false);
}

#[test]
fn poisoning_is_reported_and_sticky() {
    let mut coord = Coordinator::new();
    let mut m = Mutex::new(9u64, &mut coord);
    assert!(!m.is_poisoned());

    // While the guard of the failing holder is still alive, others see Busy.
    let guard = m.try_lock(&mut coord).unwrap_or_else(|_| panic!("fresh lock is free"));
    match m.try_lock(&mut coord) {
        Err(TryLockError::WouldBlock) => {}
        _ => panic!("unwind has not released the lock yet"),
    }

    // The holder's unwind releases the guard: the lock is free again, poisoned.
    m.release(guard, &mut coord, true);
    assert!(m.is_poisoned());

    // Acquisition still succeeds, flagged; the value is recoverable.
    let guard = match m.try_lock(&mut coord) {
        Err(TryLockError::Poisoned(e)) => e.into_inner(),
        _ => panic!("a poisoned lock reports Poisoned around the guard"),
    };
    assert_eq!(*guard.get(), 9);
    // Poisoning never resets, even after a clean release.
    m.release(guard, &mut coord, false);
    assert!(m.is_poisoned());
    assert_eq!(*m.get_mut(), 9);
    match m.into_inner() {
        Err(e) => assert_eq!(e.into_inner(), 9),
        Ok(_) => panic!("a poisoned handle wraps the value in PoisonError"),
    }
}

#[test]
fn blocking_attempts_spin_then_diagnose() {
    let mut coord = Coordinator::new();
    let mut m = Mutex::new(4u8, &mut coord);

    let guard = match m.lock_attempt(&mut coord, false, 21) {
        LockAttempt::Acquired(Ok(g)) => g,
        _ => panic!("a free lock is acquired at the first attempt"),
    };

    // Under the threshold the attempt retries tightly and records nothing.
    match m.lock_attempt(&mut coord, false, 22) {
        LockAttempt::Retry => {}
        _ => panic!("under the threshold the attempt only retries"),
    }
    assert_eq!(coord.analyse(), Vec::<usize>::new());

    // Past the threshold the waiter is recorded and the analysis runs.
    match m.lock_attempt(&mut coord, true, 22) {
        LockAttempt::RetryAfterYield(report) => assert_eq!(report.len(), 1),
        _ => panic!("past the threshold the attempt diagnoses and yields"),
    }

    // Once the holder releases, the next attempt succeeds and the lock is no
    // longer contended.
    m.release(guard, &mut coord, false);
    assert_eq!(coord.analyse(), Vec::<usize>::new());
    match m.lock_attempt(&mut coord, true, 22) {
        LockAttempt::Acquired(Ok(g)) => {
            assert_eq!(*g.get(), 4);
            m.release(g, &mut coord, false);
        }
        _ => panic!("a released lock is acquired at the next attempt"),
    }
}

#[test]
fn handles_do_not_interfere() {
    let mut coord = Coordinator::new();
    let mut a = Mutex::new(10u64, &mut coord);
    let mut b = Mutex::new(20u64, &mut coord);

    let ga = a.try_lock(&mut coord).unwrap_or_else(|_| panic!("a is free"));
    let mut gb = b.try_lock(&mut coord).unwrap_or_else(|_| panic!("b is free despite a being held"));
    *gb.get_mut() = 21;
    b.release(gb, &mut coord, true);
    a.release(ga, &mut coord, false);

    assert!(b.is_poisoned());
    assert!(!a.is_poisoned());
    assert_eq!(a.into_inner().unwrap_or_else(|_| panic!("a never poisoned")), 10);
    match b.into_inner() {
        Err(e) => assert_eq!(e.into_inner(), 21),
        Ok(_) => panic!("b was poisoned"),
    }
}

#[test]
fn get_mut_bypasses_the_lock() {
    let mut coord = Coordinator::new();
    let mut m = Mutex::new(String::from("abc"), &mut coord);
    m.get_mut().push('d');
    assert!(!m.is_poisoned());
    assert_eq!(m.into_inner().unwrap_or_else(|_| panic!("never poisoned")), "abcd");
}

#[test]
fn poison_error_exposes_the_guard() {
    let mut coord = Coordinator::new();
    let mut m = Mutex::new(2u16, &mut coord);
    let g = m.try_lock(&mut coord).unwrap_or_else(|_| panic!("fresh lock is free"));
    m.release(g, &mut coord, true);
    match m.try_lock(&mut coord) {
        Err(TryLockError::Poisoned(e)) => {
            assert_eq!(*e.get_ref().get(), 2);
            let g = e.into_inner();
            m.release(g, &mut coord, false);
        }
        _ => panic!("poisoned lock reports Poisoned"),
    }
}
