use locks::SpinLock;

#[test]
fn try_acquire_true_iff_it_locked() {
    let mut lock = SpinLock::new(0u64);
    // a first attempt on a fresh lock transitions unlocked -> locked
    assert!(lock.try_acquire());
    // a second attempt while held must lose and must not corrupt state
    assert!(!lock.try_acquire());
    assert!(!lock.try_acquire());
    lock.release();
    // once released, an attempt wins again
    assert!(lock.try_acquire());
}

#[test]
fn unlocked_immediately_after_guard_is_gone() {
    let lock = SpinLock::new(1u32);
    let guard = lock.acquire();
    let mut lock = guard.release();
    // the lock is observably unlocked right after the guard is given up
    assert!(lock.try_acquire());
    lock.release();
    assert!(lock.try_acquire());
}

#[test]
fn handover_keeps_the_last_write() {
    let lock = SpinLock::new(0u32);
    let mut guard = lock.acquire();
    // the first holder sees the initial payload and overwrites it
    assert_eq!(guard.replace(41), 0);
    let lock = guard.release();
    let mut guard = lock.acquire();
    // the next holder reads exactly what the previous one wrote
    assert_eq!(*guard.get(), 41);
    guard.set(42);
    let lock = guard.release();
    let guard = lock.acquire();
    assert_eq!(*guard.get(), 42);
}

#[test]
fn release_always_enables_the_next_acquire() {
    let mut lock = SpinLock::new(0u8);
    for _ in 0..100 {
        let guard = lock.acquire();
        lock = guard.release();
    }
    assert_eq!(*lock.acquire().get(), 0);
}

#[test]
fn two_workers_counting_to_two_thousand() {
    // two workers, each incrementing the shared counter by 1000 inside the
    // critical section, in alternation; no update may be lost
    let mut lock = SpinLock::new(0u64);
    for _ in 0..1000 {
        for _worker in 0..2 {
            let mut guard = lock.acquire();
            let v = *guard.get();
            guard.set(v + 1);
            lock = guard.release();
        }
    }
    assert_eq!(*lock.acquire().get(), 2000);
}

#[test]
fn owned_payload_moves_through_the_guard() {
    let lock = SpinLock::new(String::from("first"));
    let mut guard = lock.acquire();
    let prev = guard.replace(String::from("second"));
    assert_eq!(prev, "first");
    let lock = guard.release();
    assert_eq!(lock.acquire().get().as_str(), "second");
}
