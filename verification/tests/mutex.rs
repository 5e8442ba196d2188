use locks::Mutex;

#[test]
fn lock_grants_access_and_release_unlocks() {
    let mutex = Mutex::new(7u64);
    let mut guard = mutex.lock();
    assert_eq!(*guard.get(), 7);
    guard.set(9);
    let mutex = guard.release();
    // the mutex is reusable right away, and the write survived the handover
    let guard = mutex.lock();
    assert_eq!(*guard.get(), 9);
}

#[test]
fn replace_returns_the_previous_payload() {
    let mutex = Mutex::new(String::from("held"));
    let mut guard = mutex.lock();
    let prev = guard.replace(String::from("swapped"));
    assert_eq!(prev, "held");
    let mutex = guard.release();
    assert_eq!(mutex.lock().get().as_str(), "swapped");
}

#[test]
fn manual_unlock_is_wake_only() {
    let mut mutex = Mutex::new(5u32);
    // the manual wake touches neither the word nor the payload: the mutex
    // is still unlocked and still holds its value afterwards
    mutex.unlock();
    mutex.unlock();
    let guard = mutex.lock();
    assert_eq!(*guard.get(), 5);
}

#[test]
fn release_always_enables_the_next_lock() {
    let mut mutex = Mutex::new(0i64);
    for i in 0..100 {
        let mut guard = mutex.lock();
        assert_eq!(*guard.get(), i);
        guard.set(i + 1);
        mutex = guard.release();
    }
    assert_eq!(*mutex.lock().get(), 100);
}

#[test]
fn two_workers_counting_to_two_thousand_blocking() {
    // two workers, each incrementing the shared counter by 1000 inside the
    // critical section, in alternation; no update may be lost
    let mut mutex = Mutex::new(0u64);
    for _ in 0..1000 {
        for _worker in 0..2 {
            let mut guard = mutex.lock();
            let v = *guard.get();
            guard.set(v + 1);
            mutex = guard.release();
        }
    }
    assert_eq!(*mutex.lock().get(), 2000);
}
