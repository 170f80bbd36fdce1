use lilium_sys::sync::once::{
    EVENT, INIT, LOCK, OnceLock, OnceLockStep, ONCE_SPIN_LIMIT, once_event_was_set,
    once_lock_decision,
};

#[test]
fn initializes_exactly_once() {
    let mut lock: OnceLock<i32> = OnceLock::new();
    assert!(!lock.is_init());
    assert!(lock.get().is_none());

    let mut runs = 0;
    let v = *lock.try_init_impl(|| -> Result<i32, ()> {
        runs += 1;
        Ok(41)
    }).unwrap();
    assert_eq!(v, 41);

    // A second caller gets the stored value; its initializer never runs.
    let v2 = *lock.try_init_impl(|| -> Result<i32, ()> {
        runs += 1;
        Ok(99)
    }).unwrap();
    assert_eq!(v2, 41);
    assert_eq!(runs, 1);
    assert_eq!(lock.get(), Some(&41));
}

#[test]
fn abandonment_permits_a_retry() {
    let mut lock: OnceLock<i32> = OnceLock::new();
    // The first initializer gives up; the slot stays empty.
    let r = lock.try_init_impl(|| -> Result<i32, &'static str> { Err("later") });
    assert_eq!(r.unwrap_err(), "later");
    assert!(!lock.is_init());
    assert!(lock.get().is_none());
    // A later caller initializes from scratch: no poisoning.
    let v = *lock.try_init_impl(|| -> Result<i32, &'static str> { Ok(7) }).unwrap();
    assert_eq!(v, 7);
    assert_eq!(lock.get(), Some(&7));
}

#[test]
fn pre_initialized_slot_hands_out_its_value() {
    let mut lock = OnceLock::new_init(String::from("ready"));
    assert!(lock.is_init());
    assert!(lock.is_init_mut());
    assert_eq!(lock.get().map(String::as_str), Some("ready"));
}

#[test]
fn lock_word_decisions() {
    // Lock held: spin, then register and block.
    assert_eq!(once_lock_decision(LOCK, 0), OnceLockStep::SpinRetry);
    assert_eq!(once_lock_decision(LOCK | EVENT, ONCE_SPIN_LIMIT), OnceLockStep::RegisterAndBlock);
    // Lock free, value stored: hand the value out.
    assert_eq!(once_lock_decision(INIT, 0), OnceLockStep::AlreadyInitialized);
    // Lock free, nothing stored: this thread initializes.
    assert_eq!(once_lock_decision(0, 0), OnceLockStep::AcquiredLock);
}

#[test]
fn releases_notify_only_registered_waiters() {
    assert!(once_event_was_set(LOCK | EVENT));
    assert!(!once_event_was_set(LOCK));
    assert!(!once_event_was_set(0));
}
