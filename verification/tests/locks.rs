use lilium_sys::atomic::{WaitError, decode_wait_result, masked_eq, wake_eligible};
use lilium_sys::sync::mutex::{
    Condvar, ExclusiveAction, LOCK_EXCLUSIVE, LockAction, RawMutex, RawRwLock, SPIN_LIMIT,
    SharedAction, WaitTimeoutResult, continue_after_wait, mutex_acquire_decision,
    rw_lock_exclusive_decision, rw_lock_shared_decision,
};
use lilium_sys::sys::result::{INTERRUPTED, INVALID_STATE, TIMEOUT};

#[test]
fn mutex_word_gives_mutual_exclusion() {
    let mut m = RawMutex::new();
    assert!(!m.is_locked());
    // First acquirer wins, second sees the held word.
    assert!(m.try_lock());
    assert!(m.is_locked());
    assert!(!m.try_lock());
    m.unlock();
    assert!(!m.is_locked());
    assert!(m.try_lock());
}

#[test]
fn mutex_acquire_decisions() {
    assert_eq!(mutex_acquire_decision(0, 0), LockAction::Acquired);
    assert_eq!(mutex_acquire_decision(LOCK_EXCLUSIVE, 0), LockAction::Spin);
    assert_eq!(
        mutex_acquire_decision(LOCK_EXCLUSIVE, SPIN_LIMIT),
        LockAction::Block { expected: LOCK_EXCLUSIVE }
    );
}

#[test]
fn rwlock_shared_and_exclusive_exclude_each_other() {
    let mut l = RawRwLock::new();
    assert!(l.try_lock_shared());
    assert!(l.try_lock_shared());
    assert!(!l.is_locked_exclusive());
    // An exclusive attempt fails while shared holders remain.
    assert!(!l.try_lock_exclusive());
    assert!(!l.unlock_shared());
    // Releasing the last shared holder asks for one notification.
    assert!(l.unlock_shared());
    assert!(l.try_lock_exclusive());
    assert!(l.is_locked_exclusive());
    // No shared acquisition under an exclusive holder.
    assert!(!l.try_lock_shared());
    l.unlock_exclusive();
    assert!(!l.is_locked());
    assert!(l.try_lock_shared());
}

#[test]
fn rwlock_acquire_decisions() {
    assert_eq!(rw_lock_shared_decision(LOCK_EXCLUSIVE, 1), SharedAction::Spin);
    assert_eq!(
        rw_lock_shared_decision(LOCK_EXCLUSIVE, SPIN_LIMIT),
        SharedAction::Block { expected: LOCK_EXCLUSIVE }
    );
    assert_eq!(rw_lock_shared_decision(3, 0), SharedAction::TryIncrement { from: 3, to: 4 });
    assert_eq!(rw_lock_exclusive_decision(0, 0), ExclusiveAction::Retry);
    assert_eq!(rw_lock_exclusive_decision(5, 0), ExclusiveAction::Spin);
    assert_eq!(
        rw_lock_exclusive_decision(5, SPIN_LIMIT),
        ExclusiveAction::Block { expected: 5 }
    );
}

#[test]
fn wait_outcomes_translate_exactly() {
    assert_eq!(decode_wait_result(0, 7), Ok(()));
    assert_eq!(decode_wait_result(INVALID_STATE, 7), Err(WaitError::UnexpectedValue(7)));
    assert_eq!(decode_wait_result(INTERRUPTED, 7), Err(WaitError::Interrupted));
    assert_eq!(decode_wait_result(TIMEOUT, 7), Err(WaitError::Timeout));
}

#[test]
fn timed_loops_stop_only_on_timeout() {
    assert!(continue_after_wait(Ok(())));
    assert!(continue_after_wait(Err(WaitError::UnexpectedValue(3))));
    assert!(continue_after_wait(Err(WaitError::Interrupted)));
    assert!(!continue_after_wait(Err(WaitError::Timeout)));
}

#[test]
fn masked_comparison_ignores_masked_bits() {
    // Ignoring the low byte, the values agree.
    assert!(masked_eq(0x12ab, 0x12cd, 0xff));
    assert!(!masked_eq(0x12ab, 0x34ab, 0xff));
    // An all-ones ignore mask matches anything.
    assert!(masked_eq(1, 2, u64::MAX));
}

#[test]
fn masked_wakes_select_by_overlap() {
    // A waiter on mask m registers the ignore mask !m.
    let m: u64 = 0b0011;
    // Disjoint wake mask: passed over.
    assert!(!wake_eligible(!m, 0b0100));
    // Wake mask inside the waited mask: reached.
    assert!(wake_eligible(!m, 0b0001));
    // Any overlap reaches the waiter, even when the wake mask carries
    // bits the waiter does not watch.
    let m2: u64 = 0b0010;
    assert!(wake_eligible(!m2, 0b0011));
    // A plain notify has wake mask zero and reaches everyone.
    assert!(wake_eligible(!m, 0));
}

#[test]
fn condvar_counter_advances_per_notification() {
    let mut cv = Condvar::new();
    let before = cv.snapshot();
    assert_eq!(before, 0);
    cv.notify_one();
    assert_eq!(cv.snapshot(), 1);
    cv.notify_all();
    assert_eq!(cv.snapshot(), 2);
    // A waiter that snapshotted before those notifications now sees a
    // changed counter and would not block at all.
    assert_ne!(cv.snapshot(), before);
}

#[test]
fn wait_timeout_result_reports_its_flag() {
    let r = WaitTimeoutResult(42u32, true);
    assert!(r.timed_out());
    assert_eq!(r.0, 42);
    let r = WaitTimeoutResult("guard", false);
    assert!(!r.timed_out());
}
