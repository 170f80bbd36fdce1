use lilium_sys::sys::result::{INTERRUPTED, INVALID_OPTION};
use lilium_sys::thread::{SleepStep, sleep_retry, sleep_until_decision};

#[test]
fn sleep_until_falls_back_only_on_invalid_option() {
    assert_eq!(sleep_until_decision(0), SleepStep::Done);
    assert_eq!(sleep_until_decision(1), SleepStep::Done);
    assert_eq!(sleep_until_decision(INVALID_OPTION), SleepStep::FallbackToRelative);
    assert_eq!(sleep_until_decision(INTERRUPTED), SleepStep::Retry);
}

#[test]
fn plain_sleep_retries_every_error() {
    assert!(!sleep_retry(0));
    assert!(!sleep_retry(5));
    assert!(sleep_retry(INTERRUPTED));
    assert!(sleep_retry(-1));
}
