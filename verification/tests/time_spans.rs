use lilium_sys::sys::time as systime;
use lilium_sys::time::{Clock, Duration, MonotonicClock, SystemClock, TimePoint};
use lilium_sys::uuid::parse_uuid;

#[test]
fn from_seconds_and_nanos_normalises() {
    let d = Duration::from_seconds_and_nanos(1, 2_500_000_000);
    let w = d.into_system();
    assert_eq!(w.seconds, 3);
    assert_eq!(w.nanos_of_second, 500_000_000);
}

#[test]
fn from_system_normalises() {
    let d = Duration::from_system(systime::Duration { seconds: 0, nanos_of_second: 1_000_000_001 });
    let w = d.into_system();
    assert_eq!(w.seconds, 1);
    assert_eq!(w.nanos_of_second, 1);
}

#[test]
fn addition_carries_whole_seconds() {
    let a = Duration::from_seconds_and_nanos(1, 600_000_000);
    let b = Duration::from_seconds_and_nanos(2, 700_000_000);
    let s = a.add(b).into_system();
    assert_eq!(s.seconds, 4);
    assert_eq!(s.nanos_of_second, 300_000_000);
}

#[test]
fn subtraction_borrows_a_second() {
    let a = Duration::from_seconds_and_nanos(3, 100_000_000);
    let b = Duration::from_seconds_and_nanos(1, 600_000_000);
    let s = a.sub(b).into_system();
    assert_eq!(s.seconds, 1);
    assert_eq!(s.nanos_of_second, 500_000_000);
}

#[test]
fn between_is_the_elapsed_span() {
    let earlier: TimePoint<MonotonicClock> =
        TimePoint::from_epoch_offset(Duration::from_seconds_and_nanos(10, 900_000_000));
    let later: TimePoint<MonotonicClock> =
        TimePoint::from_epoch_offset(Duration::from_seconds_and_nanos(12, 100_000_000));
    let d = later.between(earlier).into_system();
    assert_eq!(d.seconds, 1);
    assert_eq!(d.nanos_of_second, 200_000_000);
}

#[test]
fn epoch_is_zero() {
    let e: TimePoint<SystemClock> = TimePoint::epoch();
    let d = e.since_epoch().into_system();
    assert_eq!(d.seconds, 0);
    assert_eq!(d.nanos_of_second, 0);
}

#[test]
fn clock_identifiers_match_their_canonical_text() {
    assert_eq!(SystemClock::clock_uuid(), parse_uuid("c8baabaf-b534-3fa1-929e-6177713e93f4"));
    assert_eq!(MonotonicClock::clock_uuid(), parse_uuid("df95f5b1-bbb7-3562-8c7a-6c3ce0a5dd95"));
    assert_eq!(systime::clock_epoch(), SystemClock::clock_uuid());
    assert_eq!(systime::clock_monotonic(), MonotonicClock::clock_uuid());
}

#[test]
fn zero_duration_is_empty() {
    let z = Duration::zero().into_system();
    assert_eq!(z.seconds, 0);
    assert_eq!(z.nanos_of_second, 0);
}
