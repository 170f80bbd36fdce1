use lilium_sys::sync::event::{
    Event, EventList, EventListResult, Optional, SleepFor, SleepUntil,
};
use lilium_sys::sys::event::{BlockingEvent, BlockingEventPayload};
use lilium_sys::sys::option::OPTION_FLAG_IGNORE;
use lilium_sys::time::{Duration, MonotonicClock, TimePoint};

fn millis(ms: i64) -> Duration {
    Duration::from_seconds_and_nanos(0, (ms * 1_000_000) as u32)
}

/// What the kernel does to a descriptor it resolved: the ignore flag is
/// cleared on every optional event that was actually satisfied.
fn resolved(d: BlockingEvent) -> BlockingEvent {
    BlockingEvent { flags: d.flags & !OPTION_FLAG_IGNORE, payload: d.payload }
}

#[test]
fn sleep_descriptor_carries_its_duration() {
    let e = SleepFor(millis(100));
    let d = e.init();
    assert_eq!(d.flags, 0);
    match d.payload {
        BlockingEventPayload::SleepThread { duration } => {
            assert_eq!(duration.seconds, 0);
            assert_eq!(duration.nanos_of_second, 100_000_000);
        }
        _ => panic!("wrong payload kind"),
    }
}

#[test]
fn sleep_until_descriptor_names_its_clock() {
    let tp: TimePoint<MonotonicClock> = TimePoint::from_epoch_offset(millis(10));
    let e = SleepUntil(tp);
    let d = e.init();
    match d.payload {
        BlockingEventPayload::SleepUntil { epoch, clock } => {
            assert_eq!(epoch.nanos_of_second, 10_000_000);
            assert_eq!(clock.major, 0xdf95f5b1bbb73562);
        }
        _ => panic!("wrong payload kind"),
    }
}

#[test]
fn optional_marks_its_descriptor_ignorable() {
    let e = Optional(SleepFor(millis(10)));
    let d = e.init();
    assert_eq!(d.flags & OPTION_FLAG_IGNORE, OPTION_FLAG_IGNORE);
}

#[test]
fn all_of_sleep_and_optional_sleep() {
    // One plain sleep and one optional sleep; the kernel resolves both
    // (sleeps always resolve, they are never left unsupported), so the
    // optional slot extracts as present.
    let events = (SleepFor(millis(100)), Optional(SleepFor(millis(10))));
    let list = events.build_list();
    assert_eq!(list.len(), 2);
    let completed = vec![resolved(list[0]), resolved(list[1])];
    let (first, second) = events.all_result(&completed);
    assert_eq!(first, ());
    assert_eq!(second, Some(()));
}

#[test]
fn optional_left_unresolved_extracts_as_absent() {
    let events = (SleepFor(millis(100)), Optional(SleepFor(millis(10))));
    let list = events.build_list();
    // The kernel left the optional descriptor untouched: flag still set.
    let completed = vec![resolved(list[0]), list[1]];
    let (_, second) = events.all_result(&completed);
    assert_eq!(second, None);
}

#[test]
fn any_of_two_sleeps_selects_by_index() {
    // Two sleeps of 10 and 1000 milliseconds: the shorter fires first,
    // so the kernel reports index zero, and extraction takes the first
    // event's value.
    let events = (SleepFor(millis(10)), SleepFor(millis(1000)));
    let list = events.build_list();
    let completed = vec![resolved(list[0]), list[1]];
    match events.any_result(&completed, 0) {
        EventListResult::_0(v) => assert_eq!(v, ()),
        _ => panic!("the fired index selects the first variant"),
    }
}

#[test]
fn homogeneous_lists_extract_per_element() {
    let events = vec![SleepFor(millis(10)), SleepFor(millis(20)), SleepFor(millis(30))];
    let list = events.build_list();
    assert_eq!(list.len(), 3);
    let completed: Vec<BlockingEvent> = list.iter().map(|d| resolved(*d)).collect();
    let all = events.all_result(&completed);
    assert_eq!(all.len(), 3);
    let one = events.any_result(&completed, 1);
    assert_eq!(one, ());
}

#[test]
fn empty_collection_builds_an_empty_list() {
    let events = ();
    let list = events.build_list();
    assert!(list.is_empty());
    assert_eq!(events.all_result(&list), ());
}

#[test]
fn twelve_events_build_in_order() {
    let events = (
        SleepFor(millis(1)),
        SleepFor(millis(2)),
        SleepFor(millis(3)),
        SleepFor(millis(4)),
        SleepFor(millis(5)),
        SleepFor(millis(6)),
        SleepFor(millis(7)),
        SleepFor(millis(8)),
        SleepFor(millis(9)),
        SleepFor(millis(10)),
        SleepFor(millis(11)),
        SleepFor(millis(12)),
    );
    let list = events.build_list();
    assert_eq!(list.len(), 12);
    for (i, d) in list.iter().enumerate() {
        match d.payload {
            BlockingEventPayload::SleepThread { duration } => {
                assert_eq!(duration.nanos_of_second as usize, (i + 1) * 1_000_000);
            }
            _ => panic!("wrong payload kind"),
        }
    }
    let completed: Vec<BlockingEvent> = list.iter().map(|d| resolved(*d)).collect();
    match events.any_result(&completed, 11) {
        EventListResult::_11(v) => assert_eq!(v, ()),
        _ => panic!("the fired index selects the last variant"),
    }
}
