use lilium_sys::fs::{
    DirCreateStep, DirOpenStep, LinkReadStep, create_dir_create_decision,
    create_dir_open_decision, read_link_decision,
};
use lilium_sys::result::Error;
use lilium_sys::sys::result::{ALREADY_EXISTS, DOES_NOT_EXIST, INSUFFICIENT_LENGTH, PERMISSION};

#[test]
fn opening_existing_components_descends() {
    assert_eq!(create_dir_open_decision(0), DirOpenStep::Descend);
    assert_eq!(create_dir_open_decision(DOES_NOT_EXIST), DirOpenStep::TryCreate);
    assert_eq!(create_dir_open_decision(PERMISSION), DirOpenStep::Fail(Error::Permission));
}

#[test]
fn losing_the_creation_race_reopens() {
    assert_eq!(create_dir_create_decision(0), DirCreateStep::Descend);
    assert_eq!(create_dir_create_decision(ALREADY_EXISTS), DirCreateStep::RetryOpen);
    assert_eq!(create_dir_create_decision(PERMISSION), DirCreateStep::Fail(Error::Permission));
}

#[test]
fn link_reads_grow_exactly_when_short() {
    // The target fits: done.
    assert_eq!(read_link_decision(0, 100, 256), LinkReadStep::Done);
    // The call succeeded but reported a longer target than the buffer.
    assert_eq!(read_link_decision(0, 300, 256), LinkReadStep::Grow);
    // The kernel rejected the short buffer outright.
    assert_eq!(read_link_decision(INSUFFICIENT_LENGTH, 300, 256), LinkReadStep::Grow);
    assert_eq!(read_link_decision(PERMISSION, 0, 256), LinkReadStep::Fail(Error::Permission));
}
