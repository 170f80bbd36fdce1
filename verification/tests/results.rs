use lilium_sys::result::Error;
use lilium_sys::sys::result::{INTERRUPTED, INVALID_STATE, PERMISSION, TIMEOUT};

#[test]
fn positive_codes_are_success() {
    assert!(Error::from_code(0).is_ok());
    assert!(Error::from_code(17).is_ok());
    assert!(Error::from_code(isize::MAX).is_ok());
}

#[test]
fn named_codes_round_trip() {
    for e in [
        Error::Permission,
        Error::InvalidState,
        Error::Timeout,
        Error::Interrupted,
        Error::Killed,
        Error::Signaled,
        Error::DoesNotExist,
        Error::PrivilegeCheckFailed,
    ] {
        let code = e.into_code();
        assert!(code < 0);
        assert_eq!(Error::from_code(code), Err(e));
    }
}

#[test]
fn unknown_codes_round_trip() {
    let code: isize = -123456;
    let e = Error::from_code(code).unwrap_err();
    assert_eq!(e, Error::Unknown(code));
    assert_eq!(e.into_code(), code);
}

#[test]
fn distinguished_codes_name_their_errors() {
    assert_eq!(Error::from_code(INVALID_STATE), Err(Error::InvalidState));
    assert_eq!(Error::from_code(INTERRUPTED), Err(Error::Interrupted));
    assert_eq!(Error::from_code(TIMEOUT), Err(Error::Timeout));
    assert_eq!(Error::from_code(PERMISSION), Err(Error::Permission));
}
