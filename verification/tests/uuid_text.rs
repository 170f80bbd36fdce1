use lilium_sys::uuid::{Uuid, TryParseUuidError, parse_uuid, to_hexdig, try_parse_uuid};

#[test]
fn parses_canonical_form() {
    let u = try_parse_uuid("c8baabaf-b534-3fa1-929e-6177713e93f4").unwrap();
    assert_eq!(u.major, 0xc8baabafb5343fa1);
    assert_eq!(u.minor, 0x929e6177713e93f4);
}

#[test]
fn parses_braced_form() {
    let plain = try_parse_uuid("d898a750-04c4-5479-aa6d-6103d202ce28").unwrap();
    let braced = try_parse_uuid("{d898a750-04c4-5479-aa6d-6103d202ce28}").unwrap();
    assert_eq!(plain, braced);
    assert_eq!(braced.major, 0xd898a75004c45479);
    assert_eq!(braced.minor, 0xaa6d6103d202ce28);
}

#[test]
fn parses_uppercase_digits() {
    let u = try_parse_uuid("DF95F5B1-BBB7-3562-8C7A-6C3CE0A5DD95").unwrap();
    assert_eq!(u.major, 0xdf95f5b1bbb73562);
    assert_eq!(u.minor, 0x8c7a6c3ce0a5dd95);
}

#[test]
fn rejects_wrong_length() {
    assert_eq!(try_parse_uuid("abc"), Err(TryParseUuidError::InvalidLen(3)));
    assert_eq!(try_parse_uuid(""), Err(TryParseUuidError::InvalidLen(0)));
    // The braces are stripped before the length is measured.
    assert_eq!(try_parse_uuid("{abc}"), Err(TryParseUuidError::InvalidLen(3)));
}

#[test]
fn rejects_bad_digit_at_first_offending_position() {
    assert_eq!(
        try_parse_uuid("z8baabaf-b534-3fa1-929e-6177713e93f4"),
        Err(TryParseUuidError::InvalidDigit(0))
    );
    assert_eq!(
        try_parse_uuid("c8baabaf-b534-3fa1-929e-6177713e93fz"),
        Err(TryParseUuidError::InvalidDigit(35))
    );
}

#[test]
fn rejects_bad_separator() {
    assert_eq!(
        try_parse_uuid("c8baabaf_b534-3fa1-929e-6177713e93f4"),
        Err(TryParseUuidError::UnexpectedChar(8))
    );
    assert_eq!(
        try_parse_uuid("c8baabaf-b534-3fa1_929e-6177713e93f4"),
        Err(TryParseUuidError::UnexpectedChar(18))
    );
}

#[test]
fn infallible_parse_matches_fallible() {
    let u = parse_uuid("6c222e98-9d03-5f9f-babb-563695db3f4c");
    assert_eq!(u, try_parse_uuid("6c222e98-9d03-5f9f-babb-563695db3f4c").unwrap());
}

#[test]
fn hex_digits_cover_all_ranges() {
    assert_eq!(to_hexdig(b'0'), Some(0));
    assert_eq!(to_hexdig(b'9'), Some(9));
    assert_eq!(to_hexdig(b'A'), Some(10));
    assert_eq!(to_hexdig(b'F'), Some(15));
    assert_eq!(to_hexdig(b'a'), Some(10));
    assert_eq!(to_hexdig(b'f'), Some(15));
    assert_eq!(to_hexdig(b'g'), None);
    assert_eq!(to_hexdig(b'-'), None);
}

#[test]
fn nil_and_full_are_the_extremes() {
    assert_eq!(Uuid::nil(), Uuid { major: 0, minor: 0 });
    assert_eq!(Uuid::full(), Uuid { major: u64::MAX, minor: u64::MAX });
}
