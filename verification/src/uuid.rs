//! Universally unique identifiers in the kernel's split `major`/`minor` wire
//! form, together with parsing from the canonical hyphenated text form.
//!
//! The text form is `xxxxxxxx-xxxx-xxxx-xxxx-xxxxxxxxxxxx`, optionally wrapped
//! in a brace pair.  The first three groups populate `major` (most significant
//! first), the last two populate `minor`.

use vstd::prelude::*;
use vstd::string::StringSliceAdditionalSpecFns;

verus! {

/// A 128-bit identifier, stored as the kernel expects it: the `major` half
/// carries the first three hyphenated groups, the `minor` half the last two.
#[derive(Copy, Clone, Debug, Hash, PartialEq, Eq, Structural)]
pub struct Uuid {
    pub minor: u64,
    pub major: u64,
}

impl Uuid {
    /// The all-zero identifier.
    pub fn nil() -> (r: Uuid)
        ensures
            r.major == 0 && r.minor == 0,
    {
        Uuid { minor: 0, major: 0 }
    }

    /// The all-one identifier.
    pub fn full() -> (r: Uuid)
        ensures
            r.major == u64::MAX && r.minor == u64::MAX,
    {
        Uuid { minor: u64::MAX, major: u64::MAX }
    }
}

/// ASCII code of `'0'`.
pub const CHAR_ZERO: u8 = 48;

/// ASCII code of `'9'`.
pub const CHAR_NINE: u8 = 57;

/// ASCII code of `'A'`.
pub const CHAR_UPPER_A: u8 = 65;

/// ASCII code of `'F'`.
pub const CHAR_UPPER_F: u8 = 70;

/// ASCII code of `'a'`.
pub const CHAR_LOWER_A: u8 = 97;

/// ASCII code of `'f'`.
pub const CHAR_LOWER_F: u8 = 102;

/// ASCII code of `'-'`.
pub const CHAR_DASH: u8 = 45;

/// ASCII code of `'{'`.
pub const CHAR_OPEN_BRACE: u8 = 123;

/// ASCII code of `'}'`.
pub const CHAR_CLOSE_BRACE: u8 = 125;

/// The value of one hexadecimal digit character, or `None` for any other byte.
pub open spec fn spec_hexdig(c: u8) -> Option<u64> {
    if CHAR_ZERO <= c && c <= CHAR_NINE {
        Some((c - CHAR_ZERO) as u64)
    } else if CHAR_UPPER_A <= c && c <= CHAR_UPPER_F {
        Some((c - CHAR_UPPER_A + 10) as u64)
    } else if CHAR_LOWER_A <= c && c <= CHAR_LOWER_F {
        Some((c - CHAR_LOWER_A + 10) as u64)
    } else {
        None
    }
}

/// Converts one ASCII byte to its value as a hexadecimal digit.
pub fn to_hexdig(c: u8) -> (r: Option<u64>)
    ensures
        r == spec_hexdig(c),
{
    if CHAR_ZERO <= c && c <= CHAR_NINE {
        Some((c - CHAR_ZERO) as u64)
    } else if CHAR_UPPER_A <= c && c <= CHAR_UPPER_F {
        Some((c - CHAR_UPPER_A) as u64 + 10)
    } else if CHAR_LOWER_A <= c && c <= CHAR_LOWER_F {
        Some((c - CHAR_LOWER_A) as u64 + 10)
    } else {
        None
    }
}

/// The digit value used when accumulating: a non-digit contributes zero.
pub open spec fn hexv(c: u8) -> int {
    match spec_hexdig(c) {
        Some(d) => d as int,
        None => 0,
    }
}

/// The value of a big-endian string of hexadecimal digits.
pub open spec fn hex_val(s: Seq<u8>) -> int
    decreases s.len(),
{
    if s.len() == 0 {
        0
    } else {
        16 * hex_val(s.drop_last()) + hexv(s.last())
    }
}

/// `16^n`.
pub open spec fn pow16(n: nat) -> int
    decreases n,
{
    if n == 0 {
        1
    } else {
        16 * pow16((n - 1) as nat)
    }
}

pub proof fn lemma_pow16_pos(n: nat)
    ensures
        pow16(n) >= 1,
    decreases n,
{
    if n > 0 {
        lemma_pow16_pos((n - 1) as nat);
    }
}

pub proof fn lemma_pow16_mono(m: nat, n: nat)
    requires
        m <= n,
    ensures
        pow16(m) <= pow16(n),
    decreases n,
{
    if m < n {
        lemma_pow16_mono(m, (n - 1) as nat);
        lemma_pow16_pos((n - 1) as nat);
    }
}

pub proof fn lemma_pow16_values()
    ensures
        pow16(4) == 0x10000,
        pow16(8) == 0x100000000,
        pow16(12) == 0x1000000000000,
        pow16(16) == 0x10000000000000000,
{
    reveal_with_fuel(pow16, 17);
}

pub proof fn lemma_hex_val_bound(s: Seq<u8>)
    ensures
        0 <= hex_val(s) < pow16(s.len()),
    decreases s.len(),
{
    if s.len() > 0 {
        lemma_hex_val_bound(s.drop_last());
    }
}

/// Appending one digit multiplies the accumulated value by sixteen.
pub proof fn lemma_hex_val_snoc(s: Seq<u8>, j: int)
    requires
        0 <= j < s.len(),
    ensures
        hex_val(s.take(j + 1)) == 16 * hex_val(s.take(j)) + hexv(s[j]),
{
    assert(s.take(j + 1).drop_last() =~= s.take(j));
    assert(s.take(j + 1).last() == s[j]);
}

/// Strips one enclosing brace pair, when both braces are present.
pub open spec fn strip_braces(b: Seq<u8>) -> Seq<u8> {
    if b.len() >= 2 && b[0] == CHAR_OPEN_BRACE && b[b.len() - 1] == CHAR_CLOSE_BRACE {
        b.subrange(1, b.len() - 1)
    } else {
        b
    }
}

/// Whether position `i` of the 36-character form holds a group separator.
pub open spec fn sep_pos(i: int) -> bool {
    i == 8 || i == 13 || i == 18 || i == 23
}

/// Whether position `i` holds what the layout expects there.
pub open spec fn ok_at(s: Seq<u8>, i: int) -> bool {
    if sep_pos(i) {
        s[i] == CHAR_DASH
    } else {
        spec_hexdig(s[i]) is Some
    }
}

/// The first position at or after `i` that breaks the layout, or 36.
pub open spec fn first_bad_from(s: Seq<u8>, i: int) -> int
    decreases 36 - i when 0 <= i <= 36
{
    if i >= 36 {
        36
    } else if ok_at(s, i) {
        first_bad_from(s, i + 1)
    } else {
        i
    }
}

pub proof fn lemma_first_bad_skip(s: Seq<u8>, i: int)
    requires
        0 <= i <= 36,
        forall|k: int| 0 <= k < i ==> ok_at(s, k),
    ensures
        first_bad_from(s, 0) == first_bad_from(s, i),
    decreases i,
{
    if i > 0 {
        lemma_first_bad_skip(s, i - 1);
        assert(ok_at(s, i - 1));
    }
}

/// The sixteen digit positions that make up `major`, in order.
pub open spec fn major_digits(s: Seq<u8>) -> Seq<u8> {
    s.subrange(0, 8) + s.subrange(9, 13) + s.subrange(14, 18)
}

/// The sixteen digit positions that make up `minor`, in order.
pub open spec fn minor_digits(s: Seq<u8>) -> Seq<u8> {
    s.subrange(19, 23) + s.subrange(24, 36)
}

/// The identifier encoded by a well-formed 36-character body.
pub open spec fn spec_uuid_of(s: Seq<u8>) -> Uuid {
    Uuid {
        major: hex_val(major_digits(s)) as u64,
        minor: hex_val(minor_digits(s)) as u64,
    }
}

/// Everything `try_parse_uuid` returns, as a function of the input bytes:
/// braces are stripped, the length must then be exactly 36, and the earliest
/// offending position decides which error is reported.
pub open spec fn spec_try_parse_uuid(b: Seq<u8>) -> Result<Uuid, TryParseUuidError> {
    let s = strip_braces(b);
    if s.len() != 36 {
        Err(TryParseUuidError::InvalidLen(s.len() as usize))
    } else {
        let j = first_bad_from(s, 0);
        if j == 36 {
            Ok(spec_uuid_of(s))
        } else if sep_pos(j) {
            Err(TryParseUuidError::UnexpectedChar(j as usize))
        } else {
            Err(TryParseUuidError::InvalidDigit(j as usize))
        }
    }
}

/// Why a candidate identifier string was rejected.
#[derive(Copy, Clone, Debug, Hash, PartialEq, Eq, Structural)]
pub enum TryParseUuidError {
    /// The body (after brace stripping) does not have 36 characters.
    InvalidLen(usize),
    /// The position holds no hexadecimal digit where one is required.
    InvalidDigit(usize),
    /// The position holds no separator where one is required.
    UnexpectedChar(usize),
}

/// Parses the canonical hyphenated text form, optionally enclosed in braces.
pub fn try_parse_uuid(st: &str) -> (r: Result<Uuid, TryParseUuidError>)
    ensures
        r == spec_try_parse_uuid(st.spec_bytes()),
{
    let b: &[u8] = st.as_bytes();
    let n: usize = b.len();
    let base: usize = if n >= 2 && b[0] == CHAR_OPEN_BRACE && b[n - 1] == CHAR_CLOSE_BRACE {
        1
    } else {
        0
    };
    let ghost s = strip_braces(st.spec_bytes());
    let len: usize = n - 2 * base;
    assert(s.len() == len);
    assert(forall|k: int| 0 <= k < len ==> s[k] == b@[k + base]);

    if len != 36 {
        return Err(TryParseUuidError::InvalidLen(len));
    }

    let mut major: u64 = 0;
    let mut minor: u64 = 0;
    let ghost md = major_digits(s);
    let ghost nd = minor_digits(s);
    assert(md.len() == 16 && nd.len() == 16);

    let mut i: usize = 0;
    while i < 8
        invariant
            0 <= i <= 8,
            s == strip_braces(st.spec_bytes()),
            s.len() == 36,
            n == b@.len(),
            base + 36 <= n,
            forall|k: int| 0 <= k < s.len() ==> s[k] == b@[k + base],
            md == major_digits(s),
            forall|k: int| 0 <= k < i ==> ok_at(s, k),
            major as int == hex_val(md.take(i as int)),
        decreases 8 - i,
    {
        proof {
            lemma_hex_val_bound(md.take(i as int));
            lemma_pow16_mono(i as nat, 7);
            lemma_pow16_values();
            lemma_pow16_mono(7, 8);
            assert(md.take(i as int).len() == i as int);
        }
        let c = b[base + i];
        assert(c == s[i as int] && s[i as int] == md[i as int]);
        if let Some(dig) = to_hexdig(c) {
            proof {
                lemma_hex_val_snoc(md, i as int);
            }
            major = major * 16 + dig;
        } else {
            proof {
                lemma_first_bad_skip(s, i as int);
            }
            return Err(TryParseUuidError::InvalidDigit(i));
        }
        i += 1;
    }

    if b[base + 8] != CHAR_DASH {
        proof {
            lemma_first_bad_skip(s, 8);
        }
        return Err(TryParseUuidError::UnexpectedChar(8));
    }

    let mut i: usize = 9;
    while i < 13
        invariant
            9 <= i <= 13,
            s == strip_braces(st.spec_bytes()),
            s.len() == 36,
            n == b@.len(),
            base + 36 <= n,
            forall|k: int| 0 <= k < s.len() ==> s[k] == b@[k + base],
            md == major_digits(s),
            forall|k: int| 0 <= k < i ==> ok_at(s, k),
            major as int == hex_val(md.take(i - 1)),
        decreases 13 - i,
    {
        proof {
            lemma_hex_val_bound(md.take(i - 1));
            lemma_pow16_mono((i - 1) as nat, 11);
            lemma_pow16_values();
            lemma_pow16_mono(11, 12);
            assert(md.take(i - 1).len() == i - 1);
        }
        let c = b[base + i];
        assert(c == s[i as int] && s[i as int] == md[i - 1]);
        if let Some(dig) = to_hexdig(c) {
            proof {
                lemma_hex_val_snoc(md, i - 1);
            }
            major = major * 16 + dig;
        } else {
            proof {
                lemma_first_bad_skip(s, i as int);
            }
            return Err(TryParseUuidError::InvalidDigit(i));
        }
        i += 1;
    }

    if b[base + 13] != CHAR_DASH {
        proof {
            lemma_first_bad_skip(s, 13);
        }
        return Err(TryParseUuidError::UnexpectedChar(13));
    }

    let mut i: usize = 14;
    while i < 18
        invariant
            14 <= i <= 18,
            s == strip_braces(st.spec_bytes()),
            s.len() == 36,
            n == b@.len(),
            base + 36 <= n,
            forall|k: int| 0 <= k < s.len() ==> s[k] == b@[k + base],
            md == major_digits(s),
            forall|k: int| 0 <= k < i ==> ok_at(s, k),
            major as int == hex_val(md.take(i - 2)),
        decreases 18 - i,
    {
        proof {
            lemma_hex_val_bound(md.take(i - 2));
            lemma_pow16_mono((i - 2) as nat, 15);
            lemma_pow16_values();
            lemma_pow16_mono(15, 16);
            assert(md.take(i - 2).len() == i - 2);
        }
        let c = b[base + i];
        assert(c == s[i as int] && s[i as int] == md[i - 2]);
        if let Some(dig) = to_hexdig(c) {
            proof {
                lemma_hex_val_snoc(md, i - 2);
            }
            major = major * 16 + dig;
        } else {
            proof {
                lemma_first_bad_skip(s, i as int);
            }
            return Err(TryParseUuidError::InvalidDigit(i));
        }
        i += 1;
    }

    if b[base + 18] != CHAR_DASH {
        proof {
            lemma_first_bad_skip(s, 18);
        }
        return Err(TryParseUuidError::UnexpectedChar(18));
    }

    let mut i: usize = 19;
    while i < 23
        invariant
            19 <= i <= 23,
            s == strip_braces(st.spec_bytes()),
            s.len() == 36,
            n == b@.len(),
            base + 36 <= n,
            forall|k: int| 0 <= k < s.len() ==> s[k] == b@[k + base],
            nd == minor_digits(s),
            forall|k: int| 0 <= k < i ==> ok_at(s, k),
            minor as int == hex_val(nd.take(i - 19)),
        decreases 23 - i,
    {
        proof {
            lemma_hex_val_bound(nd.take(i - 19));
            lemma_pow16_mono((i - 19) as nat, 3);
            lemma_pow16_values();
            lemma_pow16_mono(3, 4);
            assert(nd.take(i - 19).len() == i - 19);
        }
        let c = b[base + i];
        assert(c == s[i as int] && s[i as int] == nd[i - 19]);
        if let Some(dig) = to_hexdig(c) {
            proof {
                lemma_hex_val_snoc(nd, i - 19);
            }
            minor = minor * 16 + dig;
        } else {
            proof {
                lemma_first_bad_skip(s, i as int);
            }
            return Err(TryParseUuidError::InvalidDigit(i));
        }
        i += 1;
    }

    if b[base + 23] != CHAR_DASH {
        proof {
            lemma_first_bad_skip(s, 23);
        }
        return Err(TryParseUuidError::UnexpectedChar(23));
    }

    let mut i: usize = 24;
    while i < 36
        invariant
            24 <= i <= 36,
            s == strip_braces(st.spec_bytes()),
            s.len() == 36,
            n == b@.len(),
            base + 36 <= n,
            forall|k: int| 0 <= k < s.len() ==> s[k] == b@[k + base],
            nd == minor_digits(s),
            forall|k: int| 0 <= k < i ==> ok_at(s, k),
            minor as int == hex_val(nd.take(i - 20)),
        decreases 36 - i,
    {
        proof {
            lemma_hex_val_bound(nd.take(i - 20));
            lemma_pow16_mono((i - 20) as nat, 15);
            lemma_pow16_values();
            lemma_pow16_mono(15, 16);
            assert(nd.take(i - 20).len() == i - 20);
        }
        let c = b[base + i];
        assert(c == s[i as int] && s[i as int] == nd[i - 20]);
        if let Some(dig) = to_hexdig(c) {
            proof {
                lemma_hex_val_snoc(nd, i - 20);
            }
            minor = minor * 16 + dig;
        } else {
            proof {
                lemma_first_bad_skip(s, i as int);
            }
            return Err(TryParseUuidError::InvalidDigit(i));
        }
        i += 1;
    }

    proof {
        lemma_first_bad_skip(s, 36);
        assert(md.take(16) =~= md);
        assert(nd.take(16) =~= nd);
        lemma_hex_val_bound(md);
        lemma_hex_val_bound(nd);
    }
    Ok(Uuid { major, minor })
}

/// Parses a text form that is statically known to be well formed.
pub fn parse_uuid(st: &str) -> (r: Uuid)
    requires
        spec_try_parse_uuid(st.spec_bytes()) is Ok,
    ensures
        Ok::<Uuid, TryParseUuidError>(r) == spec_try_parse_uuid(st.spec_bytes()),
{
    match try_parse_uuid(st) {
        Ok(uuid) => uuid,
        Err(_) => {
            proof {
                assert(false);
            }
            Uuid { minor: 0, major: 0 }
        },
    }
}

} // verus!
