//! Wire-level time quantities and the well-known clock identifiers.

use crate::uuid::Uuid;
use vstd::prelude::*;

verus! {

/// One thousand million: the number of nanoseconds in a second.
pub const NANOS_PER_SECOND: u32 = 1_000_000_000;

/// A signed span of time, measured in whole `seconds` plus `nanos_of_second`
/// nanoseconds.  The wire form does not itself force `nanos_of_second` below
/// one second; the typed wrapper in [`crate::time`] normalises it.
#[derive(Copy, Clone, Debug, Hash, PartialEq, Eq, PartialOrd, Ord, Structural)]
pub struct Duration {
    /// Whole seconds; negative spans are allowed.
    pub seconds: i64,
    /// Nanoseconds past `seconds`; in `[0, 1_000_000_000)` once normalised.
    pub nanos_of_second: u32,
}

/// The identifier of the clock that tracks realtime offset since the Unix
/// epoch.  Canonical text form: `c8baabaf-b534-3fa1-929e-6177713e93f4`.
pub fn clock_epoch() -> (r: Uuid)
    ensures
        r.major == 0xc8baabafb5343fa1u64,
        r.minor == 0x929e6177713e93f4u64,
{
    Uuid { major: 0xc8baabafb5343fa1, minor: 0x929e6177713e93f4 }
}

/// The identifier of the clock that advances monotonically from an
/// unspecified origin.  Canonical text form:
/// `df95f5b1-bbb7-3562-8c7a-6c3ce0a5dd95`.
pub fn clock_monotonic() -> (r: Uuid)
    ensures
        r.major == 0xdf95f5b1bbb73562u64,
        r.minor == 0x8c7a6c3ce0a5dd95u64,
{
    Uuid { major: 0xdf95f5b1bbb73562, minor: 0x8c7a6c3ce0a5dd95 }
}

} // verus!
