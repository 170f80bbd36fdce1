//! Error-context records: what the kernel attaches to an error report.

use crate::sys::option::ExtendedOptionHead;
use crate::uuid::Uuid;
use vstd::prelude::*;

verus! {

/// An error-context entry whose type this layer does not interpret.
#[derive(Copy, Clone)]
pub struct ErrorContextEntryUnknown {
    /// The entry's header.
    pub head: ExtendedOptionHead,
    /// The entry's uninterpreted body.
    pub payload: [u8; 64],
}

/// One entry of an error-context stack: either interpreted as an
/// invalid-option report, or carried uninterpreted.
#[derive(Copy, Clone)]
pub enum ErrorContextEntry {
    /// An entry whose type this layer does not interpret.
    Unknown(ErrorContextEntryUnknown),
    /// An invalid-option report.
    InvalidOption(ErrorContextInvalidOption),
}

/// The context attached to an invalid-option error: which option, at which
/// index, and why.
#[derive(Copy, Clone)]
pub struct ErrorContextInvalidOption {
    /// The entry's header.
    pub head: ExtendedOptionHead,
    /// The bottom sixteen bits are a generic reason code; the top sixteen
    /// carry per-reason information.
    pub reason_code: u32,
    /// The index of the offending option in the array that was handed in.
    pub index: usize,
    /// The type of the offending option.
    pub option_id: Uuid,
}

/// The option had a malformed header.
pub const ECTX_INVALID_OPTION_REASON_BAD_HEAD: u32 = 1;

/// The kernel does not understand a non-optional type.
pub const ECTX_INVALID_OPTION_REASON_UNKNOWN: u32 = 2;

/// The option was invalid for a type-dependent reason.
pub const ECTX_INVALID_OPTION_REASON_TYPE_DEPENDANT: u32 = 3;

/// The context-entry type identifier of [`ErrorContextInvalidOption`].
/// Canonical text form: `ef80b847-30d9-56f7-8349-5a358bc46e7a`.
pub fn error_context_type_invalid_option() -> (r: Uuid)
    ensures
        r.major == 0xef80b84730d956f7u64,
        r.minor == 0x83495a358bc46e7au64,
{
    Uuid { major: 0xef80b84730d956f7, minor: 0x83495a358bc46e7a }
}

} // verus!
