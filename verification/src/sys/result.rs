//! The kernel's result-code convention: zero or a positive value is a success
//! payload, a negative value is one of the error codes below.

use vstd::prelude::*;

verus! {

/// The signed integer type that is the same size as a machine word.
pub type SysResult = isize;

pub const PERMISSION: SysResult = -1;

pub const INVALID_HANDLE: SysResult = -2;

pub const INVALID_MEMORY: SysResult = -3;

pub const BUSY: SysResult = -4;

pub const INVALID_OPERATION: SysResult = -5;

pub const INVALID_STRING: SysResult = -6;

pub const INSUFFICIENT_LENGTH: SysResult = -7;

pub const RESOURCE_LIMIT_EXHAUSTED: SysResult = -8;

pub const INVALID_STATE: SysResult = -9;

pub const INVALID_OPTION: SysResult = -10;

pub const INSUFFICIENT_MEMORY: SysResult = -11;

pub const UNSUPPORTED_KERNEL_FUNCTION: SysResult = -12;

pub const FINISHED_ENUMERATE: SysResult = -13;

pub const TIMEOUT: SysResult = -14;

pub const INTERRUPTED: SysResult = -15;

pub const KILLED: SysResult = -16;

pub const UNSUPPORTED_OPERATION: SysResult = -17;

pub const PENDING: SysResult = -18;

pub const DOES_NOT_EXIST: SysResult = -19;

pub const ALREADY_EXISTS: SysResult = -20;

pub const UNKNOWN_DEVICE: SysResult = -21;

pub const WOULD_BLOCK: SysResult = -22;

pub const DEVICE_FULL: SysResult = -23;

pub const DEVICE_UNAVAILABLE: SysResult = -24;

pub const LINK_RESOLUTION_LOOP: SysResult = -25;

pub const ORPHANED_OBJECTS: SysResult = -26;

pub const CLOSED_REMOTELY: SysResult = -27;

pub const CONNECTION_INTERRUPTED: SysResult = -28;

pub const ADDRESS_NOT_AVAILABLE: SysResult = -29;

pub const SIGNALED: SysResult = -30;

pub const MAPPING_INACCESSIBLE: SysResult = -31;

pub const PRIVILEGE_CHECK_FAILED: SysResult = -32;

} // verus!
