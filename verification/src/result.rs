//! Typed views of the kernel's negative result codes.

use crate::sys::result::{
    ADDRESS_NOT_AVAILABLE, ALREADY_EXISTS, BUSY, CLOSED_REMOTELY, CONNECTION_INTERRUPTED,
    DEVICE_FULL, DEVICE_UNAVAILABLE, DOES_NOT_EXIST, FINISHED_ENUMERATE, INSUFFICIENT_LENGTH,
    INSUFFICIENT_MEMORY, INTERRUPTED, INVALID_HANDLE, INVALID_MEMORY, INVALID_OPERATION,
    INVALID_OPTION, INVALID_STATE, INVALID_STRING, KILLED, LINK_RESOLUTION_LOOP,
    MAPPING_INACCESSIBLE, ORPHANED_OBJECTS, PENDING, PERMISSION, PRIVILEGE_CHECK_FAILED,
    RESOURCE_LIMIT_EXHAUSTED, SIGNALED, SysResult, TIMEOUT, UNKNOWN_DEVICE,
    UNSUPPORTED_KERNEL_FUNCTION, UNSUPPORTED_OPERATION, WOULD_BLOCK,
};
use vstd::prelude::*;

verus! {

/// One error returned across the system-call boundary.  `Unknown` carries a
/// negative code outside the table of named codes.
#[derive(Copy, Clone, Debug, Hash, PartialEq, Eq, Structural)]
#[non_exhaustive]
pub enum Error {
    Unknown(SysResult),
    Permission,
    InvalidHandle,
    InvalidMemory,
    Busy,
    InvalidOperation,
    InvalidString,
    InsufficientLength,
    ResourceLimitExhausted,
    InvalidState,
    InvalidOption,
    InsufficientMemory,
    UnsupportedKernelFunction,
    FinishedEnumerate,
    Timeout,
    Interrupted,
    Killed,
    UnsupportedOperation,
    Pending,
    DoesNotExist,
    AlreadyExists,
    UnknownDevice,
    WouldBlock,
    DeviceFull,
    DeviceUnavailable,
    LinkResolutionLoop,
    OrphanedObjects,
    ClosedRemotely,
    ConnectionInterrupted,
    AddressNotAvailable,
    Signaled,
    MappingInaccessible,
    PrivilegeCheckFailed,
}

/// The error named by a negative result code.
pub open spec fn spec_error_of(code: SysResult) -> Error {
    if code == PERMISSION {
        Error::Permission
    } else if code == INVALID_HANDLE {
        Error::InvalidHandle
    } else if code == INVALID_MEMORY {
        Error::InvalidMemory
    } else if code == BUSY {
        Error::Busy
    } else if code == INVALID_OPERATION {
        Error::InvalidOperation
    } else if code == INVALID_STRING {
        Error::InvalidString
    } else if code == INSUFFICIENT_LENGTH {
        Error::InsufficientLength
    } else if code == RESOURCE_LIMIT_EXHAUSTED {
        Error::ResourceLimitExhausted
    } else if code == INVALID_STATE {
        Error::InvalidState
    } else if code == INVALID_OPTION {
        Error::InvalidOption
    } else if code == INSUFFICIENT_MEMORY {
        Error::InsufficientMemory
    } else if code == UNSUPPORTED_KERNEL_FUNCTION {
        Error::UnsupportedKernelFunction
    } else if code == FINISHED_ENUMERATE {
        Error::FinishedEnumerate
    } else if code == TIMEOUT {
        Error::Timeout
    } else if code == INTERRUPTED {
        Error::Interrupted
    } else if code == KILLED {
        Error::Killed
    } else if code == UNSUPPORTED_OPERATION {
        Error::UnsupportedOperation
    } else if code == PENDING {
        Error::Pending
    } else if code == DOES_NOT_EXIST {
        Error::DoesNotExist
    } else if code == ALREADY_EXISTS {
        Error::AlreadyExists
    } else if code == UNKNOWN_DEVICE {
        Error::UnknownDevice
    } else if code == WOULD_BLOCK {
        Error::WouldBlock
    } else if code == DEVICE_FULL {
        Error::DeviceFull
    } else if code == DEVICE_UNAVAILABLE {
        Error::DeviceUnavailable
    } else if code == LINK_RESOLUTION_LOOP {
        Error::LinkResolutionLoop
    } else if code == ORPHANED_OBJECTS {
        Error::OrphanedObjects
    } else if code == CLOSED_REMOTELY {
        Error::ClosedRemotely
    } else if code == CONNECTION_INTERRUPTED {
        Error::ConnectionInterrupted
    } else if code == ADDRESS_NOT_AVAILABLE {
        Error::AddressNotAvailable
    } else if code == SIGNALED {
        Error::Signaled
    } else if code == MAPPING_INACCESSIBLE {
        Error::MappingInaccessible
    } else if code == PRIVILEGE_CHECK_FAILED {
        Error::PrivilegeCheckFailed
    } else {
        Error::Unknown(code)
    }
}

/// The result code that stands for an error.
pub open spec fn spec_error_code(e: Error) -> SysResult {
    match e {
        Error::Unknown(x) => x,
        Error::Permission => PERMISSION,
        Error::InvalidHandle => INVALID_HANDLE,
        Error::InvalidMemory => INVALID_MEMORY,
        Error::Busy => BUSY,
        Error::InvalidOperation => INVALID_OPERATION,
        Error::InvalidString => INVALID_STRING,
        Error::InsufficientLength => INSUFFICIENT_LENGTH,
        Error::ResourceLimitExhausted => RESOURCE_LIMIT_EXHAUSTED,
        Error::InvalidState => INVALID_STATE,
        Error::InvalidOption => INVALID_OPTION,
        Error::InsufficientMemory => INSUFFICIENT_MEMORY,
        Error::UnsupportedKernelFunction => UNSUPPORTED_KERNEL_FUNCTION,
        Error::FinishedEnumerate => FINISHED_ENUMERATE,
        Error::Timeout => TIMEOUT,
        Error::Interrupted => INTERRUPTED,
        Error::Killed => KILLED,
        Error::UnsupportedOperation => UNSUPPORTED_OPERATION,
        Error::Pending => PENDING,
        Error::DoesNotExist => DOES_NOT_EXIST,
        Error::AlreadyExists => ALREADY_EXISTS,
        Error::UnknownDevice => UNKNOWN_DEVICE,
        Error::WouldBlock => WOULD_BLOCK,
        Error::DeviceFull => DEVICE_FULL,
        Error::DeviceUnavailable => DEVICE_UNAVAILABLE,
        Error::LinkResolutionLoop => LINK_RESOLUTION_LOOP,
        Error::OrphanedObjects => ORPHANED_OBJECTS,
        Error::ClosedRemotely => CLOSED_REMOTELY,
        Error::ConnectionInterrupted => CONNECTION_INTERRUPTED,
        Error::AddressNotAvailable => ADDRESS_NOT_AVAILABLE,
        Error::Signaled => SIGNALED,
        Error::MappingInaccessible => MAPPING_INACCESSIBLE,
        Error::PrivilegeCheckFailed => PRIVILEGE_CHECK_FAILED,
    }
}

impl Error {
    /// Splits a raw result code: zero or positive is success, negative is the
    /// error named by the code table.
    pub fn from_code(code: SysResult) -> (r: Result<(), Error>)
        ensures
            code >= 0 <==> r is Ok,
            code < 0 ==> r == Result::<(), Error>::Err(spec_error_of(code)),
    {
        if code >= 0 {
            Ok(())
        } else if code == PERMISSION {
            Err(Error::Permission)
        } else if code == INVALID_HANDLE {
            Err(Error::InvalidHandle)
        } else if code == INVALID_MEMORY {
            Err(Error::InvalidMemory)
        } else if code == BUSY {
            Err(Error::Busy)
        } else if code == INVALID_OPERATION {
            Err(Error::InvalidOperation)
        } else if code == INVALID_STRING {
            Err(Error::InvalidString)
        } else if code == INSUFFICIENT_LENGTH {
            Err(Error::InsufficientLength)
        } else if code == RESOURCE_LIMIT_EXHAUSTED {
            Err(Error::ResourceLimitExhausted)
        } else if code == INVALID_STATE {
            Err(Error::InvalidState)
        } else if code == INVALID_OPTION {
            Err(Error::InvalidOption)
        } else if code == INSUFFICIENT_MEMORY {
            Err(Error::InsufficientMemory)
        } else if code == UNSUPPORTED_KERNEL_FUNCTION {
            Err(Error::UnsupportedKernelFunction)
        } else if code == FINISHED_ENUMERATE {
            Err(Error::FinishedEnumerate)
        } else if code == TIMEOUT {
            Err(Error::Timeout)
        } else if code == INTERRUPTED {
            Err(Error::Interrupted)
        } else if code == KILLED {
            Err(Error::Killed)
        } else if code == UNSUPPORTED_OPERATION {
            Err(Error::UnsupportedOperation)
        } else if code == PENDING {
            Err(Error::Pending)
        } else if code == DOES_NOT_EXIST {
            Err(Error::DoesNotExist)
        } else if code == ALREADY_EXISTS {
            Err(Error::AlreadyExists)
        } else if code == UNKNOWN_DEVICE {
            Err(Error::UnknownDevice)
        } else if code == WOULD_BLOCK {
            Err(Error::WouldBlock)
        } else if code == DEVICE_FULL {
            Err(Error::DeviceFull)
        } else if code == DEVICE_UNAVAILABLE {
            Err(Error::DeviceUnavailable)
        } else if code == LINK_RESOLUTION_LOOP {
            Err(Error::LinkResolutionLoop)
        } else if code == ORPHANED_OBJECTS {
            Err(Error::OrphanedObjects)
        } else if code == CLOSED_REMOTELY {
            Err(Error::ClosedRemotely)
        } else if code == CONNECTION_INTERRUPTED {
            Err(Error::ConnectionInterrupted)
        } else if code == ADDRESS_NOT_AVAILABLE {
            Err(Error::AddressNotAvailable)
        } else if code == SIGNALED {
            Err(Error::Signaled)
        } else if code == MAPPING_INACCESSIBLE {
            Err(Error::MappingInaccessible)
        } else if code == PRIVILEGE_CHECK_FAILED {
            Err(Error::PrivilegeCheckFailed)
        } else {
            Err(Error::Unknown(code))
        }
    }

    /// The raw result code that stands for this error.
    pub fn into_code(self) -> (r: SysResult)
        ensures
            r == spec_error_code(self),
    {
        match self {
            Error::Unknown(x) => x,
            Error::Permission => PERMISSION,
            Error::InvalidHandle => INVALID_HANDLE,
            Error::InvalidMemory => INVALID_MEMORY,
            Error::Busy => BUSY,
            Error::InvalidOperation => INVALID_OPERATION,
            Error::InvalidString => INVALID_STRING,
            Error::InsufficientLength => INSUFFICIENT_LENGTH,
            Error::ResourceLimitExhausted => RESOURCE_LIMIT_EXHAUSTED,
            Error::InvalidState => INVALID_STATE,
            Error::InvalidOption => INVALID_OPTION,
            Error::InsufficientMemory => INSUFFICIENT_MEMORY,
            Error::UnsupportedKernelFunction => UNSUPPORTED_KERNEL_FUNCTION,
            Error::FinishedEnumerate => FINISHED_ENUMERATE,
            Error::Timeout => TIMEOUT,
            Error::Interrupted => INTERRUPTED,
            Error::Killed => KILLED,
            Error::UnsupportedOperation => UNSUPPORTED_OPERATION,
            Error::Pending => PENDING,
            Error::DoesNotExist => DOES_NOT_EXIST,
            Error::AlreadyExists => ALREADY_EXISTS,
            Error::UnknownDevice => UNKNOWN_DEVICE,
            Error::WouldBlock => WOULD_BLOCK,
            Error::DeviceFull => DEVICE_FULL,
            Error::DeviceUnavailable => DEVICE_UNAVAILABLE,
            Error::LinkResolutionLoop => LINK_RESOLUTION_LOOP,
            Error::OrphanedObjects => ORPHANED_OBJECTS,
            Error::ClosedRemotely => CLOSED_REMOTELY,
            Error::ConnectionInterrupted => CONNECTION_INTERRUPTED,
            Error::AddressNotAvailable => ADDRESS_NOT_AVAILABLE,
            Error::Signaled => SIGNALED,
            Error::MappingInaccessible => MAPPING_INACCESSIBLE,
            Error::PrivilegeCheckFailed => PRIVILEGE_CHECK_FAILED,
        }
    }
}

/// An error together with the context entries the kernel attached to it.
pub struct ContextError {
    /// The attached context stack.
    pub context: Vec<crate::sys::error::ErrorContextEntry>,
    /// The error itself.
    pub errc: Error,
}

impl ContextError {
    /// The error without its context.
    pub fn error(&self) -> (r: Error)
        ensures
            r == self.errc,
    {
        self.errc
    }
}

/// Splitting a negative code and turning the error back into a code gives the
/// code back.
pub proof fn lemma_error_code_round_trip(code: SysResult)
    requires
        code < 0,
    ensures
        spec_error_code(spec_error_of(code)) == code,
{
}

} // verus!
