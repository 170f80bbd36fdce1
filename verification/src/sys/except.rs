//! Exception contexts and their status records.

use crate::sys::handle::Handle;
use crate::sys::option::ExtendedOptionHead;
use crate::uuid::Uuid;
use vstd::prelude::*;

verus! {

/// A handle to a thread's exception context.
pub struct ExceptionContextHandle(pub Handle);

/// What an exception was: its code and two words of detail.
#[derive(Copy, Clone, PartialEq, Eq, Debug, Structural)]
pub struct ExceptionStatusInfo {
    /// The identifier of the exception.
    pub except_code: Uuid,
    /// Detail defined by the exception code.
    pub except_info: u64,
    /// The reason the exception was raised.
    pub except_reason: u64,
}

/// An exception-handler option whose type this layer does not interpret.
#[derive(Copy, Clone)]
pub struct UnknownExceptHandlerOption {
    /// The option's header.
    pub head: ExtendedOptionHead,
    /// The option's uninterpreted body.
    pub tail: [u8; 64],
}

} // verus!
