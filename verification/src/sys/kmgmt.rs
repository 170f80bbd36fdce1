//! Kernel-management configuration records.

use crate::sys::option::ExtendedOptionHead;
use vstd::prelude::*;

verus! {

/// A kernel-configuration option whose type this layer does not interpret.
#[derive(Copy, Clone)]
pub struct KernelCfgUnknownOption {
    /// The option's header.
    pub header: ExtendedOptionHead,
    /// The option's uninterpreted body.
    pub payload: [u8; 32],
}

} // verus!
