//! Architecture-control records.

use crate::sys::option::ExtendedOptionHead;
use vstd::prelude::*;

verus! {

/// An architecture-configuration option whose type this layer does not
/// interpret.
#[derive(Copy, Clone)]
pub struct ArchConfigUnknownOption {
    /// The option's header.
    pub header: ExtendedOptionHead,
    /// The option's uninterpreted body.
    pub payload: [u8; 32],
}

} // verus!
