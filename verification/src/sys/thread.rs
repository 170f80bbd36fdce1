//! Thread handles and thread-start options.

use crate::sys::handle::Handle;
use crate::sys::option::ExtendedOptionHead;
use vstd::prelude::*;

verus! {

/// A handle to a thread.
pub struct ThreadHandle(pub Handle);

/// A thread-start option whose type this layer does not interpret.
#[derive(Copy, Clone)]
pub struct ThreadStartOptionRaw {
    /// The option's header.
    pub head: ExtendedOptionHead,
    /// The option's uninterpreted body.
    pub payload: [u8; 64],
}

} // verus!
