//! Batched system-call dispatch records.

use vstd::prelude::*;

verus! {

/// One system call of a batch: the number to execute, which the kernel
/// overwrites with the result code, and up to six parameter slots.
#[derive(Copy, Clone)]
pub struct SystemFunction {
    /// The call number, then the result code on return.
    pub number_and_status: usize,
    /// The parameter slots; a parameter smaller than a word still takes a
    /// whole slot.
    pub params: [usize; 6],
}

} // verus!
