//! Debugger attachment handles and mapping reports.

use crate::sys::handle::Handle;
use crate::sys::kstr::KStrPtr;
use vstd::prelude::*;

verus! {

/// A handle to a debugging attachment.
pub struct DebugHandle(pub Handle);

/// One mapping of a debugged process.
pub struct DebugMappingInfo<'a> {
    /// The lowest address of the mapping.
    pub vaddr_lo: usize,
    /// The highest address of the mapping.
    pub vaddr_hi: usize,
    /// The mapping's name.
    pub mapping_name: KStrPtr<'a>,
    /// The mapping's kind and attribute bits.
    pub kind_and_attrs: u32,
    /// The mapping's page status.
    pub page_status: u32,
    /// The physical address backing the mapping.
    pub backing_paddr: u64,
}

} // verus!
