//! Security contexts: the principals and permissions a thread acts under.

use crate::sys::handle::Handle;
use vstd::prelude::*;

verus! {

/// A handle to a security context.
pub struct SecurityContext(pub Handle);

} // verus!
