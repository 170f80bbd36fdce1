//! Inter-process-communication handles.

use crate::sys::handle::Handle;
use vstd::prelude::*;

verus! {

/// A handle to one end of an open IPC connection.
pub struct IPCConnectionHandle(pub Handle);

/// A handle to a named IPC channel that accepts connections.
pub struct IPCServerHandle(pub Handle);

} // verus!
