//! Socket and server handles.

use crate::sys::handle::Handle;
use vstd::prelude::*;

verus! {

/// A handle to a connected socket.
pub struct SocketHandle(pub Handle);

/// A handle to a listening server socket.
pub struct ServerHandle(pub Handle);

/// A socket address; its shape depends on the address family.
#[allow(non_camel_case_types)]
pub struct sockaddr {

}

} // verus!
