//! Byte-stream I/O handles and their mode words.

use crate::sys::handle::Handle;
use vstd::prelude::*;

verus! {

/// A handle to any byte-oriented I/O object.
pub struct IOHandle(pub Handle);

/// Block the thread when an operation cannot complete immediately.
pub const MODE_BLOCKING: u32 = 0x00;

/// Fail with a would-block error instead of blocking.
pub const MODE_NONBLOCKING: u32 = 0x01;

/// Queue the operation and return a pending status instead of blocking.
pub const MODE_ASYNC: u32 = 0x02;

/// The stream supports reading.
pub const CHAR_READABLE: u32 = 0x01;

/// The stream supports writing.
pub const CHAR_WRITABLE: u32 = 0x02;

/// The stream supports seeking.
pub const CHAR_SEEKABLE: u32 = 0x04;

/// The stream supports positioned reads and writes.
pub const CHAR_RANDOMACCESS: u32 = 0x08;

} // verus!
