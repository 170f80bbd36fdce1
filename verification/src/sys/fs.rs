//! File handles and the records of the filesystem interface.

use crate::sys::handle::{Handle, HandlePtr};
use crate::sys::kstr::{KCSlice, KStrCPtr, KStrPtr};
use crate::sys::option::ExtendedOptionHead;
use crate::uuid::Uuid;
use vstd::prelude::*;

verus! {

/// A handle to an object opened on a filesystem.
pub struct FileHandle(pub Handle);

/// Opens the stream for read access.
pub const ACCESS_READ: u32 = 0x01;

/// Opens the stream for write access.
pub const ACCESS_WRITE: u32 = 0x02;

/// A file-open option whose type this layer does not interpret.
#[derive(Copy, Clone)]
pub struct UnknownFileOpenOption {
    /// The option's header.
    pub head: ExtendedOptionHead,
    /// The option's uninterpreted body.
    pub tail: [u8; 64],
}

/// Everything an open operation is parameterised by.
pub struct FileOpenOptions<'a> {
    /// The explicit stream of the object to open, when non-empty.
    pub stream_override: KStrCPtr<'a>,
    /// The access mode: which operations may be performed.
    pub access_mode: u32,
    /// The operation mode: which operations are performed.
    pub op_mode: u32,
    /// How the handle treats operations that would block.
    pub blocking_mode: u32,
    /// Overrides the default access-control list of a created object.
    pub create_acl: HandlePtr<FileHandle>,
    /// Extended open options.
    pub extended_options: KCSlice<'a, UnknownFileOpenOption>,
}

/// One row of a directory enumeration.
pub struct DirectoryInfo<'a> {
    /// The entry's name.
    pub fname: KStrPtr<'a>,
    /// The entry's flag bits.
    pub flags: u64,
    /// The entry's access-control list.
    pub acl_handle: HandlePtr<FileHandle>,
}

/// One access-control row read back from an object.
pub struct ReadDaclRow<'a> {
    /// The principal class the row applies to.
    pub applied: Uuid,
    /// The stream the row governs.
    pub stream_name: KStrPtr<'a>,
    /// The permission named by the row.
    pub perm_name: KStrPtr<'a>,
    /// The principal the row names.
    pub principal: Uuid,
    /// The row's mode bits.
    pub mode: u32,
}

/// One access-control row handed to the kernel.
pub struct DaclRow<'a> {
    /// The principal class the row applies to.
    pub applied: Uuid,
    /// The stream the row governs.
    pub stream_name: KStrCPtr<'a>,
    /// The permission named by the row.
    pub perm_name: KStrCPtr<'a>,
    /// The principal the row names.
    pub principal: Uuid,
    /// The row's mode bits.
    pub mode: u32,
}

} // verus!
