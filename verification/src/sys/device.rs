//! Device handles and the records of the device interface.

use crate::sys::handle::{Handle, HandlePtr};
use crate::sys::io::IOHandle;
use crate::sys::kstr::KStrCPtr;
use crate::sys::option::ExtendedOptionHead;
use crate::sys::fs::FileHandle;
use vstd::prelude::*;

verus! {

/// A handle to a device.
pub struct DeviceHandle(pub Handle);

/// Everything a mount operation is parameterised by.
pub struct MountOptions {
    /// The default access-control list where the filesystem has none or
    /// replacement is required.
    pub default_acl: HandlePtr<FileHandle>,
    /// Flag bits for the mount operation.
    pub flags: u32,
    /// The principal map used when the filesystem has only legacy
    /// permissions.
    pub legacy_principal_map: HandlePtr<IOHandle>,
}

/// One feature a device advertises.
pub struct DeviceFeature<'a> {
    /// The feature's name.
    pub feature_name: KStrCPtr<'a>,
    /// The feature's option bits.
    pub feature_options: u32,
}

/// A device function whose type this layer does not interpret.
#[derive(Copy, Clone)]
pub struct DeviceFunctionUnknown {
    /// The function's header.
    pub head: ExtendedOptionHead,
    /// The function's uninterpreted body.
    pub content: [u8; 64],
}

/// Where a device function's markers sit inside its body.
pub struct DeviceFunctionMarkers {
    /// The offset of the markers.
    pub offset: usize,
}

} // verus!
