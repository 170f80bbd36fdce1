//! Device namespaces for isolating groups of processes.

use crate::sys::device::DeviceHandle;
use crate::sys::handle::{Handle, HandlePtr};
use crate::uuid::Uuid;
use vstd::prelude::*;

verus! {

/// A handle to a device namespace.
pub struct NamespaceHandle(pub Handle);


/// Describes one device exposed inside a new namespace.
pub struct IsolationDeviceDescriptor {
    /// The device identifier to expose in the namespace.
    pub devid: Uuid,
    /// The device to redirect it to, or null to pass it through.
    pub redirect_dev: HandlePtr<DeviceHandle>,
}

} // verus!
