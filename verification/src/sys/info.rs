//! System-information requests: the records a caller fills with request
//! headers and the kernel completes with answers.

use crate::sys::kstr::KStrPtr;
use crate::sys::option::ExtendedOptionHead;
use crate::uuid::Uuid;
use vstd::prelude::*;

verus! {

/// Asks for the operating-system version.
pub struct SysInfoRequestOsVersion<'a> {
    /// The request's header.
    pub head: ExtendedOptionHead,
    /// The name of the OS vendor.
    pub osvendor_name: KStrPtr<'a>,
    /// The major OS version.
    pub os_major: u32,
    /// The minor OS version.
    pub os_minor: u32,
}

/// Asks for the kernel vendor and version.
pub struct SysInfoRequestKernelVendor<'a> {
    /// The request's header.
    pub head: ExtendedOptionHead,
    /// The name of the kernel vendor.
    pub kvendor_name: KStrPtr<'a>,
    /// The kernel build identifier.
    pub build_id: Uuid,
    /// The major kernel version.
    pub kernel_major: u32,
    /// The minor kernel version.
    pub kernel_minor: u32,
}

/// Asks for the processor architecture.
pub struct SysInfoRequestArchInfo {
    /// The request's header.
    pub head: ExtendedOptionHead,
    /// The identifier of the architecture.
    pub arch_type: Uuid,
    /// The architecture version, distinguishing similar targets that share
    /// an architecture.
    pub arch_version: u32,
}

/// Asks for the computer's names and identifier.
pub struct SysInfoRequestComputerName<'a> {
    /// The request's header.
    pub head: ExtendedOptionHead,
    /// The system host name.
    pub hostname: KStrPtr<'a>,
    /// The system unique identifier.
    pub sys_id: Uuid,
    /// The system display name.
    pub sys_display_name: KStrPtr<'a>,
    /// The system label.
    pub sys_label: KStrPtr<'a>,
}

/// A system-information request whose type this layer does not interpret.
#[derive(Copy, Clone)]
pub struct SysInfoRequestUnknown {
    /// The request's header.
    pub head: ExtendedOptionHead,
    /// The request's uninterpreted body.
    pub payload: [u8; 64],
}

/// A per-processor request whose type this layer does not interpret.
#[derive(Copy, Clone)]
pub struct ProcInfoRequestUnknown {
    /// The request's header.
    pub head: ExtendedOptionHead,
    /// The request's uninterpreted body.
    pub payload: [u8; 64],
}

} // verus!
