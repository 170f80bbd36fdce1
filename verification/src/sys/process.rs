//! Process handles and the extended options of process creation.

use crate::sys::handle::{Handle, HandlePtr};
use crate::sys::kstr::{KCSlice, KStrCPtr, KStrPtr};
use crate::sys::option::ExtendedOptionHead;
use crate::uuid::Uuid;
use vstd::prelude::*;

verus! {

/// A handle to a process.
pub struct ProcessHandle(pub Handle);

/// A handle to an environment-variable map.
pub struct EnvironmentMapHandle(pub Handle);

/// A handle to an in-progress process enumeration.
pub struct EnumerateProcessHandle(pub Handle);

/// A process-creation option whose type this layer does not interpret.
#[derive(Copy, Clone)]
pub struct CreateProcessOptionRaw {
    /// The option's header.
    pub header: ExtendedOptionHead,
    /// The option's uninterpreted body.
    pub data: [u8; 32],
}

/// Hands the new process an initial list of handles.
#[derive(Copy, Clone)]
pub struct CreateProcessOptionInitHandles<'a> {
    /// The option's header.
    pub header: ExtendedOptionHead,
    /// The handles to duplicate into the initial thread, conventionally
    /// standard input, output and error first.
    pub handles: KCSlice<'a, HandlePtr<Handle>>,
}

/// Spawns the new process with the given environment map.
#[derive(Copy, Clone)]
pub struct CreateProcessOptionEnvironment {
    /// The option's header.
    pub header: ExtendedOptionHead,
    /// The environment to spawn with; omitted, the current thread's
    /// environment is copied.
    pub environment: HandlePtr<EnvironmentMapHandle>,
}

/// Passes the new process its argument list.
#[derive(Copy, Clone)]
pub struct CreateProcessOptionArgs<'a> {
    /// The option's header.
    pub header: ExtendedOptionHead,
    /// The arguments, in order.
    pub arguments: KCSlice<'a, KStrCPtr<'a>>,
}

/// One row of a process enumeration.
pub struct ProcessInfo<'a> {
    /// The primary principal the process was spawned with.
    pub primary_principal: Uuid,
    /// The principal after filesystem adjustments are taken into account.
    pub effective_primary_principal: Uuid,
    /// The handle to the process read.
    pub handle: HandlePtr<ProcessHandle>,
    /// The process label.
    pub label: KStrPtr<'a>,
    /// The executable name.
    pub exec_name: KStrPtr<'a>,
    /// The full path to the program.
    pub prg_path: KStrPtr<'a>,
}

/// A mapping attribute whose type this layer does not interpret.
#[derive(Copy, Clone)]
pub struct MapExtendedAttrRaw {
    /// The attribute's header.
    pub header: ExtendedOptionHead,
    /// The attribute's uninterpreted body.
    pub data: [u8; 32],
}

} // verus!
