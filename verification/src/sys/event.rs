//! Blocking-event descriptors: the conditions a thread can block on.
//!
//! At the system-call boundary each descriptor is a fixed-layout tagged
//! record whose leading type identifier says which condition it describes.
//! Here the tag is the payload variant itself; the runtime half attaches
//! the wire identifier for the variant when it serialises a descriptor, so
//! only the flag word and the payload carry meaning in this layer.

use crate::sys::time::Duration;
use crate::uuid::Uuid;
use vstd::prelude::*;

verus! {

/// The condition one descriptor describes.
#[derive(Copy, Clone, Debug, PartialEq, Eq, Structural)]
pub enum BlockingEventPayload {
    /// Block until the word at `address` is notified, ignoring the bits of
    /// `ignore_mask` in the comparison and the wake decision.
    AwaitAddress { address: u64, ignore_mask: u64 },
    /// Block for the given span of time.
    SleepThread { duration: Duration },
    /// Block until the named clock reaches the given offset past its epoch.
    SleepUntil { epoch: Duration, clock: Uuid },
    /// Block until the thread behind the handle exits.
    JoinThread { target: u64 },
    /// Block until the process behind the handle exits.
    JoinProcess { target: u64 },
}

/// One blocking-event descriptor: its option flags and its condition.
#[derive(Copy, Clone, Debug, PartialEq, Eq, Structural)]
pub struct BlockingEvent {
    /// Option flag bits; bit zero is the ignore flag.
    pub flags: u32,
    /// The condition to block on.
    pub payload: BlockingEventPayload,
}

} // verus!
