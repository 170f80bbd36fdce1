//! Sleeping, as decisions over the blocking-event interface.
//!
//! The runtime half sleeps by blocking on a single sleep descriptor; the
//! functions here classify each result of that call.  A plain sleep simply
//! retries on any error.  A sleep to a time point first tries the
//! clock-relative descriptor; a kernel that rejects the descriptor type
//! reports an invalid option, and the caller falls back to reading the
//! clock and sleeping for the difference.

use crate::sys::result::{INVALID_OPTION, SysResult};
use vstd::prelude::*;

verus! {

/// What a sleep-to-a-time-point loop does with one result of its blocking
/// call.
#[derive(Copy, Clone, Debug, PartialEq, Eq, Structural)]
pub enum SleepStep {
    /// The sleep completed.
    Done,
    /// The kernel does not support the clock-relative descriptor; read the
    /// clock and sleep for the remaining span instead.
    FallbackToRelative,
    /// Any other error; issue the call again.
    Retry,
}

/// Classifies one result of the blocking call of a sleep to a time point.
pub fn sleep_until_decision(code: SysResult) -> (r: SleepStep)
    ensures
        code >= 0 ==> r is Done,
        code == INVALID_OPTION ==> r is FallbackToRelative,
        code < 0 && code != INVALID_OPTION ==> r is Retry,
{
    if code >= 0 {
        SleepStep::Done
    } else if code == INVALID_OPTION {
        SleepStep::FallbackToRelative
    } else {
        SleepStep::Retry
    }
}

/// Whether a plain sleep's blocking call must be issued again.
pub fn sleep_retry(code: SysResult) -> (r: bool)
    ensures
        r == (code < 0),
{
    code < 0
}

} // verus!
