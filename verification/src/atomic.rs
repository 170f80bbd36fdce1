//! The wait/notify layer over one atomic cell.
//!
//! A thread may block on a word-sized cell on the condition that the cell
//! still holds an expected value, ignoring the bits selected by an ignore
//! mask; another thread wakes up to a chosen number of blocked threads.  A
//! zero wake mask reaches every waiter; a nonzero one reaches exactly the
//! waiters whose watched bits — the complement of their ignore mask —
//! overlap it, and passes over those watching disjoint bits.  The
//! executable functions here are the decision halves of that protocol: the
//! comparison, the wake-eligibility test and the translation of kernel result
//! codes into [`WaitError`].  The state machine below nails down what a
//! whole system of waiting and notifying threads may do, and the proof
//! functions establish the wait/notify pairing and mask-selectivity laws over
//! every interleaving of it.

use crate::sys::result::{INTERRUPTED, INVALID_STATE, SysResult, TIMEOUT};
use vstd::prelude::*;
use vstd::set_lib::set_int_range;

verus! {

/// Why a wait call returned without a matching notification.
#[derive(Copy, Clone, Debug, Hash, PartialEq, Eq, Structural)]
pub enum WaitError<S> {
    /// The cell did not hold the expected value; carries what was observed.
    UnexpectedValue(S),
    /// Another thread asked this one to stop blocking.
    Interrupted,
    /// The armed blocking timeout elapsed.
    Timeout,
}

/// The comparison a waiting thread performs: the two values agree on every
/// bit outside the ignore mask.
pub open spec fn spec_masked_eq(value: u64, expected: u64, ignore_mask: u64) -> bool {
    value & !ignore_mask == expected & !ignore_mask
}

/// Performs the waiter's comparison.
pub fn masked_eq(value: u64, expected: u64, ignore_mask: u64) -> (r: bool)
    ensures
        r == spec_masked_eq(value, expected, ignore_mask),
{
    value & !ignore_mask == expected & !ignore_mask
}

/// Whether a notification with `wake_mask` reaches a waiter registered with
/// `ignore_mask`: a zero wake mask is unfiltered and reaches everyone, and a
/// nonzero one reaches the waiter exactly when it overlaps the bits the
/// waiter watches (the complement of its ignore mask).
pub open spec fn spec_wake_eligible(ignore_mask: u64, wake_mask: u64) -> bool {
    wake_mask == 0 || !ignore_mask & wake_mask != 0
}

/// Performs the notifier's eligibility test.
pub fn wake_eligible(ignore_mask: u64, wake_mask: u64) -> (r: bool)
    ensures
        r == spec_wake_eligible(ignore_mask, wake_mask),
{
    wake_mask == 0 || !ignore_mask & wake_mask != 0
}

/// With an ignore mask of zero the waiter's comparison is plain equality.
pub proof fn lemma_unmasked_eq(value: u64, expected: u64)
    ensures
        spec_masked_eq(value, expected, 0) == (value == expected),
{
    assert((value & !0u64 == expected & !0u64) == (value == expected)) by (bit_vector);
}

/// Translates the result code of a wait call.  Only the success codes and the
/// three distinguished error codes can come back from a well-formed wait; any
/// other code is a logic error, which the caller turns into a process abort
/// before reaching this function.
pub fn decode_wait_result(code: SysResult, observed: u64) -> (r: Result<(), WaitError<u64>>)
    requires
        code >= 0 || code == INVALID_STATE || code == INTERRUPTED || code == TIMEOUT,
    ensures
        code >= 0 ==> r == Result::<(), WaitError<u64>>::Ok(()),
        code == INVALID_STATE ==> r == Result::<(), WaitError<u64>>::Err(
            WaitError::UnexpectedValue(observed),
        ),
        code == INTERRUPTED ==> r == Result::<(), WaitError<u64>>::Err(WaitError::Interrupted),
        code == TIMEOUT ==> r == Result::<(), WaitError<u64>>::Err(WaitError::Timeout),
{
    if code >= 0 {
        Ok(())
    } else if code == INVALID_STATE {
        Err(WaitError::UnexpectedValue(observed))
    } else if code == INTERRUPTED {
        Err(WaitError::Interrupted)
    } else {
        Err(WaitError::Timeout)
    }
}

/// One thread of the wait/notify state machine.
pub enum FutexThread {
    /// Not blocked on the cell.
    Running,
    /// Blocked on the cell, registered with the given ignore mask.
    Blocked { ignore_mask: u64 },
    /// Released by a notification and not yet running again.
    Woken,
}

/// The cell and every thread that may touch it.
pub struct FutexState {
    pub cell: u64,
    pub threads: Seq<FutexThread>,
}

/// What one atomic step of the system is.
pub enum FutexLabel {
    /// Thread `tid` attempts to block, conditioned on `expected` under
    /// `ignore_mask`.
    Await { tid: int, expected: u64, ignore_mask: u64 },
    /// A thread wakes up to `count` waiters eligible under `wake_mask`;
    /// `woken` records which ones the kernel released.
    Notify { wake_mask: u64, count: nat, woken: Set<int> },
    /// A thread stores `value` into the cell.
    Store { value: u64 },
}

/// The waiters a notification with `wake_mask` may release.
pub open spec fn futex_eligible(s: FutexState, wake_mask: u64) -> Set<int> {
    Set::new(
        |tid: int|
            0 <= tid < s.threads.len() && match s.threads[tid] {
                FutexThread::Blocked { ignore_mask } => spec_wake_eligible(ignore_mask, wake_mask),
                _ => false,
            },
    )
}

/// The eligible set is finite and no larger than the thread count.
pub proof fn lemma_futex_eligible_finite(s: FutexState, wake_mask: u64)
    ensures
        futex_eligible(s, wake_mask).finite(),
        futex_eligible(s, wake_mask).len() <= s.threads.len(),
{
    let e = futex_eligible(s, wake_mask);
    let r = set_int_range(0, s.threads.len() as int);
    vstd::set_lib::lemma_int_range(0, s.threads.len() as int);
    assert(e.subset_of(r));
    vstd::set_lib::lemma_len_subset(e, r);
}

/// An await step: if the masked comparison holds, the thread blocks; if not,
/// it returns at once with the observed value and nothing changes.
pub open spec fn futex_step_await(
    s1: FutexState,
    s2: FutexState,
    tid: int,
    expected: u64,
    ignore_mask: u64,
) -> bool {
    &&& 0 <= tid < s1.threads.len()
    &&& s1.threads[tid] is Running
    &&& if spec_masked_eq(s1.cell, expected, ignore_mask) {
        s2 == (FutexState {
            cell: s1.cell,
            threads: s1.threads.update(tid, FutexThread::Blocked { ignore_mask }),
        })
    } else {
        s2 == s1
    }
}

/// A notify step: the kernel releases a subset of the eligible waiters, as
/// many as the count allows, and every other thread is untouched.
pub open spec fn futex_step_notify(
    s1: FutexState,
    s2: FutexState,
    wake_mask: u64,
    count: nat,
    woken: Set<int>,
) -> bool {
    let elig = futex_eligible(s1, wake_mask);
    &&& woken.subset_of(elig)
    &&& woken.finite()
    &&& woken.len() == if count <= elig.len() {
        count
    } else {
        elig.len()
    }
    &&& s2.cell == s1.cell
    &&& s2.threads.len() == s1.threads.len()
    &&& forall|t: int|
        0 <= t < s1.threads.len() ==> s2.threads[t] == if woken.contains(t) {
            FutexThread::Woken
        } else {
            s1.threads[t]
        }
}

/// A store step: the cell changes, no thread state does.
pub open spec fn futex_step_store(s1: FutexState, s2: FutexState, value: u64) -> bool {
    s2 == (FutexState { cell: value, threads: s1.threads })
}

/// The step relation of the wait/notify system.
pub open spec fn futex_step(s1: FutexState, s2: FutexState, lbl: FutexLabel) -> bool {
    match lbl {
        FutexLabel::Await { tid, expected, ignore_mask } => futex_step_await(
            s1,
            s2,
            tid,
            expected,
            ignore_mask,
        ),
        FutexLabel::Notify { wake_mask, count, woken } => futex_step_notify(
            s1,
            s2,
            wake_mask,
            count,
            woken,
        ),
        FutexLabel::Store { value } => futex_step_store(s1, s2, value),
    }
}

/// Wait/notify pairing, first half: a blocked thread stays blocked through
/// any run of steps that contains no notification — stores and other
/// threads' waits never release it.
pub proof fn lemma_unnotified_waiter_stays_blocked(
    states: Seq<FutexState>,
    labels: Seq<FutexLabel>,
    t: int,
)
    requires
        states.len() == labels.len() + 1,
        forall|i: int| 0 <= i < labels.len() ==> futex_step(states[i], states[i + 1], labels[i]),
        forall|i: int| 0 <= i < labels.len() ==> !(labels[i] is Notify),
        0 <= t < states[0].threads.len(),
        states[0].threads[t] is Blocked,
    ensures
        states.last().threads[t] == states[0].threads[t],
    decreases labels.len(),
{
    if labels.len() > 0 {
        assert(futex_step(states[0], states[1], labels[0]));
        assert(states[1].threads[t] == states[0].threads[t]);
        let states2 = states.subrange(1, states.len() as int);
        let labels2 = labels.subrange(1, labels.len() as int);
        assert forall|i: int| 0 <= i < labels2.len() implies futex_step(
            states2[i],
            states2[i + 1],
            labels2[i],
        ) by {
            assert(futex_step(states[i + 1], states[i + 2], labels[i + 1]));
        }
        lemma_unnotified_waiter_stays_blocked(states2, labels2, t);
        assert(states2.last() == states.last());
    }
}

/// Wait/notify pairing, second half: a notification with a wake budget of
/// one, where at least one eligible waiter is blocked, releases exactly one
/// waiter; that waiter was blocked before and is woken after, and every
/// other thread is untouched.
pub proof fn lemma_notify_one_wakes_exactly_one(
    s1: FutexState,
    s2: FutexState,
    wake_mask: u64,
    woken: Set<int>,
)
    requires
        futex_step_notify(s1, s2, wake_mask, 1, woken),
        futex_eligible(s1, wake_mask).len() >= 1,
    ensures
        woken.len() == 1,
        forall|t: int|
            woken.contains(t) ==> s1.threads[t] is Blocked && s2.threads[t] is Woken,
        forall|t: int|
            0 <= t < s1.threads.len() && !woken.contains(t) ==> s2.threads[t] == s1.threads[t],
{
    assert forall|t: int| woken.contains(t) implies s1.threads[t] is Blocked
        && s2.threads[t] is Woken by {
        assert(futex_eligible(s1, wake_mask).contains(t));
    }
}

/// A notification whose wake budget covers every eligible waiter releases
/// all of them: with enough budget, eligibility is the whole story of who
/// wakes.
pub proof fn lemma_notify_enough_budget_wakes_all_eligible(
    s1: FutexState,
    s2: FutexState,
    wake_mask: u64,
    count: nat,
    woken: Set<int>,
)
    requires
        futex_step_notify(s1, s2, wake_mask, count, woken),
        futex_eligible(s1, wake_mask).len() <= count,
    ensures
        forall|t: int| futex_eligible(s1, wake_mask).contains(t) ==> s2.threads[t] is Woken,
{
    lemma_futex_eligible_finite(s1, wake_mask);
    vstd::set_lib::lemma_subset_equality(woken, futex_eligible(s1, wake_mask));
}

/// Mask selectivity, stated over the model: a waiter registered through a
/// masked wait on `m` (so with ignore mask `!m`) is passed over by a masked
/// notify whose wake mask `w` is disjoint from `m`, and is reached by one
/// whose wake mask overlaps `m`; an unfiltered notify, wake mask zero,
/// reaches it as well.
pub proof fn lemma_masked_wait_selectivity(s: FutexState, t: int, m: u64, w: u64)
    requires
        0 <= t < s.threads.len(),
        s.threads[t] == (FutexThread::Blocked { ignore_mask: !m }),
        m != 0,
    ensures
        m & w == 0 && w != 0 ==> !futex_eligible(s, w).contains(t),
        m & w != 0 ==> futex_eligible(s, w).contains(t),
        w == 0 ==> futex_eligible(s, w).contains(t),
{
    assert(!(!m) & w == m & w) by (bit_vector);
}

} // verus!
