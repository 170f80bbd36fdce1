//! Spin-then-block locks over a single atomic state word, and the
//! generation-counter condition variable paired with the mutex.
//!
//! Each lock keeps its whole state in one 64-bit word.  The word transitions
//! here are the exact effect of the atomic instructions the runtime half
//! performs (swap, compare-and-swap, fetch-and-add, fetch-and-subtract,
//! fetch-and-clear); the decision functions say when an acquiring thread
//! spins, blocks, or retries.  The runtime half runs the loops: it performs
//! each transition on the shared word, consults the decision function, and
//! blocks through the wait/notify layer when told to.
//!
//! The state machines at the end of the file describe the same transitions
//! performed concurrently by any number of threads, and the proof functions
//! establish mutual exclusion for the mutex, shared/exclusive exclusivity
//! for the reader-writer lock, and lost-wakeup avoidance for the condition
//! variable, over every interleaving.

use crate::atomic::WaitError;
use vstd::prelude::*;

verus! {

/// The bit pattern marking the word exclusively held: the most significant
/// bit of the 64-bit state word.
pub const LOCK_EXCLUSIVE: u64 = 0x8000000000000000;

/// How many failed attempts a thread makes, with a CPU-yield hint between
/// them, before it falls back to blocking.  A tuning constant, not a
/// correctness one.
pub const SPIN_LIMIT: u64 = 128;

/// What an acquiring thread does after one failed exclusive attempt.
#[derive(Copy, Clone, Debug, PartialEq, Eq, Structural)]
pub enum LockAction {
    /// The attempt succeeded; the lock is held.
    Acquired,
    /// Attempt again after a CPU-yield hint.
    Spin,
    /// Block on the state word until notified, conditioned on still
    /// observing `expected` there.
    Block { expected: u64 },
}

/// What a shared acquirer does after observing the word.
#[derive(Copy, Clone, Debug, PartialEq, Eq, Structural)]
pub enum SharedAction {
    /// Attempt again after a CPU-yield hint.
    Spin,
    /// Block on the state word until notified, conditioned on still
    /// observing `expected` there.
    Block { expected: u64 },
    /// Attempt a compare-and-swap from `from` to `to`, adding this thread
    /// to the shared count.
    TryIncrement { from: u64, to: u64 },
}

/// What an exclusive acquirer does after a failed compare-and-swap.
#[derive(Copy, Clone, Debug, PartialEq, Eq, Structural)]
pub enum ExclusiveAction {
    /// The word was free again; retry the compare-and-swap at once.
    Retry,
    /// Attempt again after a CPU-yield hint.
    Spin,
    /// Block on the state word until notified, conditioned on still
    /// observing `expected` there.
    Block { expected: u64 },
}

/// After a blocking step of a timed acquisition, whether the loop keeps
/// trying: every outcome but a timeout is absorbed by retrying.
pub fn continue_after_wait(outcome: Result<(), WaitError<u64>>) -> (r: bool)
    ensures
        r == !(outcome == Result::<(), WaitError<u64>>::Err(WaitError::Timeout)),
{
    !matches!(outcome, Err(WaitError::Timeout))
}

/// The exclusive lock.  Its state word is zero when unlocked and
/// `LOCK_EXCLUSIVE` when held.
pub struct RawMutex {
    pub state: u64,
}

impl RawMutex {
    /// Whether the word marks the lock held.
    pub open spec fn spec_is_locked(self) -> bool {
        self.state != 0
    }

    /// An unlocked mutex.
    pub fn new() -> (r: RawMutex)
        ensures
            !r.spec_is_locked(),
    {
        RawMutex { state: 0 }
    }

    pub fn is_locked(&self) -> (r: bool)
        ensures
            r == self.spec_is_locked(),
    {
        self.state != 0
    }

    /// The atomic swap at the heart of acquisition: the word becomes the
    /// held pattern, and the attempt succeeded exactly when the previous
    /// value was unlocked.  No spinning, no blocking.
    pub fn try_lock(&mut self) -> (r: bool)
        ensures
            final(self).state == LOCK_EXCLUSIVE,
            r == !old(self).spec_is_locked(),
    {
        let prev = self.state;
        self.state = LOCK_EXCLUSIVE;
        prev == 0
    }

    /// The releasing store.  The runtime half follows every release with a
    /// single notification on the word, so that a blocked acquirer is
    /// woken; leaving the notification out would let a waiter that already
    /// fell back to blocking sleep forever.
    pub fn unlock(&mut self)
        ensures
            final(self).state == 0,
    {
        self.state = 0;
    }
}

/// After a swap returned `prev`, what the acquiring thread does next:
/// acquired when the word was free, a bounded spin while attempts remain,
/// and otherwise a block conditioned on observing the held pattern.
pub fn mutex_acquire_decision(prev: u64, spins: u64) -> (r: LockAction)
    ensures
        prev == 0 ==> r is Acquired,
        prev != 0 && spins < SPIN_LIMIT ==> r is Spin,
        prev != 0 && spins >= SPIN_LIMIT ==> r == (LockAction::Block { expected: LOCK_EXCLUSIVE }),
{
    if prev == 0 {
        LockAction::Acquired
    } else if spins < SPIN_LIMIT {
        LockAction::Spin
    } else {
        LockAction::Block { expected: LOCK_EXCLUSIVE }
    }
}

/// The shared/exclusive lock.  The most significant bit of the word marks
/// an exclusive holder, the remaining bits count shared holders; the two
/// parts are never combined.
pub struct RawRwLock {
    pub state: u64,
}

impl RawRwLock {
    /// Whether the exclusive bit is set.
    pub open spec fn spec_is_exclusive(self) -> bool {
        self.state >= LOCK_EXCLUSIVE
    }

    /// The count of shared holders encoded in the word.
    pub open spec fn spec_shared_count(self) -> u64 {
        if self.state >= LOCK_EXCLUSIVE {
            (self.state - LOCK_EXCLUSIVE) as u64
        } else {
            self.state
        }
    }

    /// Whether anyone holds the lock in either mode.
    pub open spec fn spec_is_locked(self) -> bool {
        self.state != 0
    }

    /// An unlocked lock.
    pub fn new() -> (r: RawRwLock)
        ensures
            !r.spec_is_locked(),
    {
        RawRwLock { state: 0 }
    }

    pub fn is_locked(&self) -> (r: bool)
        ensures
            r == self.spec_is_locked(),
    {
        self.state != 0
    }

    pub fn is_locked_exclusive(&self) -> (r: bool)
        ensures
            r == self.spec_is_exclusive(),
    {
        self.state >= LOCK_EXCLUSIVE
    }

    /// The single fetch-update of a shared attempt: succeeds, adding one
    /// shared holder, exactly when no exclusive holder is present.
    pub fn try_lock_shared(&mut self) -> (r: bool)
        ensures
            r == !old(self).spec_is_exclusive(),
            r ==> final(self).state == old(self).state + 1,
            !r ==> final(self).state == old(self).state,
    {
        if self.state < LOCK_EXCLUSIVE {
            self.state = self.state + 1;
            true
        } else {
            false
        }
    }

    /// The atomic decrement of a shared release.  The result says whether
    /// the runtime half issues one notification: only when this was the
    /// last shared holder (or when the pre-decrement word equalled the
    /// bare exclusive bit, a pattern the release also watches for), so
    /// that a blocked exclusive acquirer is woken without paying for a
    /// notification on every release.
    pub fn unlock_shared(&mut self) -> (notify: bool)
        requires
            1 <= old(self).state,
            old(self).state < LOCK_EXCLUSIVE,
        ensures
            final(self).state == old(self).state - 1,
            notify == (old(self).state == 1 || old(self).state == LOCK_EXCLUSIVE),
    {
        let prev = self.state;
        self.state = self.state - 1;
        prev == 1 || prev == LOCK_EXCLUSIVE
    }

    /// The single compare-and-swap of an exclusive attempt: succeeds, and
    /// sets the exclusive bit, exactly when the word was completely free.
    pub fn try_lock_exclusive(&mut self) -> (r: bool)
        ensures
            r == (old(self).state == 0),
            r ==> final(self).state == LOCK_EXCLUSIVE,
            !r ==> final(self).state == old(self).state,
    {
        if self.state == 0 {
            self.state = LOCK_EXCLUSIVE;
            true
        } else {
            false
        }
    }

    /// The exclusive release: the exclusive bit is cleared and nothing else
    /// changes.  The runtime half follows it unconditionally with one
    /// notification on the word.
    pub fn unlock_exclusive(&mut self)
        requires
            old(self).state >= LOCK_EXCLUSIVE,
        ensures
            final(self).state == old(self).state - LOCK_EXCLUSIVE,
    {
        self.state = self.state - LOCK_EXCLUSIVE;
    }
}

/// After observing `observed` on the word, what a shared acquirer does:
/// while the exclusive bit is set it spins, then blocks conditioned on the
/// observed value; once the bit is clear it attempts to add itself to the
/// shared count by compare-and-swap.
pub fn rw_lock_shared_decision(observed: u64, spins: u64) -> (r: SharedAction)
    ensures
        observed >= LOCK_EXCLUSIVE && spins < SPIN_LIMIT ==> r is Spin,
        observed >= LOCK_EXCLUSIVE && spins >= SPIN_LIMIT ==> r == (SharedAction::Block {
            expected: observed,
        }),
        observed < LOCK_EXCLUSIVE ==> r == (SharedAction::TryIncrement {
            from: observed,
            to: (observed + 1) as u64,
        }),
{
    if observed >= LOCK_EXCLUSIVE {
        if spins < SPIN_LIMIT {
            SharedAction::Spin
        } else {
            SharedAction::Block { expected: observed }
        }
    } else {
        SharedAction::TryIncrement { from: observed, to: observed + 1 }
    }
}

/// After a failed exclusive compare-and-swap observed `observed`, what the
/// acquirer does: retry at once if the word went free, spin while attempts
/// remain, and otherwise block conditioned on the observed value.
pub fn rw_lock_exclusive_decision(observed: u64, spins: u64) -> (r: ExclusiveAction)
    ensures
        observed == 0 ==> r is Retry,
        observed != 0 && spins < SPIN_LIMIT ==> r is Spin,
        observed != 0 && spins >= SPIN_LIMIT ==> r == (ExclusiveAction::Block {
            expected: observed,
        }),
{
    if observed == 0 {
        ExclusiveAction::Retry
    } else if spins < SPIN_LIMIT {
        ExclusiveAction::Spin
    } else {
        ExclusiveAction::Block { expected: observed }
    }
}

/// The counter wrapped around at the word boundary.
pub open spec fn wrap_inc(c: u64) -> u64 {
    if c == u64::MAX {
        0
    } else {
        (c + 1) as u64
    }
}

/// The generation-counter condition variable.  Waiters snapshot the counter
/// under their mutex guard, release the mutex, and block conditioned on the
/// counter still holding the snapshot; every notification wakes the blocked
/// waiters first and then advances the counter, so a waiter that lost the
/// race to block observes a changed counter and never blocks at all.
pub struct Condvar {
    pub counter: u64,
}

impl Condvar {
    /// A condition variable with the counter at zero.
    pub fn new() -> (r: Condvar)
        ensures
            r.counter == 0,
    {
        Condvar { counter: 0 }
    }

    /// The waiter's snapshot of the counter, taken while the associated
    /// mutex guard is still held.
    pub fn snapshot(&self) -> (r: u64)
        ensures
            r == self.counter,
    {
        self.counter
    }

    /// One notification's advance of the counter, performed by the runtime
    /// half after it has woken up to one blocked waiter.
    pub fn notify_one(&mut self)
        ensures
            final(self).counter == wrap_inc(old(self).counter),
    {
        self.counter = self.counter.wrapping_add(1);
    }

    /// One notification's advance of the counter, performed by the runtime
    /// half after it has woken every blocked waiter.
    pub fn notify_all(&mut self)
        ensures
            final(self).counter == wrap_inc(old(self).counter),
    {
        self.counter = self.counter.wrapping_add(1);
    }
}

/// A guard handed back by a timed condition-variable wait, together with
/// whether the wait ended by timeout.
#[derive(Clone, Debug)]
pub struct WaitTimeoutResult<G>(pub G, pub bool);

impl<G> WaitTimeoutResult<G> {
    /// Whether the wait ended because its timeout elapsed.
    pub fn timed_out(&self) -> (r: bool)
        ensures
            r == self.1,
    {
        self.1
    }
}

// ------------------------------------------------------------------
// The mutex as a concurrent state machine.
// ------------------------------------------------------------------

/// One thread's relation to the mutex.
pub enum MutexPhase {
    /// Outside the critical section, not trying to enter.
    Idle,
    /// Attempted to enter and found the lock held.
    Waiting,
    /// Inside the critical section.
    Holding,
}

/// The word and every thread that contends for it.
pub struct MutexModel {
    pub word: u64,
    pub threads: Seq<MutexPhase>,
}

/// One atomic step of the mutex system.
pub enum MutexLabel {
    /// Thread `tid` performs the acquiring swap.
    Swap { tid: int },
    /// Thread `tid` performs the releasing store.
    Release { tid: int },
}

/// A freshly created mutex: word zero, nobody holding or waiting.
pub open spec fn mutex_init(s: MutexModel) -> bool {
    &&& s.word == 0
    &&& forall|t: int| 0 <= t < s.threads.len() ==> #[trigger] s.threads[t] is Idle
}

/// The acquiring swap: the word becomes the held pattern; the thread enters
/// the critical section exactly when the word was free.
pub open spec fn mutex_step_swap(s1: MutexModel, s2: MutexModel, tid: int) -> bool {
    &&& 0 <= tid < s1.threads.len()
    &&& !(s1.threads[tid] is Holding)
    &&& s2.word == LOCK_EXCLUSIVE
    &&& s2.threads == s1.threads.update(
        tid,
        if s1.word == 0 {
            MutexPhase::Holding
        } else {
            MutexPhase::Waiting
        },
    )
}

/// The releasing store: the holder leaves the critical section and the word
/// returns to zero.
pub open spec fn mutex_step_release(s1: MutexModel, s2: MutexModel, tid: int) -> bool {
    &&& 0 <= tid < s1.threads.len()
    &&& s1.threads[tid] is Holding
    &&& s2.word == 0
    &&& s2.threads == s1.threads.update(tid, MutexPhase::Idle)
}

/// The step relation of the mutex system.
pub open spec fn mutex_step(s1: MutexModel, s2: MutexModel, lbl: MutexLabel) -> bool {
    match lbl {
        MutexLabel::Swap { tid } => mutex_step_swap(s1, s2, tid),
        MutexLabel::Release { tid } => mutex_step_release(s1, s2, tid),
    }
}

/// The inductive invariant: at most one thread is in the critical section,
/// and a free word means nobody is.
pub open spec fn mutex_inv(s: MutexModel) -> bool {
    &&& forall|t1: int, t2: int|
        0 <= t1 < s.threads.len() && 0 <= t2 < s.threads.len() && #[trigger] s.threads[t1]
            is Holding && #[trigger] s.threads[t2] is Holding ==> t1 == t2
    &&& s.word == 0 ==> forall|t: int|
        0 <= t < s.threads.len() ==> !(#[trigger] s.threads[t] is Holding)
}

/// A fresh mutex satisfies the invariant.
pub proof fn lemma_mutex_init_inv(s: MutexModel)
    requires
        mutex_init(s),
    ensures
        mutex_inv(s),
{
}

/// Every step of the mutex system preserves the invariant.
pub proof fn lemma_mutex_step_preserves_inv(s1: MutexModel, s2: MutexModel, lbl: MutexLabel)
    requires
        mutex_inv(s1),
        mutex_step(s1, s2, lbl),
    ensures
        mutex_inv(s2),
{
}

/// Mutual exclusion: under the invariant, two threads in the critical
/// section are the same thread.
pub proof fn lemma_mutex_mutual_exclusion(s: MutexModel, t1: int, t2: int)
    requires
        mutex_inv(s),
        0 <= t1 < s.threads.len(),
        0 <= t2 < s.threads.len(),
        s.threads[t1] is Holding,
        s.threads[t2] is Holding,
    ensures
        t1 == t2,
{
}

/// Mutual exclusion over whole histories: along any sequence of lock and
/// unlock steps from a fresh mutex, every reached state keeps at most one
/// thread in the critical section.
pub proof fn lemma_mutex_trace_inv(states: Seq<MutexModel>, labels: Seq<MutexLabel>)
    requires
        states.len() == labels.len() + 1,
        mutex_inv(states[0]),
        forall|i: int| 0 <= i < labels.len() ==> mutex_step(states[i], states[i + 1], labels[i]),
    ensures
        forall|i: int| 0 <= i < states.len() ==> mutex_inv(#[trigger] states[i]),
    decreases labels.len(),
{
    if labels.len() > 0 {
        let states2 = states.drop_last();
        let labels2 = labels.drop_last();
        assert forall|i: int| 0 <= i < labels2.len() implies mutex_step(
            states2[i],
            states2[i + 1],
            labels2[i],
        ) by {
            assert(mutex_step(states[i], states[i + 1], labels[i]));
        }
        lemma_mutex_trace_inv(states2, labels2);
        let n = labels.len() - 1;
        assert(mutex_inv(states2[n]));
        assert(mutex_step(states[n], states[n + 1], labels[n]));
        lemma_mutex_step_preserves_inv(states[n], states[n + 1], labels[n]);
        assert forall|i: int| 0 <= i < states.len() implies mutex_inv(#[trigger] states[i]) by {
            if i < states.len() - 1 {
                assert(mutex_inv(states2[i]));
            }
        }
    }
}

/// Mutual exclusion, stated over histories directly: starting from a
/// fresh mutex, after any number of lock and unlock steps by any number
/// of threads, two threads in the critical section at the same instant
/// are the same thread.
pub proof fn lemma_mutex_history_mutual_exclusion(
    states: Seq<MutexModel>,
    labels: Seq<MutexLabel>,
    i: int,
    t1: int,
    t2: int,
)
    requires
        states.len() == labels.len() + 1,
        mutex_init(states[0]),
        forall|k: int| 0 <= k < labels.len() ==> mutex_step(states[k], states[k + 1], labels[k]),
        0 <= i < states.len(),
        0 <= t1 < states[i].threads.len(),
        0 <= t2 < states[i].threads.len(),
        states[i].threads[t1] is Holding,
        states[i].threads[t2] is Holding,
    ensures
        t1 == t2,
{
    lemma_mutex_init_inv(states[0]);
    lemma_mutex_trace_inv(states, labels);
    lemma_mutex_mutual_exclusion(states[i], t1, t2);
}

// ------------------------------------------------------------------
// The reader-writer lock as a concurrent state machine.
// ------------------------------------------------------------------

/// One thread's relation to the reader-writer lock.
pub enum RwPhase {
    /// Holding neither mode.
    Idle,
    /// Holding the lock in shared mode.
    SharedHeld,
    /// Holding the lock in exclusive mode.
    ExclusiveHeld,
}

/// The word and every thread that contends for it.
pub struct RwModel {
    pub word: u64,
    pub threads: Seq<RwPhase>,
}

/// One atomic step of the reader-writer system.
pub enum RwLabel {
    /// Thread `tid`'s successful shared compare-and-swap.
    AcquireShared { tid: int },
    /// Thread `tid`'s shared-release decrement.
    ReleaseShared { tid: int },
    /// Thread `tid`'s successful exclusive compare-and-swap.
    AcquireExclusive { tid: int },
    /// Thread `tid`'s exclusive-release clear of the exclusive bit.
    ReleaseExclusive { tid: int },
}

/// The number of threads holding the lock in shared mode.
pub open spec fn rw_count_shared(threads: Seq<RwPhase>) -> nat
    decreases threads.len(),
{
    if threads.len() == 0 {
        0
    } else {
        rw_count_shared(threads.drop_last()) + if threads.last() is SharedHeld {
            1nat
        } else {
            0nat
        }
    }
}

/// Updating one slot changes the shared count by the difference of the two
/// slot values.
pub proof fn lemma_rw_count_update(threads: Seq<RwPhase>, i: int, v: RwPhase)
    requires
        0 <= i < threads.len(),
    ensures
        rw_count_shared(threads.update(i, v)) == rw_count_shared(threads) - (
        if threads[i] is SharedHeld {
            1int
        } else {
            0int
        }) + (if v is SharedHeld {
            1int
        } else {
            0int
        }),
    decreases threads.len(),
{
    let upd = threads.update(i, v);
    if i == threads.len() - 1 {
        assert(upd.drop_last() =~= threads.drop_last());
    } else {
        lemma_rw_count_update(threads.drop_last(), i, v);
        assert(upd.drop_last() =~= threads.drop_last().update(i, v));
        assert(upd.last() == threads.last());
    }
}

/// The shared count never exceeds the thread count.
pub proof fn lemma_rw_count_le_len(threads: Seq<RwPhase>)
    ensures
        rw_count_shared(threads) <= threads.len(),
    decreases threads.len(),
{
    if threads.len() > 0 {
        lemma_rw_count_le_len(threads.drop_last());
    }
}

/// A shared holder makes the shared count positive.
pub proof fn lemma_rw_shared_count_pos(threads: Seq<RwPhase>, t: int)
    requires
        0 <= t < threads.len(),
        threads[t] is SharedHeld,
    ensures
        rw_count_shared(threads) >= 1,
    decreases threads.len(),
{
    if t < threads.len() - 1 {
        lemma_rw_shared_count_pos(threads.drop_last(), t);
    }
}

/// The shared acquisition: possible only while the exclusive bit is clear;
/// the word counts one holder more.
pub open spec fn rw_step_acquire_shared(s1: RwModel, s2: RwModel, tid: int) -> bool {
    &&& 0 <= tid < s1.threads.len()
    &&& s1.threads[tid] is Idle
    &&& s1.word < LOCK_EXCLUSIVE
    &&& s2.word == s1.word + 1
    &&& s2.threads == s1.threads.update(tid, RwPhase::SharedHeld)
}

/// The shared release: the word counts one holder fewer.
pub open spec fn rw_step_release_shared(s1: RwModel, s2: RwModel, tid: int) -> bool {
    &&& 0 <= tid < s1.threads.len()
    &&& s1.threads[tid] is SharedHeld
    &&& s1.word >= 1
    &&& s2.word == s1.word - 1
    &&& s2.threads == s1.threads.update(tid, RwPhase::Idle)
}

/// The exclusive acquisition: possible only from the completely free word.
pub open spec fn rw_step_acquire_exclusive(s1: RwModel, s2: RwModel, tid: int) -> bool {
    &&& 0 <= tid < s1.threads.len()
    &&& s1.threads[tid] is Idle
    &&& s1.word == 0
    &&& s2.word == LOCK_EXCLUSIVE
    &&& s2.threads == s1.threads.update(tid, RwPhase::ExclusiveHeld)
}

/// The exclusive release: the exclusive bit is cleared.
pub open spec fn rw_step_release_exclusive(s1: RwModel, s2: RwModel, tid: int) -> bool {
    &&& 0 <= tid < s1.threads.len()
    &&& s1.threads[tid] is ExclusiveHeld
    &&& s1.word >= LOCK_EXCLUSIVE
    &&& s2.word == s1.word - LOCK_EXCLUSIVE
    &&& s2.threads == s1.threads.update(tid, RwPhase::Idle)
}

/// The step relation of the reader-writer system.
pub open spec fn rw_step(s1: RwModel, s2: RwModel, lbl: RwLabel) -> bool {
    match lbl {
        RwLabel::AcquireShared { tid } => rw_step_acquire_shared(s1, s2, tid),
        RwLabel::ReleaseShared { tid } => rw_step_release_shared(s1, s2, tid),
        RwLabel::AcquireExclusive { tid } => rw_step_acquire_exclusive(s1, s2, tid),
        RwLabel::ReleaseExclusive { tid } => rw_step_release_exclusive(s1, s2, tid),
    }
}

/// A freshly created lock: word zero, every thread idle.
pub open spec fn rw_init(s: RwModel) -> bool {
    &&& s.word == 0
    &&& s.threads.len() < LOCK_EXCLUSIVE
    &&& forall|t: int| 0 <= t < s.threads.len() ==> #[trigger] s.threads[t] is Idle
}

/// The inductive invariant: the word is exactly the encoding of the thread
/// states — the exclusive bit for a unique exclusive holder with no shared
/// holders beside it, or the count of shared holders with the bit clear.
pub open spec fn rw_inv(s: RwModel) -> bool {
    &&& s.threads.len() < LOCK_EXCLUSIVE
    &&& forall|t1: int, t2: int|
        0 <= t1 < s.threads.len() && 0 <= t2 < s.threads.len() && #[trigger] s.threads[t1]
            is ExclusiveHeld && #[trigger] s.threads[t2] is ExclusiveHeld ==> t1 == t2
    &&& forall|t: int|
        0 <= t < s.threads.len() && #[trigger] s.threads[t] is ExclusiveHeld ==> s.word
            == LOCK_EXCLUSIVE
    &&& s.word >= LOCK_EXCLUSIVE ==> s.word == LOCK_EXCLUSIVE && rw_count_shared(s.threads) == 0
    &&& s.word < LOCK_EXCLUSIVE ==> rw_count_shared(s.threads) == s.word && (forall|t: int|
        0 <= t < s.threads.len() ==> !(#[trigger] s.threads[t] is ExclusiveHeld))
}

/// A fresh lock satisfies the invariant.
pub proof fn lemma_rw_init_inv(s: RwModel)
    requires
        rw_init(s),
    ensures
        rw_inv(s),
{
    lemma_rw_count_zero_of_idle(s.threads);
}

/// A sequence without shared holders counts zero.
pub proof fn lemma_rw_count_zero_of_idle(threads: Seq<RwPhase>)
    requires
        forall|t: int| 0 <= t < threads.len() ==> !(#[trigger] threads[t] is SharedHeld),
    ensures
        rw_count_shared(threads) == 0,
    decreases threads.len(),
{
    if threads.len() > 0 {
        lemma_rw_count_zero_of_idle(threads.drop_last());
    }
}

/// Every step of the reader-writer system preserves the invariant.
pub proof fn lemma_rw_step_preserves_inv(s1: RwModel, s2: RwModel, lbl: RwLabel)
    requires
        rw_inv(s1),
        rw_step(s1, s2, lbl),
    ensures
        rw_inv(s2),
{
    match lbl {
        RwLabel::AcquireShared { tid } => {
            lemma_rw_count_update(s1.threads, tid, RwPhase::SharedHeld);
            lemma_rw_count_le_len(s2.threads);
        },
        RwLabel::ReleaseShared { tid } => {
            lemma_rw_shared_count_pos(s1.threads, tid);
            lemma_rw_count_update(s1.threads, tid, RwPhase::Idle);
        },
        RwLabel::AcquireExclusive { tid } => {
            lemma_rw_count_update(s1.threads, tid, RwPhase::ExclusiveHeld);
        },
        RwLabel::ReleaseExclusive { tid } => {
            lemma_rw_count_update(s1.threads, tid, RwPhase::Idle);
        },
    }
}

/// Shared/exclusive exclusivity: under the invariant, an exclusive holder
/// is unique and excludes every shared holder.
pub proof fn lemma_rwlock_exclusivity(s: RwModel, t1: int, t2: int)
    requires
        rw_inv(s),
        0 <= t1 < s.threads.len(),
        0 <= t2 < s.threads.len(),
        s.threads[t1] is ExclusiveHeld,
    ensures
        s.threads[t2] is ExclusiveHeld ==> t2 == t1,
        !(s.threads[t2] is SharedHeld),
{
    if s.threads[t2] is SharedHeld {
        lemma_rw_shared_count_pos(s.threads, t2);
    }
}

/// Exclusivity over whole histories: along any sequence of acquisition and
/// release steps from a fresh lock, every reached state keeps exclusive
/// and shared holders apart.
pub proof fn lemma_rw_trace_inv(states: Seq<RwModel>, labels: Seq<RwLabel>)
    requires
        states.len() == labels.len() + 1,
        rw_inv(states[0]),
        forall|i: int| 0 <= i < labels.len() ==> rw_step(states[i], states[i + 1], labels[i]),
    ensures
        forall|i: int| 0 <= i < states.len() ==> rw_inv(#[trigger] states[i]),
    decreases labels.len(),
{
    if labels.len() > 0 {
        let states2 = states.drop_last();
        let labels2 = labels.drop_last();
        assert forall|i: int| 0 <= i < labels2.len() implies rw_step(
            states2[i],
            states2[i + 1],
            labels2[i],
        ) by {
            assert(rw_step(states[i], states[i + 1], labels[i]));
        }
        lemma_rw_trace_inv(states2, labels2);
        let n = labels.len() - 1;
        assert(rw_inv(states2[n]));
        assert(rw_step(states[n], states[n + 1], labels[n]));
        lemma_rw_step_preserves_inv(states[n], states[n + 1], labels[n]);
        assert forall|i: int| 0 <= i < states.len() implies rw_inv(#[trigger] states[i]) by {
            if i < states.len() - 1 {
                assert(rw_inv(states2[i]));
            }
        }
    }
}

/// Shared/exclusive exclusivity, stated over histories directly: starting
/// from a fresh lock, after any number of acquisition and release steps
/// by any number of threads, an exclusive holder is unique and no shared
/// holder exists beside it.
pub proof fn lemma_rw_history_exclusivity(
    states: Seq<RwModel>,
    labels: Seq<RwLabel>,
    i: int,
    t1: int,
    t2: int,
)
    requires
        states.len() == labels.len() + 1,
        rw_init(states[0]),
        forall|k: int| 0 <= k < labels.len() ==> rw_step(states[k], states[k + 1], labels[k]),
        0 <= i < states.len(),
        0 <= t1 < states[i].threads.len(),
        0 <= t2 < states[i].threads.len(),
        states[i].threads[t1] is ExclusiveHeld,
    ensures
        states[i].threads[t2] is ExclusiveHeld ==> t2 == t1,
        !(states[i].threads[t2] is SharedHeld),
{
    lemma_rw_init_inv(states[0]);
    lemma_rw_trace_inv(states, labels);
    lemma_rwlock_exclusivity(states[i], t1, t2);
}

// ------------------------------------------------------------------
// The condition variable's waiter/notifier race.
// ------------------------------------------------------------------

/// One waiter's progress through one wait call.
pub enum CondvarWaiter {
    /// Still holding its guard, not yet snapshotted.
    Started,
    /// Snapshotted the counter and released the guard.
    HasSnapshot { snap: u64 },
    /// Blocked on the counter word.
    BlockedOn { snap: u64 },
    /// Released, or never blocked at all; about to retake the guard.
    Woken,
}

/// The counter and every waiter racing the notifier.
pub struct CondvarModel {
    pub counter: u64,
    pub waiters: Seq<CondvarWaiter>,
}

/// Waiter `tid` snapshots the counter.
pub open spec fn cv_step_snapshot(s1: CondvarModel, s2: CondvarModel, tid: int) -> bool {
    &&& 0 <= tid < s1.waiters.len()
    &&& s1.waiters[tid] is Started
    &&& s2.counter == s1.counter
    &&& s2.waiters == s1.waiters.update(tid, CondvarWaiter::HasSnapshot { snap: s1.counter })
}

/// Waiter `tid`'s conditional block: it blocks exactly when the counter
/// still holds its snapshot, and otherwise returns at once.
pub open spec fn cv_step_attempt_block(s1: CondvarModel, s2: CondvarModel, tid: int) -> bool {
    &&& 0 <= tid < s1.waiters.len()
    &&& match s1.waiters[tid] {
        CondvarWaiter::HasSnapshot { snap } => {
            &&& s2.counter == s1.counter
            &&& s2.waiters == s1.waiters.update(
                tid,
                if s1.counter == snap {
                    CondvarWaiter::BlockedOn { snap }
                } else {
                    CondvarWaiter::Woken
                },
            )
        },
        _ => false,
    }
}

/// The notifier's wake: every waiter blocked at this instant is released;
/// every other waiter is untouched.
pub open spec fn cv_step_wake(s1: CondvarModel, s2: CondvarModel) -> bool {
    &&& s2.counter == s1.counter
    &&& s2.waiters.len() == s1.waiters.len()
    &&& forall|t: int|
        0 <= t < s1.waiters.len() ==> s2.waiters[t] == match s1.waiters[t] {
            CondvarWaiter::BlockedOn { .. } => CondvarWaiter::Woken,
            w => w,
        }
}

/// The notifier's advance of the counter, performed after its wake.
pub open spec fn cv_step_bump(s1: CondvarModel, s2: CondvarModel) -> bool {
    &&& s2.counter == wrap_inc(s1.counter)
    &&& s2.waiters == s1.waiters
}

/// A notification reaches every waiter blocked when it is issued: the wake
/// step releases all of them at once.
pub proof fn lemma_condvar_notify_wakes_blocked(s1: CondvarModel, s2: CondvarModel)
    requires
        cv_step_wake(s1, s2),
    ensures
        forall|t: int|
            0 <= t < s1.waiters.len() && s1.waiters[t] is BlockedOn ==> s2.waiters[t] is Woken,
{
}

/// A waiter whose snapshot is stale never blocks: the conditional block
/// returns at once.
pub proof fn lemma_condvar_stale_snapshot_never_blocks(
    s1: CondvarModel,
    s2: CondvarModel,
    tid: int,
    v: u64,
)
    requires
        0 <= tid < s1.waiters.len(),
        s1.waiters[tid] == (CondvarWaiter::HasSnapshot { snap: v }),
        s1.counter != v,
        cv_step_attempt_block(s1, s2, tid),
    ensures
        s2.waiters[tid] is Woken,
{
}

/// Lost-wakeup avoidance: a waiter that snapshots the counter and then has
/// a whole notification (wake, then counter advance) slip in before its
/// block attempt does not block — the advanced counter fails its check and
/// it returns at once instead of sleeping through the missed wake.  Every
/// waiter that was already blocked when the notification was issued ends
/// woken as well.
pub proof fn lemma_condvar_no_lost_wakeup(
    s0: CondvarModel,
    s1: CondvarModel,
    s2: CondvarModel,
    s3: CondvarModel,
    tid: int,
    v: u64,
)
    requires
        0 <= tid < s0.waiters.len(),
        s0.waiters[tid] == (CondvarWaiter::HasSnapshot { snap: v }),
        s0.counter == v,
        cv_step_wake(s0, s1),
        cv_step_bump(s1, s2),
        cv_step_attempt_block(s2, s3, tid),
    ensures
        s3.waiters[tid] is Woken,
        forall|t: int|
            0 <= t < s0.waiters.len() && s0.waiters[t] is BlockedOn ==> s3.waiters[t] is Woken,
{
    assert(forall|t: int|
        0 <= t < s0.waiters.len() && s0.waiters[t] is BlockedOn ==> s2.waiters[t] is Woken);
}

} // verus!
