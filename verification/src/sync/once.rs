//! Race-free one-time initialization.
//!
//! The state word carries three flag bits: `INIT` once a value has been
//! stored (set permanently), `LOCK` while one thread runs the initializer,
//! and `EVENT` once a contending thread has registered interest in being
//! woken when the lock is released.  The decision functions below are the
//! concurrent algorithm's moves on the word; [`OnceLock`] itself carries the
//! word and the slot, and its methods are the transitions the runtime half
//! performs on it.  A failed initializer releases the lock without setting
//! `INIT`, so a later caller may try again: there is no poisoning.
//!
//! The state machine at the end of the file describes the same protocol run
//! by any number of threads, and its proof functions establish that the
//! initializer completes at most once, that every caller observes the one
//! stored value, and that abandonment re-enables acquisition.

use vstd::prelude::*;

verus! {

/// Set once initialization has completed; never cleared afterwards.
pub const INIT: u64 = 0x0001;

/// Set while one thread runs the initializer.
pub const LOCK: u64 = 0x0002;

/// Set once a waiter has registered interest and must be woken on release.
pub const EVENT: u64 = 0x0004;

/// What a thread does after its fetch-or of the `LOCK` bit returned `prev`.
#[derive(Copy, Clone, Debug, PartialEq, Eq, Structural)]
pub enum OnceLockStep {
    /// The lock was free and the value not yet stored: this thread now runs
    /// the initializer.
    AcquiredLock,
    /// The value was already stored: restore the word to `INIT`, wake any
    /// registered waiters, and hand out the stored value.
    AlreadyInitialized,
    /// Another thread holds the lock; attempt again after a CPU-yield hint.
    SpinRetry,
    /// Another thread holds the lock and the spin budget is spent: set the
    /// `EVENT` bit and block on the word.
    RegisterAndBlock,
}

/// How many failed attempts a thread makes before it registers and blocks.
/// A tuning constant, not a correctness one.
pub const ONCE_SPIN_LIMIT: u64 = 128;

/// After a fetch-or of `LOCK` returned `prev`, what the thread does next.
pub fn once_lock_decision(prev: u64, spins: u64) -> (r: OnceLockStep)
    ensures
        prev & LOCK != 0 && spins < ONCE_SPIN_LIMIT ==> r is SpinRetry,
        prev & LOCK != 0 && spins >= ONCE_SPIN_LIMIT ==> r is RegisterAndBlock,
        prev & LOCK == 0 && prev & INIT != 0 ==> r is AlreadyInitialized,
        prev & LOCK == 0 && prev & INIT == 0 ==> r is AcquiredLock,
{
    if prev & LOCK != 0 {
        if spins < ONCE_SPIN_LIMIT {
            OnceLockStep::SpinRetry
        } else {
            OnceLockStep::RegisterAndBlock
        }
    } else if prev & INIT != 0 {
        OnceLockStep::AlreadyInitialized
    } else {
        OnceLockStep::AcquiredLock
    }
}

/// Whether the word swapped out on a release obliges the releaser to wake
/// the registered waiters.
pub fn once_event_was_set(prev: u64) -> (r: bool)
    ensures
        r == (prev & EVENT != 0),
{
    prev & EVENT != 0
}

/// A slot that is initialized at most once, with the state word that
/// guards it.  `INIT` set implies the slot is filled.
pub struct OnceLock<T> {
    pub state: u64,
    pub value: Option<T>,
}

impl<T> OnceLock<T> {
    /// The word never claims a value the slot does not hold.
    pub open spec fn wf(self) -> bool {
        self.state & INIT != 0 ==> self.value is Some
    }

    /// Whether initialization has completed.
    pub open spec fn spec_is_init(self) -> bool {
        self.state & INIT != 0
    }

    /// An empty slot.
    pub fn new() -> (r: OnceLock<T>)
        ensures
            r.wf(),
            r.state == 0,
            r.value is None,
    {
        proof {
            assert(0u64 & INIT == 0) by (bit_vector);
        }
        OnceLock { state: 0, value: None }
    }

    /// A slot that starts out already initialized.
    pub fn new_init(val: T) -> (r: OnceLock<T>)
        ensures
            r.wf(),
            r.state == INIT,
            r.value == Some(val),
    {
        proof {
            assert(INIT & INIT != 0) by (bit_vector);
        }
        OnceLock { state: INIT, value: Some(val) }
    }

    /// Whether initialization has completed.
    pub fn is_init(&self) -> (r: bool)
        ensures
            r == self.spec_is_init(),
    {
        self.state & INIT != 0
    }

    /// The same check through exclusive access.
    pub fn is_init_mut(&mut self) -> (r: bool)
        ensures
            *final(self) == *old(self),
            r == old(self).spec_is_init(),
    {
        self.state & INIT != 0
    }

    /// The stored value, when initialization has completed.
    pub fn get(&self) -> (r: Option<&T>)
        requires
            self.wf(),
        ensures
            match r {
                Some(v) => self.spec_is_init() && self.value == Some(*v),
                None => !self.spec_is_init(),
            },
    {
        if self.state & INIT != 0 {
            match &self.value {
                Some(v) => Some(v),
                None => None,
            }
        } else {
            None
        }
    }

    /// Runs the initializer at most once.  If the slot is already filled,
    /// the stored value is returned and the initializer is not consulted;
    /// otherwise the initializer runs, and on success its value is stored
    /// permanently, while on failure the slot is left empty for a future
    /// caller — no poisoning.  Exclusive access stands in for the lock
    /// round-trip of the concurrent protocol, whose word moves are
    /// [`once_lock_decision`] and [`once_event_was_set`].
    pub fn try_init_impl<R, F: FnOnce() -> Result<T, R>>(&mut self, init_fn: F) -> (r: Result<
        &T,
        R,
    >)
        requires
            old(self).wf(),
            old(self).state == 0 || old(self).state == INIT,
            old(self).state == 0 ==> call_requires(init_fn, ()),
        ensures
            final(self).wf(),
            final(self).state == 0 || final(self).state == INIT,
            old(self).state == INIT ==> final(self).state == INIT && final(self).value == old(
                self,
            ).value && match r {
                Ok(v) => old(self).value == Some(*v),
                Err(_) => false,
            },
            old(self).state == 0 ==> match r {
                Ok(v) => call_ensures(init_fn, (), Result::<T, R>::Ok(*v)) && final(self).state
                    == INIT && final(self).value == Some(*v),
                Err(e) => call_ensures(init_fn, (), Result::<T, R>::Err(e)) && final(self).state
                    == 0 && final(self).value == old(self).value,
            },
    {
        proof {
            assert(INIT & INIT != 0) by (bit_vector);
            assert(0u64 & INIT == 0) by (bit_vector);
        }
        if self.state & INIT != 0 {
            match &self.value {
                Some(v) => Ok(v),
                None => {
                    proof {
                        assert(false);
                    }
                    Err(vstd::pervasive::unreached())
                },
            }
        } else {
            match init_fn() {
                Ok(c) => {
                    self.value = Some(c);
                    self.state = INIT;
                    match &self.value {
                        Some(v) => Ok(v),
                        None => {
                            proof {
                                assert(false);
                            }
                            Err(vstd::pervasive::unreached())
                        },
                    }
                },
                Err(e) => Err(e),
            }
        }
    }
}

// ------------------------------------------------------------------
// The one-time initialization protocol as a concurrent state machine.
// ------------------------------------------------------------------

/// One thread's relation to the slot.
pub enum OncePhase<V> {
    /// Has not acquired the lock nor read the value.
    Idle,
    /// Holds the lock and is running the initializer.
    HasLock,
    /// Finished a call, having observed the stored value.
    Done { value: V },
}

/// The word (as its three flag bits), the slot, every calling thread, and
/// how many initializer runs have completed.
pub struct OnceModel<V> {
    pub init: bool,
    pub lock: bool,
    pub event: bool,
    pub slot: Option<V>,
    pub threads: Seq<OncePhase<V>>,
    pub runs: nat,
}

/// One atomic step of the protocol.
pub enum OnceLabel<V> {
    /// Thread `tid` reads the already-stored value on the fast path.
    Observe { tid: int },
    /// Thread `tid`'s fetch-or takes the free lock.
    Acquire { tid: int },
    /// A contending thread sets the event bit before blocking.
    Register { tid: int },
    /// Thread `tid` stores `value` and releases the lock with `INIT` set.
    Finish { tid: int, value: V },
    /// Thread `tid` abandons initialization, restoring the empty word.
    Abandon { tid: int },
}

/// The fast path: with `INIT` set, a caller reads the stored value.
pub open spec fn once_step_observe<V>(s1: OnceModel<V>, s2: OnceModel<V>, tid: int) -> bool {
    &&& 0 <= tid < s1.threads.len()
    &&& s1.threads[tid] is Idle
    &&& s1.init
    &&& match s1.slot {
        Some(v) => s2 == (OnceModel {
            threads: s1.threads.update(tid, OncePhase::Done { value: v }),
            ..s1
        }),
        None => false,
    }
}

/// A fetch-or of `LOCK` that finds the word free and uninitialized.
pub open spec fn once_step_acquire<V>(s1: OnceModel<V>, s2: OnceModel<V>, tid: int) -> bool {
    &&& 0 <= tid < s1.threads.len()
    &&& s1.threads[tid] is Idle
    &&& !s1.init
    &&& !s1.lock
    &&& s2 == (OnceModel { lock: true, threads: s1.threads.update(tid, OncePhase::HasLock), ..s1 })
}

/// A contending thread sets the event bit while the lock is held.
pub open spec fn once_step_register<V>(s1: OnceModel<V>, s2: OnceModel<V>, tid: int) -> bool {
    &&& 0 <= tid < s1.threads.len()
    &&& s1.lock
    &&& s2 == (OnceModel { event: true, ..s1 })
}

/// The lock holder stores the value and releases with `INIT` set, waking
/// any registered waiters.
pub open spec fn once_step_finish<V>(s1: OnceModel<V>, s2: OnceModel<V>, tid: int, v: V) -> bool {
    &&& 0 <= tid < s1.threads.len()
    &&& s1.threads[tid] is HasLock
    &&& s2 == (OnceModel {
        init: true,
        lock: false,
        event: false,
        slot: Some(v),
        threads: s1.threads.update(tid, OncePhase::Done { value: v }),
        runs: s1.runs + 1,
    })
}

/// The lock holder gives up: the word returns to fully empty, the slot
/// stays unfilled, and any registered waiters are woken to race again.
pub open spec fn once_step_abandon<V>(s1: OnceModel<V>, s2: OnceModel<V>, tid: int) -> bool {
    &&& 0 <= tid < s1.threads.len()
    &&& s1.threads[tid] is HasLock
    &&& s2 == (OnceModel {
        init: false,
        lock: false,
        event: false,
        slot: s1.slot,
        threads: s1.threads.update(tid, OncePhase::Idle),
        runs: s1.runs,
    })
}

/// The step relation of the protocol.
pub open spec fn once_step<V>(s1: OnceModel<V>, s2: OnceModel<V>, lbl: OnceLabel<V>) -> bool {
    match lbl {
        OnceLabel::Observe { tid } => once_step_observe(s1, s2, tid),
        OnceLabel::Acquire { tid } => once_step_acquire(s1, s2, tid),
        OnceLabel::Register { tid } => once_step_register(s1, s2, tid),
        OnceLabel::Finish { tid, value } => once_step_finish(s1, s2, tid, value),
        OnceLabel::Abandon { tid } => once_step_abandon(s1, s2, tid),
    }
}

/// A freshly created slot: empty word, empty slot, every thread idle.
pub open spec fn once_init_state<V>(s: OnceModel<V>) -> bool {
    &&& !s.init
    &&& !s.lock
    &&& !s.event
    &&& s.slot is None
    &&& s.runs == 0
    &&& forall|t: int| 0 <= t < s.threads.len() ==> #[trigger] s.threads[t] is Idle
}

/// The inductive invariant: one lock holder at most, and only while the
/// slot is uninitialized; once `INIT` is set the slot is filled and the
/// initializer has run exactly once; every observed value is the stored
/// one.
pub open spec fn once_inv<V>(s: OnceModel<V>) -> bool {
    &&& forall|t1: int, t2: int|
        0 <= t1 < s.threads.len() && 0 <= t2 < s.threads.len() && #[trigger] s.threads[t1]
            is HasLock && #[trigger] s.threads[t2] is HasLock ==> t1 == t2
    &&& forall|t: int|
        0 <= t < s.threads.len() && #[trigger] s.threads[t] is HasLock ==> s.lock && !s.init
    &&& s.init ==> s.slot is Some && s.runs == 1
    &&& !s.init ==> s.runs == 0
    &&& forall|t: int|
        0 <= t < s.threads.len() && #[trigger] s.threads[t] is Done ==> s.init && match s
            .threads[t] {
            OncePhase::Done { value } => s.slot == Some(value),
            _ => false,
        }
}

/// A fresh slot satisfies the invariant.
pub proof fn lemma_once_init_inv<V>(s: OnceModel<V>)
    requires
        once_init_state(s),
    ensures
        once_inv(s),
{
}

/// Every step of the protocol preserves the invariant.
pub proof fn lemma_once_step_preserves_inv<V>(s1: OnceModel<V>, s2: OnceModel<V>, lbl: OnceLabel<V>)
    requires
        once_inv(s1),
        once_step(s1, s2, lbl),
    ensures
        once_inv(s2),
{
}

/// Idempotence: the initializer has completed at most once, whatever has
/// happened so far.
pub proof fn lemma_once_at_most_one_run<V>(s: OnceModel<V>)
    requires
        once_inv(s),
    ensures
        s.runs <= 1,
{
}

/// Agreement: two callers that finished their call observed the same value,
/// and it is the stored one; and by then the initializer has run exactly
/// once.
pub proof fn lemma_once_agreement<V>(s: OnceModel<V>, t1: int, t2: int, v1: V, v2: V)
    requires
        once_inv(s),
        0 <= t1 < s.threads.len(),
        0 <= t2 < s.threads.len(),
        s.threads[t1] == (OncePhase::Done { value: v1 }),
        s.threads[t2] == (OncePhase::Done { value: v2 }),
    ensures
        v1 == v2,
        s.slot == Some(v1),
        s.runs == 1,
{
}

/// The acquire step a thread can take from a given state.
pub open spec fn once_acquire_result<V>(s: OnceModel<V>, tid: int) -> OnceModel<V> {
    OnceModel { lock: true, threads: s.threads.update(tid, OncePhase::HasLock), ..s }
}

/// Abandonment re-enables initialization: after the holder gives up, the
/// word is fully empty, `INIT` is not set, and any idle thread can take
/// the lock — a later caller initializes from scratch instead of finding
/// the slot poisoned.
pub proof fn lemma_once_abandon_reenables<V>(s1: OnceModel<V>, s2: OnceModel<V>, tid: int)
    requires
        once_inv(s1),
        once_step_abandon(s1, s2, tid),
    ensures
        !s2.init && !s2.lock && !s2.event,
        forall|t: int|
            0 <= t < s2.threads.len() && #[trigger] s2.threads[t] is Idle ==> once_step_acquire(
                s2,
                once_acquire_result(s2, t),
                t,
            ),
{
}

/// Idempotence and agreement, stated over histories directly: starting
/// from a fresh slot, after any number of protocol steps by any number of
/// racing callers, the initializer has completed at most once, and any two
/// finished callers observed one and the same stored value.
pub proof fn lemma_once_history_idempotence<V>(
    states: Seq<OnceModel<V>>,
    labels: Seq<OnceLabel<V>>,
    i: int,
    t1: int,
    t2: int,
    v1: V,
    v2: V,
)
    requires
        states.len() == labels.len() + 1,
        once_init_state(states[0]),
        forall|k: int| 0 <= k < labels.len() ==> once_step(states[k], states[k + 1], labels[k]),
        0 <= i < states.len(),
        0 <= t1 < states[i].threads.len(),
        0 <= t2 < states[i].threads.len(),
        states[i].threads[t1] == (OncePhase::Done { value: v1 }),
        states[i].threads[t2] == (OncePhase::Done { value: v2 }),
    ensures
        states[i].runs == 1,
        v1 == v2,
        states[i].slot == Some(v1),
{
    lemma_once_init_inv(states[0]);
    lemma_once_trace_inv(states, labels);
    lemma_once_agreement(states[i], t1, t2, v1, v2);
}

/// The invariant holds along any run of the protocol from a fresh slot.
pub proof fn lemma_once_trace_inv<V>(states: Seq<OnceModel<V>>, labels: Seq<OnceLabel<V>>)
    requires
        states.len() == labels.len() + 1,
        once_inv(states[0]),
        forall|i: int| 0 <= i < labels.len() ==> once_step(states[i], states[i + 1], labels[i]),
    ensures
        forall|i: int| 0 <= i < states.len() ==> once_inv(#[trigger] states[i]),
    decreases labels.len(),
{
    if labels.len() > 0 {
        let states2 = states.drop_last();
        let labels2 = labels.drop_last();
        assert forall|i: int| 0 <= i < labels2.len() implies once_step(
            states2[i],
            states2[i + 1],
            labels2[i],
        ) by {
            assert(once_step(states[i], states[i + 1], labels[i]));
        }
        lemma_once_trace_inv(states2, labels2);
        let n = labels.len() - 1;
        assert(once_inv(states2[n]));
        assert(once_step(states[n], states[n + 1], labels[n]));
        lemma_once_step_preserves_inv(states[n], states[n + 1], labels[n]);
        assert forall|i: int| 0 <= i < states.len() implies once_inv(#[trigger] states[i]) by {
            if i < states.len() - 1 {
                assert(once_inv(states2[i]));
            }
        }
    }
}

} // verus!
