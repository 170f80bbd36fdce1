//! Blocking on collections of heterogeneous events.
//!
//! An [`Event`] knows how to materialise itself into one kernel
//! [`BlockingEvent`] descriptor and how to read its typed result back out of
//! the descriptor once a blocking call has completed.  An [`EventList`] does
//! the same for a whole collection — a homogeneous vector or a tuple of up
//! to twelve differently-typed events — so that one kernel call can block
//! on all of them, or on any one of them.  The runtime half issues that
//! call; this layer builds the descriptor list and extracts the results,
//! and its contracts pin both down exactly.

use crate::sys::event::{BlockingEvent, BlockingEventPayload};
use crate::sys::option::OPTION_FLAG_IGNORE;
use crate::time::{Clock, Duration, TimePoint};
use vstd::prelude::*;

verus! {

/// A placeholder for the positions of an [`EventListResult`] beyond the
/// tuple's arity; no extraction ever produces it.
#[derive(Copy, Clone, Debug, PartialEq, Eq)]
pub struct Absent;

/// The result of blocking on any one event of a tuple: one variant per
/// tuple position, carrying that position's value type.
#[derive(Copy, Clone, Debug, PartialEq, Eq)]
pub enum EventListResult<
    A = Absent,
    B = Absent,
    C = Absent,
    D = Absent,
    E = Absent,
    F = Absent,
    G = Absent,
    H = Absent,
    I = Absent,
    J = Absent,
    K = Absent,
    L = Absent,
> {
    _0(A),
    _1(B),
    _2(C),
    _3(D),
    _4(E),
    _5(F),
    _6(G),
    _7(H),
    _8(I),
    _9(J),
    _10(K),
    _11(L),
}

/// One condition a thread can block on, with a typed result.
pub trait Event: Sized {
    /// The value extracted from the completed descriptor.
    type Val;

    /// The descriptor this event materialises into.
    spec fn descriptor_of(&self) -> BlockingEvent;

    /// The value read back from a completed descriptor.
    spec fn value_of(&self, blob: BlockingEvent) -> Self::Val;

    /// Materialises the descriptor.
    fn init(&self) -> (r: BlockingEvent)
        ensures
            r == self.descriptor_of(),
    ;

    /// Extracts the value from a completed descriptor.
    fn get(&self, blob: &BlockingEvent) -> (r: Self::Val)
        ensures
            r == self.value_of(*blob),
    ;
}

/// A fixed collection of events that one kernel call can block on.
pub trait EventList: Sized {
    /// The per-event results of blocking on every event.
    type AllResult;

    /// The single result of blocking on any one event.
    type AnyResult;

    /// The descriptors the collection materialises into, in order.
    spec fn descriptors_of(&self) -> Seq<BlockingEvent>;

    /// What the all-events result must be, given the completed descriptors.
    spec fn all_result_is(&self, descs: Seq<BlockingEvent>, r: Self::AllResult) -> bool;

    /// What the any-event result must be, given the completed descriptors
    /// and the index of the event that fired.
    spec fn any_result_is(&self, descs: Seq<BlockingEvent>, n: int, r: Self::AnyResult) -> bool;

    /// Materialises every event's descriptor, in order.
    fn build_list(&self) -> (r: Vec<BlockingEvent>)
        ensures
            r@ == self.descriptors_of(),
    ;

    /// Extracts one value per event after every descriptor completed.
    fn all_result(&self, v: &Vec<BlockingEvent>) -> (r: Self::AllResult)
        requires
            v@.len() == self.descriptors_of().len(),
        ensures
            self.all_result_is(v@, r),
    ;

    /// Extracts the value of the event at the fired index.
    fn any_result(&self, v: &Vec<BlockingEvent>, n: usize) -> (r: Self::AnyResult)
        requires
            v@.len() == self.descriptors_of().len(),
            n < v@.len(),
        ensures
            self.any_result_is(v@, n as int, r),
    ;
}

/// Marks the wrapped event as ignorable: the kernel need not satisfy it,
/// and the extracted value says whether it was satisfied.
pub struct Optional<E>(pub E);

impl<E: Event> Event for Optional<E> {
    type Val = Option<E::Val>;

    open spec fn descriptor_of(&self) -> BlockingEvent {
        BlockingEvent {
            flags: self.0.descriptor_of().flags | OPTION_FLAG_IGNORE,
            payload: self.0.descriptor_of().payload,
        }
    }

    /// `Some` exactly when the kernel cleared the ignore flag, which it
    /// does for every optional event it actually resolved.
    open spec fn value_of(&self, blob: BlockingEvent) -> Option<E::Val> {
        if blob.flags & OPTION_FLAG_IGNORE == 0 {
            Some(self.0.value_of(blob))
        } else {
            None
        }
    }

    fn init(&self) -> (r: BlockingEvent) {
        let inner = self.0.init();
        BlockingEvent { flags: inner.flags | OPTION_FLAG_IGNORE, payload: inner.payload }
    }

    fn get(&self, blob: &BlockingEvent) -> (r: Option<E::Val>) {
        if blob.flags & OPTION_FLAG_IGNORE == 0 {
            Some(self.0.get(blob))
        } else {
            None
        }
    }
}

/// Blocks the thread for a span of time.
pub struct SleepFor(pub Duration);

impl Event for SleepFor {
    type Val = ();

    open spec fn descriptor_of(&self) -> BlockingEvent {
        BlockingEvent {
            flags: 0,
            payload: BlockingEventPayload::SleepThread { duration: self.0.0 },
        }
    }

    open spec fn value_of(&self, blob: BlockingEvent) -> () {
        ()
    }

    fn init(&self) -> (r: BlockingEvent) {
        BlockingEvent {
            flags: 0,
            payload: BlockingEventPayload::SleepThread { duration: self.0.into_system() },
        }
    }

    fn get(&self, blob: &BlockingEvent) -> (r: ()) {
        ()
    }
}

/// Blocks the thread until a clock reaches a point in time.
pub struct SleepUntil<C>(pub TimePoint<C>);

impl<C: Clock> Event for SleepUntil<C> {
    type Val = ();

    open spec fn descriptor_of(&self) -> BlockingEvent {
        BlockingEvent {
            flags: 0,
            payload: BlockingEventPayload::SleepUntil {
                epoch: self.0.dur,
                clock: C::spec_clock_uuid(),
            },
        }
    }

    open spec fn value_of(&self, blob: BlockingEvent) -> () {
        ()
    }

    fn init(&self) -> (r: BlockingEvent) {
        BlockingEvent {
            flags: 0,
            payload: BlockingEventPayload::SleepUntil {
                epoch: self.0.since_epoch().into_system(),
                clock: C::clock_uuid(),
            },
        }
    }

    fn get(&self, blob: &BlockingEvent) -> (r: ()) {
        ()
    }
}

/// The empty collection: blocking on all of it holds trivially and returns
/// at once; blocking on any of it can never fire an index.
impl EventList for () {
    type AllResult = ();

    type AnyResult = EventListResult;

    open spec fn descriptors_of(&self) -> Seq<BlockingEvent> {
        Seq::empty()
    }

    open spec fn all_result_is(&self, descs: Seq<BlockingEvent>, r: Self::AllResult) -> bool {
        r == ()
    }

    open spec fn any_result_is(&self, descs: Seq<BlockingEvent>, n: int, r: Self::AnyResult) -> bool {
        false
    }

    fn build_list(&self) -> (r: Vec<BlockingEvent>) {
        let r: Vec<BlockingEvent> = Vec::new();
        proof {
            assert(r@ =~= self.descriptors_of());
        }
        r
    }

    fn all_result(&self, v: &Vec<BlockingEvent>) -> (r: Self::AllResult) {
        ()
    }

    fn any_result(&self, v: &Vec<BlockingEvent>, n: usize) -> (r: Self::AnyResult) {
        proof {
            assert(false);
        }
        vstd::pervasive::unreached()
    }
}

/// A homogeneous collection of any length: every element shares one value
/// type, so blocking on all of it yields a vector of values and blocking
/// on any of it yields one value.
impl<E: Event> EventList for Vec<E> {
    type AllResult = Vec<E::Val>;

    type AnyResult = E::Val;

    open spec fn descriptors_of(&self) -> Seq<BlockingEvent> {
        Seq::new(self@.len(), |i: int| self@[i].descriptor_of())
    }

    open spec fn all_result_is(&self, descs: Seq<BlockingEvent>, r: Self::AllResult) -> bool {
        &&& r@.len() == self@.len()
        &&& forall|i: int| 0 <= i < self@.len() ==> r@[i] == self@[i].value_of(descs[i])
    }

    open spec fn any_result_is(&self, descs: Seq<BlockingEvent>, n: int, r: Self::AnyResult) -> bool {
        r == self@[n].value_of(descs[n])
    }

    fn build_list(&self) -> (r: Vec<BlockingEvent>) {
        let mut out: Vec<BlockingEvent> = Vec::new();
        let mut i: usize = 0;
        while i < self.len()
            invariant
                i <= self@.len(),
                out@.len() == i,
                forall|j: int| 0 <= j < i ==> out@[j] == self@[j].descriptor_of(),
            decreases self@.len() - i,
        {
            out.push(self[i].init());
            i += 1;
        }
        proof {
            assert(out@ =~= self.descriptors_of());
        }
        out
    }

    fn all_result(&self, v: &Vec<BlockingEvent>) -> (r: Self::AllResult) {
        let mut out: Vec<E::Val> = Vec::new();
        let mut i: usize = 0;
        while i < self.len()
            invariant
                i <= self@.len(),
                v@.len() == self@.len(),
                out@.len() == i,
                forall|j: int| 0 <= j < i ==> out@[j] == self@[j].value_of(v@[j]),
            decreases self@.len() - i,
        {
            out.push(self[i].get(&v[i]));
            i += 1;
        }
        out
    }

    fn any_result(&self, v: &Vec<BlockingEvent>, n: usize) -> (r: Self::AnyResult) {
        self[n].get(&v[n])
    }
}

/// A tuple of one event, each with its own value type.
impl<A: Event> EventList for (A,) {
    type AllResult = (A::Val,);

    type AnyResult = EventListResult<A::Val>;

    open spec fn descriptors_of(&self) -> Seq<BlockingEvent> {
        seq![self.0.descriptor_of()]
    }

    open spec fn all_result_is(&self, descs: Seq<BlockingEvent>, r: Self::AllResult) -> bool {
        r == (self.0.value_of(descs[0]),)
    }

    open spec fn any_result_is(&self, descs: Seq<BlockingEvent>, n: int, r: Self::AnyResult) -> bool {
        if n == 0 {
            r == EventListResult::<A::Val>::_0(self.0.value_of(descs[0]))
        } else {
            false
        }
    }

    fn build_list(&self) -> (r: Vec<BlockingEvent>) {
        let mut out: Vec<BlockingEvent> = Vec::new();
        out.push(self.0.init());
        proof {
            assert(out@ =~= self.descriptors_of());
        }
        out
    }

    fn all_result(&self, v: &Vec<BlockingEvent>) -> (r: Self::AllResult) {
        (self.0.get(&v[0]),)
    }

    fn any_result(&self, v: &Vec<BlockingEvent>, n: usize) -> (r: Self::AnyResult) {
        if n == 0 {
            EventListResult::_0(self.0.get(&v[0]))
        } else {
            proof {
                assert(false);
            }
            vstd::pervasive::unreached()
        }
    }
}

/// A tuple of two events, each with its own value type.
impl<A: Event, B: Event> EventList for (A, B) {
    type AllResult = (A::Val, B::Val);

    type AnyResult = EventListResult<A::Val, B::Val>;

    open spec fn descriptors_of(&self) -> Seq<BlockingEvent> {
        seq![self.0.descriptor_of(), self.1.descriptor_of()]
    }

    open spec fn all_result_is(&self, descs: Seq<BlockingEvent>, r: Self::AllResult) -> bool {
        r == (self.0.value_of(descs[0]), self.1.value_of(descs[1]))
    }

    open spec fn any_result_is(&self, descs: Seq<BlockingEvent>, n: int, r: Self::AnyResult) -> bool {
        if n == 0 {
            r == EventListResult::<A::Val, B::Val>::_0(self.0.value_of(descs[0]))
        } else if n == 1 {
            r == EventListResult::<A::Val, B::Val>::_1(self.1.value_of(descs[1]))
        } else {
            false
        }
    }

    fn build_list(&self) -> (r: Vec<BlockingEvent>) {
        let mut out: Vec<BlockingEvent> = Vec::new();
        out.push(self.0.init());
        out.push(self.1.init());
        proof {
            assert(out@ =~= self.descriptors_of());
        }
        out
    }

    fn all_result(&self, v: &Vec<BlockingEvent>) -> (r: Self::AllResult) {
        (self.0.get(&v[0]), self.1.get(&v[1]))
    }

    fn any_result(&self, v: &Vec<BlockingEvent>, n: usize) -> (r: Self::AnyResult) {
        if n == 0 {
            EventListResult::_0(self.0.get(&v[0]))
        } else if n == 1 {
            EventListResult::_1(self.1.get(&v[1]))
        } else {
            proof {
                assert(false);
            }
            vstd::pervasive::unreached()
        }
    }
}

/// A tuple of three events, each with its own value type.
impl<A: Event, B: Event, C: Event> EventList for (A, B, C) {
    type AllResult = (A::Val, B::Val, C::Val);

    type AnyResult = EventListResult<A::Val, B::Val, C::Val>;

    open spec fn descriptors_of(&self) -> Seq<BlockingEvent> {
        seq![self.0.descriptor_of(), self.1.descriptor_of(), self.2.descriptor_of()]
    }

    open spec fn all_result_is(&self, descs: Seq<BlockingEvent>, r: Self::AllResult) -> bool {
        r == (self.0.value_of(descs[0]), self.1.value_of(descs[1]), self.2.value_of(descs[2]))
    }

    open spec fn any_result_is(&self, descs: Seq<BlockingEvent>, n: int, r: Self::AnyResult) -> bool {
        if n == 0 {
            r == EventListResult::<A::Val, B::Val, C::Val>::_0(self.0.value_of(descs[0]))
        } else if n == 1 {
            r == EventListResult::<A::Val, B::Val, C::Val>::_1(self.1.value_of(descs[1]))
        } else if n == 2 {
            r == EventListResult::<A::Val, B::Val, C::Val>::_2(self.2.value_of(descs[2]))
        } else {
            false
        }
    }

    fn build_list(&self) -> (r: Vec<BlockingEvent>) {
        let mut out: Vec<BlockingEvent> = Vec::new();
        out.push(self.0.init());
        out.push(self.1.init());
        out.push(self.2.init());
        proof {
            assert(out@ =~= self.descriptors_of());
        }
        out
    }

    fn all_result(&self, v: &Vec<BlockingEvent>) -> (r: Self::AllResult) {
        (self.0.get(&v[0]), self.1.get(&v[1]), self.2.get(&v[2]))
    }

    fn any_result(&self, v: &Vec<BlockingEvent>, n: usize) -> (r: Self::AnyResult) {
        if n == 0 {
            EventListResult::_0(self.0.get(&v[0]))
        } else if n == 1 {
            EventListResult::_1(self.1.get(&v[1]))
        } else if n == 2 {
            EventListResult::_2(self.2.get(&v[2]))
        } else {
            proof {
                assert(false);
            }
            vstd::pervasive::unreached()
        }
    }
}

/// A tuple of four events, each with its own value type.
impl<A: Event, B: Event, C: Event, D: Event> EventList for (A, B, C, D) {
    type AllResult = (A::Val, B::Val, C::Val, D::Val);

    type AnyResult = EventListResult<A::Val, B::Val, C::Val, D::Val>;

    open spec fn descriptors_of(&self) -> Seq<BlockingEvent> {
        seq![self.0.descriptor_of(), self.1.descriptor_of(), self.2.descriptor_of(), self.3.descriptor_of()]
    }

    open spec fn all_result_is(&self, descs: Seq<BlockingEvent>, r: Self::AllResult) -> bool {
        r == (self.0.value_of(descs[0]), self.1.value_of(descs[1]), self.2.value_of(descs[2]), self.3.value_of(descs[3]))
    }

    open spec fn any_result_is(&self, descs: Seq<BlockingEvent>, n: int, r: Self::AnyResult) -> bool {
        if n == 0 {
            r == EventListResult::<A::Val, B::Val, C::Val, D::Val>::_0(self.0.value_of(descs[0]))
        } else if n == 1 {
            r == EventListResult::<A::Val, B::Val, C::Val, D::Val>::_1(self.1.value_of(descs[1]))
        } else if n == 2 {
            r == EventListResult::<A::Val, B::Val, C::Val, D::Val>::_2(self.2.value_of(descs[2]))
        } else if n == 3 {
            r == EventListResult::<A::Val, B::Val, C::Val, D::Val>::_3(self.3.value_of(descs[3]))
        } else {
            false
        }
    }

    fn build_list(&self) -> (r: Vec<BlockingEvent>) {
        let mut out: Vec<BlockingEvent> = Vec::new();
        out.push(self.0.init());
        out.push(self.1.init());
        out.push(self.2.init());
        out.push(self.3.init());
        proof {
            assert(out@ =~= self.descriptors_of());
        }
        out
    }

    fn all_result(&self, v: &Vec<BlockingEvent>) -> (r: Self::AllResult) {
        (self.0.get(&v[0]), self.1.get(&v[1]), self.2.get(&v[2]), self.3.get(&v[3]))
    }

    fn any_result(&self, v: &Vec<BlockingEvent>, n: usize) -> (r: Self::AnyResult) {
        if n == 0 {
            EventListResult::_0(self.0.get(&v[0]))
        } else if n == 1 {
            EventListResult::_1(self.1.get(&v[1]))
        } else if n == 2 {
            EventListResult::_2(self.2.get(&v[2]))
        } else if n == 3 {
            EventListResult::_3(self.3.get(&v[3]))
        } else {
            proof {
                assert(false);
            }
            vstd::pervasive::unreached()
        }
    }
}

/// A tuple of five events, each with its own value type.
impl<A: Event, B: Event, C: Event, D: Event, E: Event> EventList for (A, B, C, D, E) {
    type AllResult = (A::Val, B::Val, C::Val, D::Val, E::Val);

    type AnyResult = EventListResult<A::Val, B::Val, C::Val, D::Val, E::Val>;

    open spec fn descriptors_of(&self) -> Seq<BlockingEvent> {
        seq![self.0.descriptor_of(), self.1.descriptor_of(), self.2.descriptor_of(), self.3.descriptor_of(), self.4.descriptor_of()]
    }

    open spec fn all_result_is(&self, descs: Seq<BlockingEvent>, r: Self::AllResult) -> bool {
        r == (self.0.value_of(descs[0]), self.1.value_of(descs[1]), self.2.value_of(descs[2]), self.3.value_of(descs[3]), self.4.value_of(descs[4]))
    }

    open spec fn any_result_is(&self, descs: Seq<BlockingEvent>, n: int, r: Self::AnyResult) -> bool {
        if n == 0 {
            r == EventListResult::<A::Val, B::Val, C::Val, D::Val, E::Val>::_0(self.0.value_of(descs[0]))
        } else if n == 1 {
            r == EventListResult::<A::Val, B::Val, C::Val, D::Val, E::Val>::_1(self.1.value_of(descs[1]))
        } else if n == 2 {
            r == EventListResult::<A::Val, B::Val, C::Val, D::Val, E::Val>::_2(self.2.value_of(descs[2]))
        } else if n == 3 {
            r == EventListResult::<A::Val, B::Val, C::Val, D::Val, E::Val>::_3(self.3.value_of(descs[3]))
        } else if n == 4 {
            r == EventListResult::<A::Val, B::Val, C::Val, D::Val, E::Val>::_4(self.4.value_of(descs[4]))
        } else {
            false
        }
    }

    fn build_list(&self) -> (r: Vec<BlockingEvent>) {
        let mut out: Vec<BlockingEvent> = Vec::new();
        out.push(self.0.init());
        out.push(self.1.init());
        out.push(self.2.init());
        out.push(self.3.init());
        out.push(self.4.init());
        proof {
            assert(out@ =~= self.descriptors_of());
        }
        out
    }

    fn all_result(&self, v: &Vec<BlockingEvent>) -> (r: Self::AllResult) {
        (self.0.get(&v[0]), self.1.get(&v[1]), self.2.get(&v[2]), self.3.get(&v[3]), self.4.get(&v[4]))
    }

    fn any_result(&self, v: &Vec<BlockingEvent>, n: usize) -> (r: Self::AnyResult) {
        if n == 0 {
            EventListResult::_0(self.0.get(&v[0]))
        } else if n == 1 {
            EventListResult::_1(self.1.get(&v[1]))
        } else if n == 2 {
            EventListResult::_2(self.2.get(&v[2]))
        } else if n == 3 {
            EventListResult::_3(self.3.get(&v[3]))
        } else if n == 4 {
            EventListResult::_4(self.4.get(&v[4]))
        } else {
            proof {
                assert(false);
            }
            vstd::pervasive::unreached()
        }
    }
}

/// A tuple of six events, each with its own value type.
impl<A: Event, B: Event, C: Event, D: Event, E: Event, F: Event> EventList for (A, B, C, D, E, F) {
    type AllResult = (A::Val, B::Val, C::Val, D::Val, E::Val, F::Val);

    type AnyResult = EventListResult<A::Val, B::Val, C::Val, D::Val, E::Val, F::Val>;

    open spec fn descriptors_of(&self) -> Seq<BlockingEvent> {
        seq![self.0.descriptor_of(), self.1.descriptor_of(), self.2.descriptor_of(), self.3.descriptor_of(), self.4.descriptor_of(), self.5.descriptor_of()]
    }

    open spec fn all_result_is(&self, descs: Seq<BlockingEvent>, r: Self::AllResult) -> bool {
        r == (self.0.value_of(descs[0]), self.1.value_of(descs[1]), self.2.value_of(descs[2]), self.3.value_of(descs[3]), self.4.value_of(descs[4]), self.5.value_of(descs[5]))
    }

    open spec fn any_result_is(&self, descs: Seq<BlockingEvent>, n: int, r: Self::AnyResult) -> bool {
        if n == 0 {
            r == EventListResult::<A::Val, B::Val, C::Val, D::Val, E::Val, F::Val>::_0(self.0.value_of(descs[0]))
        } else if n == 1 {
            r == EventListResult::<A::Val, B::Val, C::Val, D::Val, E::Val, F::Val>::_1(self.1.value_of(descs[1]))
        } else if n == 2 {
            r == EventListResult::<A::Val, B::Val, C::Val, D::Val, E::Val, F::Val>::_2(self.2.value_of(descs[2]))
        } else if n == 3 {
            r == EventListResult::<A::Val, B::Val, C::Val, D::Val, E::Val, F::Val>::_3(self.3.value_of(descs[3]))
        } else if n == 4 {
            r == EventListResult::<A::Val, B::Val, C::Val, D::Val, E::Val, F::Val>::_4(self.4.value_of(descs[4]))
        } else if n == 5 {
            r == EventListResult::<A::Val, B::Val, C::Val, D::Val, E::Val, F::Val>::_5(self.5.value_of(descs[5]))
        } else {
            false
        }
    }

    fn build_list(&self) -> (r: Vec<BlockingEvent>) {
        let mut out: Vec<BlockingEvent> = Vec::new();
        out.push(self.0.init());
        out.push(self.1.init());
        out.push(self.2.init());
        out.push(self.3.init());
        out.push(self.4.init());
        out.push(self.5.init());
        proof {
            assert(out@ =~= self.descriptors_of());
        }
        out
    }

    fn all_result(&self, v: &Vec<BlockingEvent>) -> (r: Self::AllResult) {
        (self.0.get(&v[0]), self.1.get(&v[1]), self.2.get(&v[2]), self.3.get(&v[3]), self.4.get(&v[4]), self.5.get(&v[5]))
    }

    fn any_result(&self, v: &Vec<BlockingEvent>, n: usize) -> (r: Self::AnyResult) {
        if n == 0 {
            EventListResult::_0(self.0.get(&v[0]))
        } else if n == 1 {
            EventListResult::_1(self.1.get(&v[1]))
        } else if n == 2 {
            EventListResult::_2(self.2.get(&v[2]))
        } else if n == 3 {
            EventListResult::_3(self.3.get(&v[3]))
        } else if n == 4 {
            EventListResult::_4(self.4.get(&v[4]))
        } else if n == 5 {
            EventListResult::_5(self.5.get(&v[5]))
        } else {
            proof {
                assert(false);
            }
            vstd::pervasive::unreached()
        }
    }
}

/// A tuple of seven events, each with its own value type.
impl<A: Event, B: Event, C: Event, D: Event, E: Event, F: Event, G: Event> EventList for (A, B, C, D, E, F, G) {
    type AllResult = (A::Val, B::Val, C::Val, D::Val, E::Val, F::Val, G::Val);

    type AnyResult = EventListResult<A::Val, B::Val, C::Val, D::Val, E::Val, F::Val, G::Val>;

    open spec fn descriptors_of(&self) -> Seq<BlockingEvent> {
        seq![self.0.descriptor_of(), self.1.descriptor_of(), self.2.descriptor_of(), self.3.descriptor_of(), self.4.descriptor_of(), self.5.descriptor_of(), self.6.descriptor_of()]
    }

    open spec fn all_result_is(&self, descs: Seq<BlockingEvent>, r: Self::AllResult) -> bool {
        r == (self.0.value_of(descs[0]), self.1.value_of(descs[1]), self.2.value_of(descs[2]), self.3.value_of(descs[3]), self.4.value_of(descs[4]), self.5.value_of(descs[5]), self.6.value_of(descs[6]))
    }

    open spec fn any_result_is(&self, descs: Seq<BlockingEvent>, n: int, r: Self::AnyResult) -> bool {
        if n == 0 {
            r == EventListResult::<A::Val, B::Val, C::Val, D::Val, E::Val, F::Val, G::Val>::_0(self.0.value_of(descs[0]))
        } else if n == 1 {
            r == EventListResult::<A::Val, B::Val, C::Val, D::Val, E::Val, F::Val, G::Val>::_1(self.1.value_of(descs[1]))
        } else if n == 2 {
            r == EventListResult::<A::Val, B::Val, C::Val, D::Val, E::Val, F::Val, G::Val>::_2(self.2.value_of(descs[2]))
        } else if n == 3 {
            r == EventListResult::<A::Val, B::Val, C::Val, D::Val, E::Val, F::Val, G::Val>::_3(self.3.value_of(descs[3]))
        } else if n == 4 {
            r == EventListResult::<A::Val, B::Val, C::Val, D::Val, E::Val, F::Val, G::Val>::_4(self.4.value_of(descs[4]))
        } else if n == 5 {
            r == EventListResult::<A::Val, B::Val, C::Val, D::Val, E::Val, F::Val, G::Val>::_5(self.5.value_of(descs[5]))
        } else if n == 6 {
            r == EventListResult::<A::Val, B::Val, C::Val, D::Val, E::Val, F::Val, G::Val>::_6(self.6.value_of(descs[6]))
        } else {
            false
        }
    }

    fn build_list(&self) -> (r: Vec<BlockingEvent>) {
        let mut out: Vec<BlockingEvent> = Vec::new();
        out.push(self.0.init());
        out.push(self.1.init());
        out.push(self.2.init());
        out.push(self.3.init());
        out.push(self.4.init());
        out.push(self.5.init());
        out.push(self.6.init());
        proof {
            assert(out@ =~= self.descriptors_of());
        }
        out
    }

    fn all_result(&self, v: &Vec<BlockingEvent>) -> (r: Self::AllResult) {
        (self.0.get(&v[0]), self.1.get(&v[1]), self.2.get(&v[2]), self.3.get(&v[3]), self.4.get(&v[4]), self.5.get(&v[5]), self.6.get(&v[6]))
    }

    fn any_result(&self, v: &Vec<BlockingEvent>, n: usize) -> (r: Self::AnyResult) {
        if n == 0 {
            EventListResult::_0(self.0.get(&v[0]))
        } else if n == 1 {
            EventListResult::_1(self.1.get(&v[1]))
        } else if n == 2 {
            EventListResult::_2(self.2.get(&v[2]))
        } else if n == 3 {
            EventListResult::_3(self.3.get(&v[3]))
        } else if n == 4 {
            EventListResult::_4(self.4.get(&v[4]))
        } else if n == 5 {
            EventListResult::_5(self.5.get(&v[5]))
        } else if n == 6 {
            EventListResult::_6(self.6.get(&v[6]))
        } else {
            proof {
                assert(false);
            }
            vstd::pervasive::unreached()
        }
    }
}

/// A tuple of eight events, each with its own value type.
impl<A: Event, B: Event, C: Event, D: Event, E: Event, F: Event, G: Event, H: Event> EventList for (A, B, C, D, E, F, G, H) {
    type AllResult = (A::Val, B::Val, C::Val, D::Val, E::Val, F::Val, G::Val, H::Val);

    type AnyResult = EventListResult<A::Val, B::Val, C::Val, D::Val, E::Val, F::Val, G::Val, H::Val>;

    open spec fn descriptors_of(&self) -> Seq<BlockingEvent> {
        seq![self.0.descriptor_of(), self.1.descriptor_of(), self.2.descriptor_of(), self.3.descriptor_of(), self.4.descriptor_of(), self.5.descriptor_of(), self.6.descriptor_of(), self.7.descriptor_of()]
    }

    open spec fn all_result_is(&self, descs: Seq<BlockingEvent>, r: Self::AllResult) -> bool {
        r == (self.0.value_of(descs[0]), self.1.value_of(descs[1]), self.2.value_of(descs[2]), self.3.value_of(descs[3]), self.4.value_of(descs[4]), self.5.value_of(descs[5]), self.6.value_of(descs[6]), self.7.value_of(descs[7]))
    }

    open spec fn any_result_is(&self, descs: Seq<BlockingEvent>, n: int, r: Self::AnyResult) -> bool {
        if n == 0 {
            r == EventListResult::<A::Val, B::Val, C::Val, D::Val, E::Val, F::Val, G::Val, H::Val>::_0(self.0.value_of(descs[0]))
        } else if n == 1 {
            r == EventListResult::<A::Val, B::Val, C::Val, D::Val, E::Val, F::Val, G::Val, H::Val>::_1(self.1.value_of(descs[1]))
        } else if n == 2 {
            r == EventListResult::<A::Val, B::Val, C::Val, D::Val, E::Val, F::Val, G::Val, H::Val>::_2(self.2.value_of(descs[2]))
        } else if n == 3 {
            r == EventListResult::<A::Val, B::Val, C::Val, D::Val, E::Val, F::Val, G::Val, H::Val>::_3(self.3.value_of(descs[3]))
        } else if n == 4 {
            r == EventListResult::<A::Val, B::Val, C::Val, D::Val, E::Val, F::Val, G::Val, H::Val>::_4(self.4.value_of(descs[4]))
        } else if n == 5 {
            r == EventListResult::<A::Val, B::Val, C::Val, D::Val, E::Val, F::Val, G::Val, H::Val>::_5(self.5.value_of(descs[5]))
        } else if n == 6 {
            r == EventListResult::<A::Val, B::Val, C::Val, D::Val, E::Val, F::Val, G::Val, H::Val>::_6(self.6.value_of(descs[6]))
        } else if n == 7 {
            r == EventListResult::<A::Val, B::Val, C::Val, D::Val, E::Val, F::Val, G::Val, H::Val>::_7(self.7.value_of(descs[7]))
        } else {
            false
        }
    }

    fn build_list(&self) -> (r: Vec<BlockingEvent>) {
        let mut out: Vec<BlockingEvent> = Vec::new();
        out.push(self.0.init());
        out.push(self.1.init());
        out.push(self.2.init());
        out.push(self.3.init());
        out.push(self.4.init());
        out.push(self.5.init());
        out.push(self.6.init());
        out.push(self.7.init());
        proof {
            assert(out@ =~= self.descriptors_of());
        }
        out
    }

    fn all_result(&self, v: &Vec<BlockingEvent>) -> (r: Self::AllResult) {
        (self.0.get(&v[0]), self.1.get(&v[1]), self.2.get(&v[2]), self.3.get(&v[3]), self.4.get(&v[4]), self.5.get(&v[5]), self.6.get(&v[6]), self.7.get(&v[7]))
    }

    fn any_result(&self, v: &Vec<BlockingEvent>, n: usize) -> (r: Self::AnyResult) {
        if n == 0 {
            EventListResult::_0(self.0.get(&v[0]))
        } else if n == 1 {
            EventListResult::_1(self.1.get(&v[1]))
        } else if n == 2 {
            EventListResult::_2(self.2.get(&v[2]))
        } else if n == 3 {
            EventListResult::_3(self.3.get(&v[3]))
        } else if n == 4 {
            EventListResult::_4(self.4.get(&v[4]))
        } else if n == 5 {
            EventListResult::_5(self.5.get(&v[5]))
        } else if n == 6 {
            EventListResult::_6(self.6.get(&v[6]))
        } else if n == 7 {
            EventListResult::_7(self.7.get(&v[7]))
        } else {
            proof {
                assert(false);
            }
            vstd::pervasive::unreached()
        }
    }
}

/// A tuple of nine events, each with its own value type.
impl<A: Event, B: Event, C: Event, D: Event, E: Event, F: Event, G: Event, H: Event, I: Event> EventList for (A, B, C, D, E, F, G, H, I) {
    type AllResult = (A::Val, B::Val, C::Val, D::Val, E::Val, F::Val, G::Val, H::Val, I::Val);

    type AnyResult = EventListResult<A::Val, B::Val, C::Val, D::Val, E::Val, F::Val, G::Val, H::Val, I::Val>;

    open spec fn descriptors_of(&self) -> Seq<BlockingEvent> {
        seq![self.0.descriptor_of(), self.1.descriptor_of(), self.2.descriptor_of(), self.3.descriptor_of(), self.4.descriptor_of(), self.5.descriptor_of(), self.6.descriptor_of(), self.7.descriptor_of(), self.8.descriptor_of()]
    }

    open spec fn all_result_is(&self, descs: Seq<BlockingEvent>, r: Self::AllResult) -> bool {
        r == (self.0.value_of(descs[0]), self.1.value_of(descs[1]), self.2.value_of(descs[2]), self.3.value_of(descs[3]), self.4.value_of(descs[4]), self.5.value_of(descs[5]), self.6.value_of(descs[6]), self.7.value_of(descs[7]), self.8.value_of(descs[8]))
    }

    open spec fn any_result_is(&self, descs: Seq<BlockingEvent>, n: int, r: Self::AnyResult) -> bool {
        if n == 0 {
            r == EventListResult::<A::Val, B::Val, C::Val, D::Val, E::Val, F::Val, G::Val, H::Val, I::Val>::_0(self.0.value_of(descs[0]))
        } else if n == 1 {
            r == EventListResult::<A::Val, B::Val, C::Val, D::Val, E::Val, F::Val, G::Val, H::Val, I::Val>::_1(self.1.value_of(descs[1]))
        } else if n == 2 {
            r == EventListResult::<A::Val, B::Val, C::Val, D::Val, E::Val, F::Val, G::Val, H::Val, I::Val>::_2(self.2.value_of(descs[2]))
        } else if n == 3 {
            r == EventListResult::<A::Val, B::Val, C::Val, D::Val, E::Val, F::Val, G::Val, H::Val, I::Val>::_3(self.3.value_of(descs[3]))
        } else if n == 4 {
            r == EventListResult::<A::Val, B::Val, C::Val, D::Val, E::Val, F::Val, G::Val, H::Val, I::Val>::_4(self.4.value_of(descs[4]))
        } else if n == 5 {
            r == EventListResult::<A::Val, B::Val, C::Val, D::Val, E::Val, F::Val, G::Val, H::Val, I::Val>::_5(self.5.value_of(descs[5]))
        } else if n == 6 {
            r == EventListResult::<A::Val, B::Val, C::Val, D::Val, E::Val, F::Val, G::Val, H::Val, I::Val>::_6(self.6.value_of(descs[6]))
        } else if n == 7 {
            r == EventListResult::<A::Val, B::Val, C::Val, D::Val, E::Val, F::Val, G::Val, H::Val, I::Val>::_7(self.7.value_of(descs[7]))
        } else if n == 8 {
            r == EventListResult::<A::Val, B::Val, C::Val, D::Val, E::Val, F::Val, G::Val, H::Val, I::Val>::_8(self.8.value_of(descs[8]))
        } else {
            false
        }
    }

    fn build_list(&self) -> (r: Vec<BlockingEvent>) {
        let mut out: Vec<BlockingEvent> = Vec::new();
        out.push(self.0.init());
        out.push(self.1.init());
        out.push(self.2.init());
        out.push(self.3.init());
        out.push(self.4.init());
        out.push(self.5.init());
        out.push(self.6.init());
        out.push(self.7.init());
        out.push(self.8.init());
        proof {
            assert(out@ =~= self.descriptors_of());
        }
        out
    }

    fn all_result(&self, v: &Vec<BlockingEvent>) -> (r: Self::AllResult) {
        (self.0.get(&v[0]), self.1.get(&v[1]), self.2.get(&v[2]), self.3.get(&v[3]), self.4.get(&v[4]), self.5.get(&v[5]), self.6.get(&v[6]), self.7.get(&v[7]), self.8.get(&v[8]))
    }

    fn any_result(&self, v: &Vec<BlockingEvent>, n: usize) -> (r: Self::AnyResult) {
        if n == 0 {
            EventListResult::_0(self.0.get(&v[0]))
        } else if n == 1 {
            EventListResult::_1(self.1.get(&v[1]))
        } else if n == 2 {
            EventListResult::_2(self.2.get(&v[2]))
        } else if n == 3 {
            EventListResult::_3(self.3.get(&v[3]))
        } else if n == 4 {
            EventListResult::_4(self.4.get(&v[4]))
        } else if n == 5 {
            EventListResult::_5(self.5.get(&v[5]))
        } else if n == 6 {
            EventListResult::_6(self.6.get(&v[6]))
        } else if n == 7 {
            EventListResult::_7(self.7.get(&v[7]))
        } else if n == 8 {
            EventListResult::_8(self.8.get(&v[8]))
        } else {
            proof {
                assert(false);
            }
            vstd::pervasive::unreached()
        }
    }
}

/// A tuple of ten events, each with its own value type.
impl<A: Event, B: Event, C: Event, D: Event, E: Event, F: Event, G: Event, H: Event, I: Event, J: Event> EventList for (A, B, C, D, E, F, G, H, I, J) {
    type AllResult = (A::Val, B::Val, C::Val, D::Val, E::Val, F::Val, G::Val, H::Val, I::Val, J::Val);

    type AnyResult = EventListResult<A::Val, B::Val, C::Val, D::Val, E::Val, F::Val, G::Val, H::Val, I::Val, J::Val>;

    open spec fn descriptors_of(&self) -> Seq<BlockingEvent> {
        seq![self.0.descriptor_of(), self.1.descriptor_of(), self.2.descriptor_of(), self.3.descriptor_of(), self.4.descriptor_of(), self.5.descriptor_of(), self.6.descriptor_of(), self.7.descriptor_of(), self.8.descriptor_of(), self.9.descriptor_of()]
    }

    open spec fn all_result_is(&self, descs: Seq<BlockingEvent>, r: Self::AllResult) -> bool {
        r == (self.0.value_of(descs[0]), self.1.value_of(descs[1]), self.2.value_of(descs[2]), self.3.value_of(descs[3]), self.4.value_of(descs[4]), self.5.value_of(descs[5]), self.6.value_of(descs[6]), self.7.value_of(descs[7]), self.8.value_of(descs[8]), self.9.value_of(descs[9]))
    }

    open spec fn any_result_is(&self, descs: Seq<BlockingEvent>, n: int, r: Self::AnyResult) -> bool {
        if n == 0 {
            r == EventListResult::<A::Val, B::Val, C::Val, D::Val, E::Val, F::Val, G::Val, H::Val, I::Val, J::Val>::_0(self.0.value_of(descs[0]))
        } else if n == 1 {
            r == EventListResult::<A::Val, B::Val, C::Val, D::Val, E::Val, F::Val, G::Val, H::Val, I::Val, J::Val>::_1(self.1.value_of(descs[1]))
        } else if n == 2 {
            r == EventListResult::<A::Val, B::Val, C::Val, D::Val, E::Val, F::Val, G::Val, H::Val, I::Val, J::Val>::_2(self.2.value_of(descs[2]))
        } else if n == 3 {
            r == EventListResult::<A::Val, B::Val, C::Val, D::Val, E::Val, F::Val, G::Val, H::Val, I::Val, J::Val>::_3(self.3.value_of(descs[3]))
        } else if n == 4 {
            r == EventListResult::<A::Val, B::Val, C::Val, D::Val, E::Val, F::Val, G::Val, H::Val, I::Val, J::Val>::_4(self.4.value_of(descs[4]))
        } else if n == 5 {
            r == EventListResult::<A::Val, B::Val, C::Val, D::Val, E::Val, F::Val, G::Val, H::Val, I::Val, J::Val>::_5(self.5.value_of(descs[5]))
        } else if n == 6 {
            r == EventListResult::<A::Val, B::Val, C::Val, D::Val, E::Val, F::Val, G::Val, H::Val, I::Val, J::Val>::_6(self.6.value_of(descs[6]))
        } else if n == 7 {
            r == EventListResult::<A::Val, B::Val, C::Val, D::Val, E::Val, F::Val, G::Val, H::Val, I::Val, J::Val>::_7(self.7.value_of(descs[7]))
        } else if n == 8 {
            r == EventListResult::<A::Val, B::Val, C::Val, D::Val, E::Val, F::Val, G::Val, H::Val, I::Val, J::Val>::_8(self.8.value_of(descs[8]))
        } else if n == 9 {
            r == EventListResult::<A::Val, B::Val, C::Val, D::Val, E::Val, F::Val, G::Val, H::Val, I::Val, J::Val>::_9(self.9.value_of(descs[9]))
        } else {
            false
        }
    }

    fn build_list(&self) -> (r: Vec<BlockingEvent>) {
        let mut out: Vec<BlockingEvent> = Vec::new();
        out.push(self.0.init());
        out.push(self.1.init());
        out.push(self.2.init());
        out.push(self.3.init());
        out.push(self.4.init());
        out.push(self.5.init());
        out.push(self.6.init());
        out.push(self.7.init());
        out.push(self.8.init());
        out.push(self.9.init());
        proof {
            assert(out@ =~= self.descriptors_of());
        }
        out
    }

    fn all_result(&self, v: &Vec<BlockingEvent>) -> (r: Self::AllResult) {
        (self.0.get(&v[0]), self.1.get(&v[1]), self.2.get(&v[2]), self.3.get(&v[3]), self.4.get(&v[4]), self.5.get(&v[5]), self.6.get(&v[6]), self.7.get(&v[7]), self.8.get(&v[8]), self.9.get(&v[9]))
    }

    fn any_result(&self, v: &Vec<BlockingEvent>, n: usize) -> (r: Self::AnyResult) {
        if n == 0 {
            EventListResult::_0(self.0.get(&v[0]))
        } else if n == 1 {
            EventListResult::_1(self.1.get(&v[1]))
        } else if n == 2 {
            EventListResult::_2(self.2.get(&v[2]))
        } else if n == 3 {
            EventListResult::_3(self.3.get(&v[3]))
        } else if n == 4 {
            EventListResult::_4(self.4.get(&v[4]))
        } else if n == 5 {
            EventListResult::_5(self.5.get(&v[5]))
        } else if n == 6 {
            EventListResult::_6(self.6.get(&v[6]))
        } else if n == 7 {
            EventListResult::_7(self.7.get(&v[7]))
        } else if n == 8 {
            EventListResult::_8(self.8.get(&v[8]))
        } else if n == 9 {
            EventListResult::_9(self.9.get(&v[9]))
        } else {
            proof {
                assert(false);
            }
            vstd::pervasive::unreached()
        }
    }
}

/// A tuple of eleven events, each with its own value type.
impl<A: Event, B: Event, C: Event, D: Event, E: Event, F: Event, G: Event, H: Event, I: Event, J: Event, K: Event> EventList for (A, B, C, D, E, F, G, H, I, J, K) {
    type AllResult = (A::Val, B::Val, C::Val, D::Val, E::Val, F::Val, G::Val, H::Val, I::Val, J::Val, K::Val);

    type AnyResult = EventListResult<A::Val, B::Val, C::Val, D::Val, E::Val, F::Val, G::Val, H::Val, I::Val, J::Val, K::Val>;

    open spec fn descriptors_of(&self) -> Seq<BlockingEvent> {
        seq![self.0.descriptor_of(), self.1.descriptor_of(), self.2.descriptor_of(), self.3.descriptor_of(), self.4.descriptor_of(), self.5.descriptor_of(), self.6.descriptor_of(), self.7.descriptor_of(), self.8.descriptor_of(), self.9.descriptor_of(), self.10.descriptor_of()]
    }

    open spec fn all_result_is(&self, descs: Seq<BlockingEvent>, r: Self::AllResult) -> bool {
        r == (self.0.value_of(descs[0]), self.1.value_of(descs[1]), self.2.value_of(descs[2]), self.3.value_of(descs[3]), self.4.value_of(descs[4]), self.5.value_of(descs[5]), self.6.value_of(descs[6]), self.7.value_of(descs[7]), self.8.value_of(descs[8]), self.9.value_of(descs[9]), self.10.value_of(descs[10]))
    }

    open spec fn any_result_is(&self, descs: Seq<BlockingEvent>, n: int, r: Self::AnyResult) -> bool {
        if n == 0 {
            r == EventListResult::<A::Val, B::Val, C::Val, D::Val, E::Val, F::Val, G::Val, H::Val, I::Val, J::Val, K::Val>::_0(self.0.value_of(descs[0]))
        } else if n == 1 {
            r == EventListResult::<A::Val, B::Val, C::Val, D::Val, E::Val, F::Val, G::Val, H::Val, I::Val, J::Val, K::Val>::_1(self.1.value_of(descs[1]))
        } else if n == 2 {
            r == EventListResult::<A::Val, B::Val, C::Val, D::Val, E::Val, F::Val, G::Val, H::Val, I::Val, J::Val, K::Val>::_2(self.2.value_of(descs[2]))
        } else if n == 3 {
            r == EventListResult::<A::Val, B::Val, C::Val, D::Val, E::Val, F::Val, G::Val, H::Val, I::Val, J::Val, K::Val>::_3(self.3.value_of(descs[3]))
        } else if n == 4 {
            r == EventListResult::<A::Val, B::Val, C::Val, D::Val, E::Val, F::Val, G::Val, H::Val, I::Val, J::Val, K::Val>::_4(self.4.value_of(descs[4]))
        } else if n == 5 {
            r == EventListResult::<A::Val, B::Val, C::Val, D::Val, E::Val, F::Val, G::Val, H::Val, I::Val, J::Val, K::Val>::_5(self.5.value_of(descs[5]))
        } else if n == 6 {
            r == EventListResult::<A::Val, B::Val, C::Val, D::Val, E::Val, F::Val, G::Val, H::Val, I::Val, J::Val, K::Val>::_6(self.6.value_of(descs[6]))
        } else if n == 7 {
            r == EventListResult::<A::Val, B::Val, C::Val, D::Val, E::Val, F::Val, G::Val, H::Val, I::Val, J::Val, K::Val>::_7(self.7.value_of(descs[7]))
        } else if n == 8 {
            r == EventListResult::<A::Val, B::Val, C::Val, D::Val, E::Val, F::Val, G::Val, H::Val, I::Val, J::Val, K::Val>::_8(self.8.value_of(descs[8]))
        } else if n == 9 {
            r == EventListResult::<A::Val, B::Val, C::Val, D::Val, E::Val, F::Val, G::Val, H::Val, I::Val, J::Val, K::Val>::_9(self.9.value_of(descs[9]))
        } else if n == 10 {
            r == EventListResult::<A::Val, B::Val, C::Val, D::Val, E::Val, F::Val, G::Val, H::Val, I::Val, J::Val, K::Val>::_10(self.10.value_of(descs[10]))
        } else {
            false
        }
    }

    fn build_list(&self) -> (r: Vec<BlockingEvent>) {
        let mut out: Vec<BlockingEvent> = Vec::new();
        out.push(self.0.init());
        out.push(self.1.init());
        out.push(self.2.init());
        out.push(self.3.init());
        out.push(self.4.init());
        out.push(self.5.init());
        out.push(self.6.init());
        out.push(self.7.init());
        out.push(self.8.init());
        out.push(self.9.init());
        out.push(self.10.init());
        proof {
            assert(out@ =~= self.descriptors_of());
        }
        out
    }

    fn all_result(&self, v: &Vec<BlockingEvent>) -> (r: Self::AllResult) {
        (self.0.get(&v[0]), self.1.get(&v[1]), self.2.get(&v[2]), self.3.get(&v[3]), self.4.get(&v[4]), self.5.get(&v[5]), self.6.get(&v[6]), self.7.get(&v[7]), self.8.get(&v[8]), self.9.get(&v[9]), self.10.get(&v[10]))
    }

    fn any_result(&self, v: &Vec<BlockingEvent>, n: usize) -> (r: Self::AnyResult) {
        if n == 0 {
            EventListResult::_0(self.0.get(&v[0]))
        } else if n == 1 {
            EventListResult::_1(self.1.get(&v[1]))
        } else if n == 2 {
            EventListResult::_2(self.2.get(&v[2]))
        } else if n == 3 {
            EventListResult::_3(self.3.get(&v[3]))
        } else if n == 4 {
            EventListResult::_4(self.4.get(&v[4]))
        } else if n == 5 {
            EventListResult::_5(self.5.get(&v[5]))
        } else if n == 6 {
            EventListResult::_6(self.6.get(&v[6]))
        } else if n == 7 {
            EventListResult::_7(self.7.get(&v[7]))
        } else if n == 8 {
            EventListResult::_8(self.8.get(&v[8]))
        } else if n == 9 {
            EventListResult::_9(self.9.get(&v[9]))
        } else if n == 10 {
            EventListResult::_10(self.10.get(&v[10]))
        } else {
            proof {
                assert(false);
            }
            vstd::pervasive::unreached()
        }
    }
}

/// A tuple of twelve events, each with its own value type.
impl<A: Event, B: Event, C: Event, D: Event, E: Event, F: Event, G: Event, H: Event, I: Event, J: Event, K: Event, L: Event> EventList for (A, B, C, D, E, F, G, H, I, J, K, L) {
    type AllResult = (A::Val, B::Val, C::Val, D::Val, E::Val, F::Val, G::Val, H::Val, I::Val, J::Val, K::Val, L::Val);

    type AnyResult = EventListResult<A::Val, B::Val, C::Val, D::Val, E::Val, F::Val, G::Val, H::Val, I::Val, J::Val, K::Val, L::Val>;

    open spec fn descriptors_of(&self) -> Seq<BlockingEvent> {
        seq![self.0.descriptor_of(), self.1.descriptor_of(), self.2.descriptor_of(), self.3.descriptor_of(), self.4.descriptor_of(), self.5.descriptor_of(), self.6.descriptor_of(), self.7.descriptor_of(), self.8.descriptor_of(), self.9.descriptor_of(), self.10.descriptor_of(), self.11.descriptor_of()]
    }

    open spec fn all_result_is(&self, descs: Seq<BlockingEvent>, r: Self::AllResult) -> bool {
        r == (self.0.value_of(descs[0]), self.1.value_of(descs[1]), self.2.value_of(descs[2]), self.3.value_of(descs[3]), self.4.value_of(descs[4]), self.5.value_of(descs[5]), self.6.value_of(descs[6]), self.7.value_of(descs[7]), self.8.value_of(descs[8]), self.9.value_of(descs[9]), self.10.value_of(descs[10]), self.11.value_of(descs[11]))
    }

    open spec fn any_result_is(&self, descs: Seq<BlockingEvent>, n: int, r: Self::AnyResult) -> bool {
        if n == 0 {
            r == EventListResult::<A::Val, B::Val, C::Val, D::Val, E::Val, F::Val, G::Val, H::Val, I::Val, J::Val, K::Val, L::Val>::_0(self.0.value_of(descs[0]))
        } else if n == 1 {
            r == EventListResult::<A::Val, B::Val, C::Val, D::Val, E::Val, F::Val, G::Val, H::Val, I::Val, J::Val, K::Val, L::Val>::_1(self.1.value_of(descs[1]))
        } else if n == 2 {
            r == EventListResult::<A::Val, B::Val, C::Val, D::Val, E::Val, F::Val, G::Val, H::Val, I::Val, J::Val, K::Val, L::Val>::_2(self.2.value_of(descs[2]))
        } else if n == 3 {
            r == EventListResult::<A::Val, B::Val, C::Val, D::Val, E::Val, F::Val, G::Val, H::Val, I::Val, J::Val, K::Val, L::Val>::_3(self.3.value_of(descs[3]))
        } else if n == 4 {
            r == EventListResult::<A::Val, B::Val, C::Val, D::Val, E::Val, F::Val, G::Val, H::Val, I::Val, J::Val, K::Val, L::Val>::_4(self.4.value_of(descs[4]))
        } else if n == 5 {
            r == EventListResult::<A::Val, B::Val, C::Val, D::Val, E::Val, F::Val, G::Val, H::Val, I::Val, J::Val, K::Val, L::Val>::_5(self.5.value_of(descs[5]))
        } else if n == 6 {
            r == EventListResult::<A::Val, B::Val, C::Val, D::Val, E::Val, F::Val, G::Val, H::Val, I::Val, J::Val, K::Val, L::Val>::_6(self.6.value_of(descs[6]))
        } else if n == 7 {
            r == EventListResult::<A::Val, B::Val, C::Val, D::Val, E::Val, F::Val, G::Val, H::Val, I::Val, J::Val, K::Val, L::Val>::_7(self.7.value_of(descs[7]))
        } else if n == 8 {
            r == EventListResult::<A::Val, B::Val, C::Val, D::Val, E::Val, F::Val, G::Val, H::Val, I::Val, J::Val, K::Val, L::Val>::_8(self.8.value_of(descs[8]))
        } else if n == 9 {
            r == EventListResult::<A::Val, B::Val, C::Val, D::Val, E::Val, F::Val, G::Val, H::Val, I::Val, J::Val, K::Val, L::Val>::_9(self.9.value_of(descs[9]))
        } else if n == 10 {
            r == EventListResult::<A::Val, B::Val, C::Val, D::Val, E::Val, F::Val, G::Val, H::Val, I::Val, J::Val, K::Val, L::Val>::_10(self.10.value_of(descs[10]))
        } else if n == 11 {
            r == EventListResult::<A::Val, B::Val, C::Val, D::Val, E::Val, F::Val, G::Val, H::Val, I::Val, J::Val, K::Val, L::Val>::_11(self.11.value_of(descs[11]))
        } else {
            false
        }
    }

    fn build_list(&self) -> (r: Vec<BlockingEvent>) {
        let mut out: Vec<BlockingEvent> = Vec::new();
        out.push(self.0.init());
        out.push(self.1.init());
        out.push(self.2.init());
        out.push(self.3.init());
        out.push(self.4.init());
        out.push(self.5.init());
        out.push(self.6.init());
        out.push(self.7.init());
        out.push(self.8.init());
        out.push(self.9.init());
        out.push(self.10.init());
        out.push(self.11.init());
        proof {
            assert(out@ =~= self.descriptors_of());
        }
        out
    }

    fn all_result(&self, v: &Vec<BlockingEvent>) -> (r: Self::AllResult) {
        (self.0.get(&v[0]), self.1.get(&v[1]), self.2.get(&v[2]), self.3.get(&v[3]), self.4.get(&v[4]), self.5.get(&v[5]), self.6.get(&v[6]), self.7.get(&v[7]), self.8.get(&v[8]), self.9.get(&v[9]), self.10.get(&v[10]), self.11.get(&v[11]))
    }

    fn any_result(&self, v: &Vec<BlockingEvent>, n: usize) -> (r: Self::AnyResult) {
        if n == 0 {
            EventListResult::_0(self.0.get(&v[0]))
        } else if n == 1 {
            EventListResult::_1(self.1.get(&v[1]))
        } else if n == 2 {
            EventListResult::_2(self.2.get(&v[2]))
        } else if n == 3 {
            EventListResult::_3(self.3.get(&v[3]))
        } else if n == 4 {
            EventListResult::_4(self.4.get(&v[4]))
        } else if n == 5 {
            EventListResult::_5(self.5.get(&v[5]))
        } else if n == 6 {
            EventListResult::_6(self.6.get(&v[6]))
        } else if n == 7 {
            EventListResult::_7(self.7.get(&v[7]))
        } else if n == 8 {
            EventListResult::_8(self.8.get(&v[8]))
        } else if n == 9 {
            EventListResult::_9(self.9.get(&v[9]))
        } else if n == 10 {
            EventListResult::_10(self.10.get(&v[10]))
        } else if n == 11 {
            EventListResult::_11(self.11.get(&v[11]))
        } else {
            proof {
                assert(false);
            }
            vstd::pervasive::unreached()
        }
    }
}

} // verus!
