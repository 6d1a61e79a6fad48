//! The resource-safety and equivalence laws of the elementwise operations,
//! stated over the components' views and proved from their invariants.
use vstd::prelude::*;

use crate::consume::Consumer;
use crate::driver::ZipDriver;
use crate::iter::Slice;

verus! {

/// Law: a well-formed buffer holds a value in exactly the slots of its live
/// range, and the value of the live slot at offset `i - alive_start` is the
/// `i`-th entry of the live sequence. So abandoning the buffer at any moment
/// releases every live value exactly once, in slot order, and touches no
/// other slot.
pub proof fn lemma_buffer_releases_exactly_alive<T>(buffer: Slice<T>)
    requires
        buffer.wf(),
    ensures
        forall|i: int|
            0 <= i < buffer.capacity() ==> ((#[trigger] buffer.slots()[i]) is Some
                <==> buffer.alive_start() <= i < buffer.alive_end()),
        forall|i: int|
            buffer.alive_start() <= i < buffer.alive_end() ==> buffer.slots()[i] == Some(
                buffer.alive()[i - buffer.alive_start()],
            ),
{
}

/// Law: a well-formed consumer holds a value in exactly the slots its cursor
/// has not passed, each value an entry of the remaining sequence. So
/// abandoning the consumer releases exactly the values not yet consumed, each
/// once, and never a slot whose value was handed out.
pub proof fn lemma_consumer_releases_exactly_remaining<T>(consumer: Consumer<T>)
    requires
        consumer.wf(),
    ensures
        forall|i: int|
            0 <= i < consumer.capacity() ==> ((#[trigger] consumer.slots()[i]) is Some
                <==> consumer.cursor() <= i),
        forall|i: int|
            consumer.cursor() <= i < consumer.capacity() ==> consumer.slots()[i] == Some(
                consumer.remaining()[i - consumer.cursor()],
            ),
{
}

/// Law: between steps, after `k` completed steps, the live values of a
/// well-formed driver are exactly the inputs at indices `[k, n)` on both
/// sides and the outputs at indices `[0, k)`. Abandonment at that point
/// releases exactly those, each once.
pub proof fn lemma_abandonment_releases_exactly_live<T, U, O>(driver: ZipDriver<T, U, O>)
    requires
        driver.wf(),
    ensures
        forall|i: int|
            0 <= i < driver.n() ==> ((#[trigger] driver.lhs_state().slots()[i]) is Some
                <==> driver.step_index() <= i),
        forall|i: int|
            0 <= i < driver.n() ==> ((#[trigger] driver.rhs_state().slots()[i]) is Some
                <==> driver.step_index() <= i),
        forall|i: int|
            0 <= i < driver.n() ==> ((#[trigger] driver.out_state().slots()[i]) is Some <==> i
                < driver.step_index()),
{
}

/// Law: at the moment the combining call of step `k` runs — both inputs of
/// the step moved out of their slots into the call, the output of the step
/// not yet produced — the live slots are exactly the inputs at `[k + 1, n)`
/// and the outputs at `[0, k)`. So if the call terminates abnormally, the
/// step's own inputs are released by the call that owns them, not by the
/// driver; the step's output slot, never written, is not touched; and every
/// other element is released exactly once.
pub proof fn lemma_in_flight_abandonment_releases_exactly_live<T, U, O>(
    lhs: Consumer<T>,
    rhs: Consumer<U>,
    out: Slice<O>,
    k: int,
)
    requires
        lhs.wf(),
        rhs.wf(),
        out.wf(),
        lhs.capacity() == out.capacity(),
        rhs.capacity() == out.capacity(),
        lhs.cursor() == k + 1,
        rhs.cursor() == k + 1,
        out.alive_start() == 0,
        out.alive_end() == k,
    ensures
        forall|i: int|
            0 <= i < out.capacity() ==> ((#[trigger] lhs.slots()[i]) is Some <==> k + 1 <= i),
        forall|i: int|
            0 <= i < out.capacity() ==> ((#[trigger] rhs.slots()[i]) is Some <==> k + 1 <= i),
        forall|i: int|
            0 <= i < out.capacity() ==> ((#[trigger] out.slots()[i]) is Some <==> 0 <= i < k),
{
}

/// Law: an operation that completed all of its steps left no live value in
/// either input — every input element was consumed into exactly one combining
/// call — and produced exactly one output value per index, all of which the
/// fully populated output buffer owns.
pub proof fn lemma_normal_completion_releases_nothing<T, U, O>(driver: ZipDriver<T, U, O>)
    requires
        driver.wf(),
        driver.step_index() == driver.n(),
    ensures
        driver.lhs_remaining() == Seq::<T>::empty(),
        driver.rhs_remaining() == Seq::<U>::empty(),
        driver.produced().len() == driver.n(),
        forall|i: int| 0 <= i < driver.n() ==> (#[trigger] driver.lhs_state().slots()[i]) is None,
        forall|i: int| 0 <= i < driver.n() ==> (#[trigger] driver.rhs_state().slots()[i]) is None,
        forall|i: int| 0 <= i < driver.n() ==> (#[trigger] driver.out_state().slots()[i]) is Some,
{
    assert(driver.lhs_remaining() =~= Seq::<T>::empty());
    assert(driver.rhs_remaining() =~= Seq::<U>::empty());
}

/// Law: the elementwise operation computes exactly the combining function.
/// For a combining function whose contract pins its result to a mathematical
/// function `f`, any output meeting the operation's contract holds
/// `f(lhs[i], rhs[i])` at every index `i`.
pub proof fn lemma_zip_map_computes<T, U, O, F: Fn(T, U) -> O>(
    op: F,
    f: spec_fn(T, U) -> O,
    lhs: Seq<T>,
    rhs: Seq<U>,
    out: Seq<O>,
)
    requires
        lhs.len() == rhs.len(),
        out.len() == lhs.len(),
        forall|i: int| 0 <= i < lhs.len() ==> call_ensures(op, (lhs[i], rhs[i]), #[trigger] out[i]),
        forall|x: T, y: U, r: O| #[trigger] call_ensures(op, (x, y), r) ==> r == f(x, y),
    ensures
        out == Seq::new(lhs.len(), |i: int| f(lhs[i], rhs[i])),
{
    assert(out =~= Seq::new(lhs.len(), |i: int| f(lhs[i], rhs[i])));
}

/// Law: the in-place elementwise operation computes exactly the combining
/// function. For a combining function whose contract pins its result to a
/// mathematical function `f`, a left-hand sequence meeting the in-place
/// operation's contract holds `f(lhs[i], rhs[i])` at every index `i` after
/// the call, where `lhs` is its value before the call.
pub proof fn lemma_zip_mut_map_computes<T, U, F: Fn(T, U) -> T>(
    op: F,
    f: spec_fn(T, U) -> T,
    lhs: Seq<T>,
    rhs: Seq<U>,
    updated: Seq<T>,
)
    requires
        lhs.len() == rhs.len(),
        updated.len() == lhs.len(),
        forall|i: int|
            0 <= i < lhs.len() ==> call_ensures(op, (lhs[i], rhs[i]), #[trigger] updated[i]),
        forall|x: T, y: U, r: T| #[trigger] call_ensures(op, (x, y), r) ==> r == f(x, y),
    ensures
        updated == Seq::new(lhs.len(), |i: int| f(lhs[i], rhs[i])),
{
    assert(updated =~= Seq::new(lhs.len(), |i: int| f(lhs[i], rhs[i])));
}

/// Law: the untracked and tracked paths are indistinguishable. For a
/// combining function whose contract admits exactly one result per input
/// pair, any two outputs that meet the elementwise operation's contract on
/// the same inputs — in particular, one from each path — are equal.
pub proof fn lemma_paths_agree<T, U, O, F: Fn(T, U) -> O>(
    op: F,
    lhs: Seq<T>,
    rhs: Seq<U>,
    out_a: Seq<O>,
    out_b: Seq<O>,
)
    requires
        lhs.len() == rhs.len(),
        out_a.len() == lhs.len(),
        out_b.len() == lhs.len(),
        forall|i: int| 0 <= i < lhs.len() ==> call_ensures(op, (lhs[i], rhs[i]), #[trigger] out_a[i]),
        forall|i: int| 0 <= i < lhs.len() ==> call_ensures(op, (lhs[i], rhs[i]), #[trigger] out_b[i]),
        forall|x: T, y: U, r1: O, r2: O|
            #![trigger call_ensures(op, (x, y), r1), call_ensures(op, (x, y), r2)]
            call_ensures(op, (x, y), r1) && call_ensures(op, (x, y), r2) ==> r1 == r2,
    ensures
        out_a == out_b,
{
    assert(out_a =~= out_b);
}

} // verus!
