//! The elementwise binary operation producing a new sequence, and its two
//! execution paths: a tracked path that keeps the finalization bookkeeping of
//! the driver, and an untracked path with no bookkeeping at all, used only
//! when no element type needs finalization. Both paths meet one contract.
use vstd::prelude::*;

use crate::driver::ZipDriver;
use crate::needs_finalizer;
use crate::Array;

verus! {

impl<T> Array<T> {
    /// Combines this sequence elementwise with `rhs`: the result holds
    /// `op(self[i], rhs[i])` at each index `i`. `op` is applied to the pair
    /// at each index exactly once, in increasing index order; if it
    /// terminates abnormally at some index, every element not consumed into
    /// a call of `op` and every output already produced is released exactly
    /// once while this call unwinds, and nothing is returned.
    pub fn zip_map<U, O, F: Fn(T, U) -> O>(self, rhs: Vec<U>, op: F) -> (out: Vec<O>)
        requires
            self@.len() == rhs@.len(),
            forall|i: int| 0 <= i < self@.len() ==> call_requires(op, (self@[i], rhs@[i])),
        ensures
            out@.len() == self@.len(),
            forall|i: int|
                0 <= i < out@.len() ==> call_ensures(op, (self@[i], rhs@[i]), #[trigger] out@[i]),
    {
        if needs_finalizer::<T>() || needs_finalizer::<U>() || needs_finalizer::<O>() {
            zip_map_tracked(self.0, rhs, op)
        } else {
            zip_map_untracked(self.0, rhs, op)
        }
    }
}

/// The tracked path: both inputs and the output live behind the driver's
/// consume and produce bookkeeping, so a combining call that terminates
/// abnormally leaves exactly the live elements to be released, each once.
pub fn zip_map_tracked<T, U, O, F: Fn(T, U) -> O>(lhs: Vec<T>, rhs: Vec<U>, op: F) -> (out: Vec<
    O,
>)
    requires
        lhs@.len() == rhs@.len(),
        forall|i: int| 0 <= i < lhs@.len() ==> call_requires(op, (lhs@[i], rhs@[i])),
    ensures
        out@.len() == lhs@.len(),
        forall|i: int|
            0 <= i < out@.len() ==> call_ensures(op, (lhs@[i], rhs@[i]), #[trigger] out@[i]),
{
    let ghost lhs0 = lhs@;
    let ghost rhs0 = rhs@;
    let n = lhs.len();
    let mut driver: ZipDriver<T, U, O> = ZipDriver::new(lhs, rhs);
    let mut i: usize = 0;
    while i < n
        invariant
            driver.wf(),
            driver.n() == n,
            i <= n,
            driver.step_index() == i,
            lhs0.len() == n,
            rhs0.len() == n,
            driver.lhs_remaining() == lhs0.skip(i as int),
            driver.rhs_remaining() == rhs0.skip(i as int),
            driver.produced().len() == i,
            forall|j: int|
                0 <= j < i ==> call_ensures(op, (lhs0[j], rhs0[j]), #[trigger] driver.produced()[j]),
            forall|j: int| 0 <= j < n ==> call_requires(op, (lhs0[j], rhs0[j])),
        decreases n - i,
    {
        proof {
            assert(driver.lhs_remaining()[0] == lhs0[i as int]);
            assert(driver.rhs_remaining()[0] == rhs0[i as int]);
        }
        driver.step(&op);
        i = i + 1;
        proof {
            assert(driver.lhs_remaining() =~= lhs0.skip(i as int));
            assert(driver.rhs_remaining() =~= rhs0.skip(i as int));
        }
    }
    driver.into_output()
}

/// The untracked path: no finalization bookkeeping at all — each step moves
/// one value out of the front of each input and appends the result. Only
/// element types that need no finalization take this path, so there is
/// nothing a bookkeeping would have to release.
pub fn zip_map_untracked<T, U, O, F: Fn(T, U) -> O>(lhs: Vec<T>, rhs: Vec<U>, op: F) -> (out: Vec<
    O,
>)
    requires
        lhs@.len() == rhs@.len(),
        forall|i: int| 0 <= i < lhs@.len() ==> call_requires(op, (lhs@[i], rhs@[i])),
    ensures
        out@.len() == lhs@.len(),
        forall|i: int|
            0 <= i < out@.len() ==> call_ensures(op, (lhs@[i], rhs@[i]), #[trigger] out@[i]),
{
    let ghost lhs0 = lhs@;
    let ghost rhs0 = rhs@;
    let n = lhs.len();
    let mut lhs = lhs;
    let mut rhs = rhs;
    let mut out: Vec<O> = Vec::new();
    while out.len() < n
        invariant
            out@.len() <= n,
            lhs0.len() == n,
            rhs0.len() == n,
            lhs@ == lhs0.skip(out@.len() as int),
            rhs@ == rhs0.skip(out@.len() as int),
            forall|j: int|
                0 <= j < out@.len() ==> call_ensures(op, (lhs0[j], rhs0[j]), #[trigger] out@[j]),
            forall|j: int| 0 <= j < n ==> call_requires(op, (lhs0[j], rhs0[j])),
        decreases n - out@.len(),
    {
        let left = lhs.remove(0);
        let right = rhs.remove(0);
        out.push(op(left, right));
        proof {
            assert(lhs@ =~= lhs0.skip(out@.len() as int));
            assert(rhs@ =~= rhs0.skip(out@.len() as int));
        }
    }
    out
}

} // verus!
