//! The paired consumer/producer driver: one consuming cursor per input, one
//! partial-initialization buffer for the output, advanced one step at a time.
//!
//! The three pieces of bookkeeping stay aligned on a shared step index. A
//! step moves both input values for the current index out of their slots
//! before the combining call, and writes the output slot only after the call
//! returns; so if the call terminates abnormally, the in-flight inputs are
//! owned by the call alone, the in-flight output slot is uninitialized, and
//! dropping the driver releases exactly the inputs not yet consumed and the
//! outputs already produced, each once.
use vstd::prelude::*;

use crate::consume::Consumer;
use crate::iter::Slice;

verus! {

/// Owns both inputs of one elementwise operation and the partially produced
/// output. After `k` steps, the live values are exactly the inputs at indices
/// `[k, n)` and the outputs at indices `[0, k)`.
pub struct ZipDriver<T, U, O> {
    lhs: Consumer<T>,
    rhs: Consumer<U>,
    out: Slice<O>,
}

impl<T, U, O> ZipDriver<T, U, O> {
    /// The length shared by both inputs and the output.
    pub open spec fn n(self) -> int {
        self.out_state().capacity()
    }

    /// How many steps have completed.
    pub open spec fn step_index(self) -> int {
        self.out_state().alive_end()
    }

    /// The left-hand consumer's state.
    pub closed spec fn lhs_state(self) -> Consumer<T> {
        self.lhs
    }

    /// The right-hand consumer's state.
    pub closed spec fn rhs_state(self) -> Consumer<U> {
        self.rhs
    }

    /// The output buffer's state.
    pub closed spec fn out_state(self) -> Slice<O> {
        self.out
    }

    /// Left-hand values not yet consumed.
    pub open spec fn lhs_remaining(self) -> Seq<T> {
        self.lhs_state().remaining()
    }

    /// Right-hand values not yet consumed.
    pub open spec fn rhs_remaining(self) -> Seq<U> {
        self.rhs_state().remaining()
    }

    /// Output values produced so far.
    pub open spec fn produced(self) -> Seq<O> {
        self.out_state().alive()
    }

    /// The driver's invariant: each part is well formed, all three have the
    /// same capacity, and both cursors and the output's produced count agree
    /// on one shared step index.
    pub open spec fn wf(self) -> bool {
        &&& self.lhs_state().wf()
        &&& self.rhs_state().wf()
        &&& self.out_state().wf()
        &&& self.lhs_state().capacity() == self.n()
        &&& self.rhs_state().capacity() == self.n()
        &&& self.lhs_state().cursor() == self.step_index()
        &&& self.rhs_state().cursor() == self.step_index()
        &&& self.out_state().alive_start() == 0
    }

    /// Takes ownership of both inputs; no step has run, no output exists.
    pub fn new(lhs: Vec<T>, rhs: Vec<U>) -> (driver: Self)
        requires
            lhs@.len() == rhs@.len(),
        ensures
            driver.wf(),
            driver.n() == lhs@.len(),
            driver.step_index() == 0,
            driver.lhs_remaining() == lhs@,
            driver.rhs_remaining() == rhs@,
            driver.produced() == Seq::<O>::empty(),
    {
        let n = lhs.len();
        ZipDriver { lhs: Consumer::new(lhs), rhs: Consumer::new(rhs), out: Slice::new(n) }
    }

    /// Runs one step: consumes the input value at the current step index from
    /// each side, applies `combine` to the pair, and produces the result at
    /// the same index of the output, advancing the shared index by one.
    pub fn step<F: Fn(T, U) -> O>(&mut self, combine: &F)
        requires
            old(self).wf(),
            old(self).step_index() < old(self).n(),
            call_requires(*combine, (old(self).lhs_remaining()[0], old(self).rhs_remaining()[0])),
        ensures
            final(self).wf(),
            final(self).n() == old(self).n(),
            final(self).step_index() == old(self).step_index() + 1,
            final(self).lhs_remaining() == old(self).lhs_remaining().skip(1),
            final(self).rhs_remaining() == old(self).rhs_remaining().skip(1),
            final(self).produced().len() == old(self).produced().len() + 1,
            final(self).produced() == old(self).produced().push(final(self).produced().last()),
            call_ensures(
                *combine,
                (old(self).lhs_remaining()[0], old(self).rhs_remaining()[0]),
                final(self).produced().last(),
            ),
    {
        let left = self.lhs.consume_next();
        let right = self.rhs.consume_next();
        let result = combine(left, right);
        self.out.push_unchecked(result);
        proof {
            assert(self.produced() =~= old(self).produced().push(self.produced().last()));
        }
    }

    /// Transfers the fully produced output out, disarming the driver: every
    /// input was consumed into a combining call and every output now has the
    /// caller as its one owner.
    pub fn into_output(self) -> (output: Vec<O>)
        requires
            self.wf(),
            self.step_index() == self.n(),
        ensures
            output@ == self.produced(),
    {
        self.out.output()
    }
}

} // verus!
