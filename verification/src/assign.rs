//! The in-place elementwise operation: the left-hand sequence is updated one
//! element at a time and no separate output is produced. Only the right-hand
//! input is consumed, so the tracked path needs one consuming cursor and no
//! output buffer; the untracked path keeps no bookkeeping at all.
use vstd::prelude::*;

use crate::consume::Consumer;
use crate::needs_finalizer;
use crate::Array;

verus! {

impl<T> Array<T> {
    /// Combines this sequence elementwise with `rhs` in place: for each index
    /// `i`, in increasing index order, `op` is applied exactly once to the
    /// element at `i` and `rhs[i]`, and its result takes the element's place
    /// in the same slot. If `op` terminates abnormally at some index, the
    /// left-hand element and right-hand element of that step are owned by the
    /// failed call alone, and every right-hand element not yet consumed is
    /// released exactly once while this call unwinds.
    pub fn zip_mut_map<U, F: Fn(T, U) -> T>(&mut self, rhs: Vec<U>, op: F)
        requires
            old(self)@.len() == rhs@.len(),
            forall|i: int| 0 <= i < rhs@.len() ==> call_requires(op, (old(self)@[i], rhs@[i])),
        ensures
            final(self)@.len() == old(self)@.len(),
            forall|i: int|
                0 <= i < old(self)@.len() ==> call_ensures(
                    op,
                    (old(self)@[i], rhs@[i]),
                    #[trigger] final(self)@[i],
                ),
    {
        if needs_finalizer::<U>() {
            zip_mut_map_tracked(&mut self.0, rhs, op)
        } else {
            zip_mut_map_untracked(&mut self.0, rhs, op)
        }
    }
}

/// The tracked path: the right-hand input lives behind a consuming cursor, so
/// a combining call that terminates abnormally leaves exactly the right-hand
/// values not yet consumed to be released, each once. The left-hand element
/// in flight is out of its slot for the duration of the call; its slot is
/// filled again only when the call returns.
pub fn zip_mut_map_tracked<T, U, F: Fn(T, U) -> T>(lhs: &mut Vec<T>, rhs: Vec<U>, op: F)
    requires
        old(lhs)@.len() == rhs@.len(),
        forall|i: int| 0 <= i < rhs@.len() ==> call_requires(op, (old(lhs)@[i], rhs@[i])),
    ensures
        final(lhs)@.len() == old(lhs)@.len(),
        forall|i: int|
            0 <= i < old(lhs)@.len() ==> call_ensures(
                op,
                (old(lhs)@[i], rhs@[i]),
                #[trigger] final(lhs)@[i],
            ),
{
    let ghost lhs0 = lhs@;
    let ghost rhs0 = rhs@;
    let n = lhs.len();
    let mut consumer = Consumer::new(rhs);
    let mut i: usize = 0;
    while i < n
        invariant
            i <= n,
            lhs0.len() == n,
            rhs0.len() == n,
            lhs@.len() == n,
            consumer.wf(),
            consumer.capacity() == n,
            consumer.cursor() == i,
            consumer.remaining() == rhs0.skip(i as int),
            forall|j: int| i <= j < n ==> lhs@[j] == lhs0[j],
            forall|j: int| 0 <= j < i ==> call_ensures(op, (lhs0[j], rhs0[j]), #[trigger] lhs@[j]),
            forall|j: int| 0 <= j < n ==> call_requires(op, (lhs0[j], rhs0[j])),
        decreases n - i,
    {
        let ghost lhs_snap = lhs@;
        let right = consumer.consume_next();
        proof {
            assert(right == rhs0[i as int]);
        }
        let left = lhs.remove(i);
        let result = op(left, right);
        lhs.insert(i, result);
        proof {
            assert(lhs@ =~= lhs_snap.update(i as int, result));
        }
        i = i + 1;
        proof {
            assert(consumer.remaining() =~= rhs0.skip(i as int));
        }
    }
}

/// The untracked path: no bookkeeping — each step moves one value out of the
/// front of the right-hand input and updates the left-hand element in place.
/// Only element types that need no finalization take this path.
pub fn zip_mut_map_untracked<T, U, F: Fn(T, U) -> T>(lhs: &mut Vec<T>, rhs: Vec<U>, op: F)
    requires
        old(lhs)@.len() == rhs@.len(),
        forall|i: int| 0 <= i < rhs@.len() ==> call_requires(op, (old(lhs)@[i], rhs@[i])),
    ensures
        final(lhs)@.len() == old(lhs)@.len(),
        forall|i: int|
            0 <= i < old(lhs)@.len() ==> call_ensures(
                op,
                (old(lhs)@[i], rhs@[i]),
                #[trigger] final(lhs)@[i],
            ),
{
    let ghost lhs0 = lhs@;
    let ghost rhs0 = rhs@;
    let n = lhs.len();
    let mut rhs = rhs;
    let mut i: usize = 0;
    while i < n
        invariant
            i <= n,
            lhs0.len() == n,
            rhs0.len() == n,
            lhs@.len() == n,
            rhs@ == rhs0.skip(i as int),
            forall|j: int| i <= j < n ==> lhs@[j] == lhs0[j],
            forall|j: int| 0 <= j < i ==> call_ensures(op, (lhs0[j], rhs0[j]), #[trigger] lhs@[j]),
            forall|j: int| 0 <= j < n ==> call_requires(op, (lhs0[j], rhs0[j])),
        decreases n - i,
    {
        let ghost lhs_snap = lhs@;
        let right = rhs.remove(0);
        proof {
            assert(right == rhs0[i as int]);
        }
        let left = lhs.remove(i);
        let result = op(left, right);
        lhs.insert(i, result);
        proof {
            assert(lhs@ =~= lhs_snap.update(i as int, result));
        }
        i = i + 1;
        proof {
            assert(rhs@ =~= rhs0.skip(i as int));
        }
    }
}

} // verus!
