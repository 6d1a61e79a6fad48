//! A one-directional consuming cursor over a fixed-size sequence: the cheaper
//! bookkeeping used where one input of an operation is only ever consumed
//! front-to-back, with no production phase.
use vstd::prelude::*;

use crate::iter::mu_array;

verus! {

/// Owns a fixed-size sequence and consumes it front-to-back. Slots before the
/// cursor are uninitialized (their values were handed out, each to exactly one
/// owner); slots from the cursor on hold the values not yet consumed, so
/// abandoning the consumer releases exactly those, each once.
pub struct Consumer<T> {
    array: Vec<Option<T>>,
    cursor: usize,
}

impl<T> Consumer<T> {
    /// The raw storage: `Some` exactly on the slots not yet consumed.
    pub closed spec fn slots(self) -> Seq<Option<T>> {
        self.array@
    }

    /// How many front values have been consumed.
    pub closed spec fn cursor(self) -> int {
        self.cursor as int
    }

    /// Number of slots.
    pub open spec fn capacity(self) -> int {
        self.slots().len() as int
    }

    /// The consumer's invariant: the cursor lies inside the storage, and a
    /// slot holds a value exactly when the cursor has not passed it.
    pub open spec fn wf(self) -> bool {
        &&& 0 <= self.cursor() <= self.capacity()
        &&& forall|i: int|
            0 <= i < self.capacity()
                ==> (#[trigger] self.slots()[i] is Some <==> self.cursor() <= i)
    }

    /// The values not yet consumed, in slot order.
    pub open spec fn remaining(self) -> Seq<T> {
        Seq::new(
            (self.capacity() - self.cursor()) as nat,
            |i: int| self.slots()[self.cursor() + i]->0,
        )
    }

    /// A consumer owning all of the given values, cursor at the front.
    pub fn new(values: Vec<T>) -> (consumer: Self)
        ensures
            consumer.wf(),
            consumer.capacity() == values@.len(),
            consumer.cursor() == 0,
            consumer.remaining() == values@,
    {
        let consumer = Consumer { array: mu_array(values), cursor: 0 };
        proof {
            assert(consumer.remaining() =~= values@);
        }
        consumer
    }

    /// Returns the value at the cursor and advances the cursor by one; the
    /// value's slot is uninitialized from this step on. The precondition that
    /// values remain is the caller's obligation, not tested at run time.
    pub fn consume_next(&mut self) -> (value: T)
        requires
            old(self).wf(),
            old(self).cursor() < old(self).capacity(),
        ensures
            final(self).wf(),
            final(self).capacity() == old(self).capacity(),
            final(self).cursor() == old(self).cursor() + 1,
            value == old(self).remaining()[0],
            final(self).remaining() == old(self).remaining().skip(1),
            final(self).slots() == old(self).slots().update(old(self).cursor(), None::<T>),
    {
        let idx = self.cursor;
        let n = self.array.len();
        let value = take_at(&mut self.array, idx);
        self.cursor = idx + 1;
        proof {
            assert(self.remaining() =~= old(self).remaining().skip(1));
        }
        value
    }
}

/// Moves the value out of slot `idx` of the storage, leaving that slot
/// uninitialized in the same step.
fn take_at<T>(storage: &mut Vec<Option<T>>, idx: usize) -> (value: T)
    requires
        idx < old(storage)@.len(),
        old(storage)@[idx as int] is Some,
    ensures
        value == old(storage)@[idx as int]->0,
        final(storage)@ == old(storage)@.update(idx as int, None::<T>),
{
    let slot = storage.remove(idx);
    storage.insert(idx, None);
    proof {
        assert(storage@ =~= old(storage)@.update(idx as int, None::<T>));
    }
    slot.unwrap()
}

} // verus!
