//! The partial-initialization storage primitives.
//!
//! A slot is a `Option<T>`: `Some` marks a live, owned value, `None` an
//! uninitialized slot. Moving a value out of a slot and marking the slot
//! uninitialized happen in one step (`take`), so no value can ever be
//! released twice; and because every slot outside the tracked live region is
//! `None`, dropping the storage releases exactly the live values.
use vstd::prelude::*;

verus! {

/// Moves the value out of a slot, leaving the slot uninitialized in the same
/// step, so the value now has exactly one owner.
pub fn take<T>(slot: &mut Option<T>) -> (value: T)
    requires
        *old(slot) is Some,
    ensures
        value == (*old(slot))->0,
        *final(slot) is None,
{
    let taken = slot.take();
    taken.unwrap()
}

/// A fixed-capacity buffer whose live values occupy one contiguous range of
/// slots, `[alive_start, alive_end)`: values are consumed from the front of
/// the range and produced at its back. Every slot outside the range is
/// uninitialized, so abandoning the buffer at any point releases exactly the
/// live range, each value once.
pub struct Slice<T> {
    array: Vec<Option<T>>,
    start: usize,
    end: usize,
}

impl<T> Slice<T> {
    /// The raw storage: one `Option` per slot, `Some` exactly on live slots.
    pub closed spec fn slots(self) -> Seq<Option<T>> {
        self.array@
    }

    /// First slot of the live range.
    pub closed spec fn alive_start(self) -> int {
        self.start as int
    }

    /// One past the last slot of the live range.
    pub closed spec fn alive_end(self) -> int {
        self.end as int
    }

    /// Number of slots.
    pub open spec fn capacity(self) -> int {
        self.slots().len() as int
    }

    /// The buffer's invariant: the live range lies inside the storage, and a
    /// slot holds a value exactly when it lies in the live range.
    pub open spec fn wf(self) -> bool {
        &&& 0 <= self.alive_start() <= self.alive_end() <= self.capacity()
        &&& forall|i: int|
            0 <= i < self.capacity()
                ==> (#[trigger] self.slots()[i] is Some <==> self.alive_start() <= i
                < self.alive_end())
    }

    /// The live values, in slot order.
    pub open spec fn alive(self) -> Seq<T> {
        Seq::new(
            (self.alive_end() - self.alive_start()) as nat,
            |i: int| self.slots()[self.alive_start() + i]->0,
        )
    }

    /// An empty buffer of `capacity` slots, ready to have values produced
    /// into it from the front.
    pub fn new(capacity: usize) -> (buffer: Self)
        ensures
            buffer.wf(),
            buffer.capacity() == capacity,
            buffer.alive_start() == 0,
            buffer.alive_end() == 0,
            buffer.alive() == Seq::<T>::empty(),
    {
        let buffer = Slice { array: uninit_array(capacity), start: 0, end: 0 };
        proof {
            assert(buffer.alive() =~= Seq::<T>::empty());
        }
        buffer
    }

    /// A buffer owning all of the given values, its live range the whole
    /// storage, ready to be consumed from the front.
    pub fn full(values: Vec<T>) -> (buffer: Self)
        ensures
            buffer.wf(),
            buffer.capacity() == values@.len(),
            buffer.alive_start() == 0,
            buffer.alive_end() == buffer.capacity(),
            buffer.alive() == values@,
    {
        let n = values.len();
        let buffer = Slice { array: mu_array(values), start: 0, end: n };
        proof {
            assert(buffer.alive() =~= values@);
        }
        buffer
    }

    /// Removes and returns the front-most live value, narrowing the live
    /// range: its slot is uninitialized from this step on. "Unchecked" means
    /// no run-time test stands between the caller and an empty range; the
    /// precondition is the caller's obligation.
    pub fn pop_front_unchecked(&mut self) -> (front: T)
        requires
            old(self).wf(),
            old(self).alive_start() < old(self).alive_end(),
        ensures
            final(self).wf(),
            final(self).capacity() == old(self).capacity(),
            final(self).alive_start() == old(self).alive_start() + 1,
            final(self).alive_end() == old(self).alive_end(),
            front == old(self).alive()[0],
            final(self).alive() == old(self).alive().skip(1),
            final(self).slots() == old(self).slots().update(old(self).alive_start(), None::<T>),
    {
        let idx = self.start;
        let slot = self.array.remove(idx);
        self.array.insert(idx, None);
        self.start = idx + 1;
        proof {
            assert(self.slots() =~= old(self).slots().update(idx as int, None::<T>));
            assert(self.alive() =~= old(self).alive().skip(1));
        }
        slot.unwrap()
    }

    /// Stores a value in the first slot past the live range, widening the
    /// range to cover it. "Unchecked" as for `pop_front_unchecked`: the
    /// caller must not produce past the capacity.
    pub fn push_unchecked(&mut self, value: T)
        requires
            old(self).wf(),
            old(self).alive_end() < old(self).capacity(),
        ensures
            final(self).wf(),
            final(self).capacity() == old(self).capacity(),
            final(self).alive_start() == old(self).alive_start(),
            final(self).alive_end() == old(self).alive_end() + 1,
            final(self).alive() == old(self).alive().push(value),
            final(self).slots() == old(self).slots().update(old(self).alive_end(), Some(value)),
    {
        let idx = self.end;
        let n = self.array.len();
        proof {
            assert(idx < n);
        }
        let vacant = self.array.remove(idx);
        self.array.insert(idx, Some(value));
        self.end = idx + 1;
        proof {
            assert(vacant is None);
        }
        proof {
            assert(self.slots() =~= old(self).slots().update(idx as int, Some(value)));
            assert(self.alive() =~= old(self).alive().push(value));
        }
    }

    /// Transfers the buffer's full contents out. Consuming the buffer
    /// disarms its finalization: after this, the caller alone owns the
    /// values.
    pub fn output(self) -> (values: Vec<T>)
        requires
            self.wf(),
            self.alive_start() == 0,
            self.alive_end() == self.capacity(),
        ensures
            values@ == self.alive(),
    {
        let ghost target = self.alive();
        let mut buffer = self;
        let n = buffer.array.len();
        let mut values: Vec<T> = Vec::new();
        proof {
            assert(buffer.alive() =~= target.skip(0));
            assert(values@ =~= target.take(0));
        }
        while values.len() < n
            invariant
                buffer.wf(),
                buffer.capacity() == n,
                buffer.alive_start() == values@.len(),
                buffer.alive_end() == n,
                target.len() == n,
                values@.len() <= n,
                values@ == target.take(values@.len() as int),
                buffer.alive() == target.skip(values@.len() as int),
            decreases n - values@.len(),
        {
            let front = buffer.pop_front_unchecked();
            values.push(front);
            proof {
                assert(buffer.alive() =~= target.skip(values@.len() as int));
                assert(values@ =~= target.take(values@.len() as int));
            }
        }
        proof {
            assert(values@ =~= target);
        }
        values
    }
}

/// Fresh storage of `n` slots, all uninitialized.
pub fn uninit_array<T>(n: usize) -> (storage: Vec<Option<T>>)
    ensures
        storage@.len() == n,
        forall|i: int| 0 <= i < n ==> storage@[i] is None,
{
    let mut storage: Vec<Option<T>> = Vec::new();
    while storage.len() < n
        invariant
            storage@.len() <= n,
            forall|i: int| 0 <= i < storage@.len() ==> storage@[i] is None,
        decreases n - storage@.len(),
    {
        storage.push(None);
    }
    storage
}

/// Storage whose every slot holds one of the given values, in order.
pub fn mu_array<T>(values: Vec<T>) -> (storage: Vec<Option<T>>)
    ensures
        storage@.len() == values@.len(),
        forall|i: int| 0 <= i < values@.len() ==> storage@[i] == Some(values@[i]),
{
    let ghost orig = values@;
    let mut values = values;
    let mut storage: Vec<Option<T>> = Vec::new();
    while values.len() > 0
        invariant
            storage@.len() + values@.len() == orig.len(),
            values@ == orig.skip(storage@.len() as int),
            forall|i: int| 0 <= i < storage@.len() ==> storage@[i] == Some(orig[i]),
        decreases values@.len(),
    {
        let v = values.remove(0);
        proof {
            assert(v == orig[storage@.len() as int]);
        }
        storage.push(Some(v));
    }
    storage
}

} // verus!
