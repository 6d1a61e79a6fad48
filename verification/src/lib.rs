//! Elementwise binary operations over two equal-length sequences, built on a
//! partial-initialization buffer that tracks exactly which slots hold a live
//! value, so that abandoning an operation midway releases every live element
//! exactly once and touches nothing else.
use vstd::prelude::*;

pub mod assign;
pub mod consume;
pub mod driver;
pub mod iter;
pub mod laws;
pub mod simple;

verus! {

/// A fixed-length sequence of values, the operand shape of every elementwise
/// operation. Both operands of one operation must have the same length.
pub struct Array<T>(pub Vec<T>);

impl<T> View for Array<T> {
    type V = Seq<T>;

    open spec fn view(&self) -> Seq<T> {
        self.0@
    }
}

/// Relies on core::mem::needs_drop: whether dropping a value of the type can
/// have an effect. The answer is a property of the type alone and may
/// conservatively be either way; it only selects between two execution paths
/// that meet one contract, so nothing is claimed of it.
pub assume_specification<T: ?Sized>[ core::mem::needs_drop::<T> ]() -> bool;

/// Whether abandoning a value of the type must finalize it: when false for
/// every element type of an operation, the untracked path is safe.
pub fn needs_finalizer<T>() -> bool {
    core::mem::needs_drop::<T>()
}

} // verus!
