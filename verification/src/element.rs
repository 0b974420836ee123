//! The bound on element types: decidable equality and exact duplication.
//!
//! The engine stores elements of an arbitrary type `T` and must compare them
//! (to deduplicate, to test membership) and copy them (operations that need an
//! operand twice work on independent duplicates). `Element` states exactly
//! what is relied on: the comparison agrees with equality of the values, and
//! a duplicate equals its original.

use vstd::prelude::*;

verus! {

/// An element of a signed set: a value that can be compared for equality and
/// duplicated, both faithfully.
pub trait Element: Sized {
    /// Decides equality of two elements.
    fn eq_elem(&self, other: &Self) -> (r: bool)
        ensures
            r == (self == other),
    ;

    /// Produces an independent copy equal to the original.
    fn dup(&self) -> (r: Self)
        ensures
            r == *self,
    ;
}

impl Element for i32 {
    fn eq_elem(&self, other: &Self) -> (r: bool) {
        *self == *other
    }

    fn dup(&self) -> (r: Self) {
        *self
    }
}

impl Element for u64 {
    fn eq_elem(&self, other: &Self) -> (r: bool) {
        *self == *other
    }

    fn dup(&self) -> (r: Self) {
        *self
    }
}

} // verus!
