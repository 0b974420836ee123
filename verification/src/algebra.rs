//! The mathematical model of a signed set: a pair of a finite element set and
//! a sign, together with the sign-resolution truth tables of the operations.

use vstd::prelude::*;

verus! {

/// Membership in a signed set `(elements, sign)`: a value belongs to the
/// denoted set exactly when its presence in the finite part equals the sign.
/// With a positive sign the pair denotes `elements` itself; with a negative
/// sign it denotes the complement of `elements` in the unbounded universe.
pub open spec fn member<T>(s: (Set<T>, bool), x: T) -> bool {
    s.0.contains(x) == s.1
}

/// Union, resolved over the operands' signs.
pub open spec fn union_spec<T>(a: (Set<T>, bool), b: (Set<T>, bool)) -> (Set<T>, bool) {
    if a.1 && b.1 {
        (a.0.union(b.0), true)
    } else if a.1 && !b.1 {
        (b.0.difference(a.0), false)
    } else if !a.1 && b.1 {
        (a.0.difference(b.0), false)
    } else {
        (a.0.intersect(b.0), false)
    }
}

/// Intersection, resolved over the operands' signs.
pub open spec fn intersect_spec<T>(a: (Set<T>, bool), b: (Set<T>, bool)) -> (Set<T>, bool) {
    if a.1 && b.1 {
        (a.0.intersect(b.0), true)
    } else if a.1 && !b.1 {
        (a.0.difference(b.0), true)
    } else if !a.1 && b.1 {
        (b.0.difference(a.0), true)
    } else {
        (a.0.union(b.0), false)
    }
}

/// Difference, resolved over the operands' signs.
pub open spec fn subtract_spec<T>(a: (Set<T>, bool), b: (Set<T>, bool)) -> (Set<T>, bool) {
    if a.1 && b.1 {
        (a.0.difference(b.0), true)
    } else if a.1 && !b.1 {
        (a.0.intersect(b.0), true)
    } else if !a.1 && b.1 {
        (a.0.union(b.0), false)
    } else {
        (b.0.difference(a.0), true)
    }
}

/// Complement: the sign is toggled and the finite part kept.
pub open spec fn complement_spec<T>(a: (Set<T>, bool)) -> (Set<T>, bool) {
    (a.0, !a.1)
}

/// Symmetric difference, defined as `(A ∪ B) − (A ∩ B)`. This composition is
/// the defining relation; there is no independent truth table for it.
pub open spec fn sym_diff_spec<T>(a: (Set<T>, bool), b: (Set<T>, bool)) -> (Set<T>, bool) {
    subtract_spec(union_spec(a, b), intersect_spec(a, b))
}

} // verus!
