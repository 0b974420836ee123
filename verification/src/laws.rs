//! The algebraic laws of signed sets, proved over the model of
//! [`crate::algebra`]: membership correctness of every operation, double
//! complement, de Morgan's laws, the symmetric-difference decomposition, and
//! commutativity.

use vstd::prelude::*;

use crate::algebra::complement_spec;
use crate::algebra::intersect_spec;
use crate::algebra::member;
use crate::algebra::subtract_spec;
use crate::algebra::sym_diff_spec;
use crate::algebra::union_spec;

verus! {

/// Structural round-trip: a signed set built from the elements of `v` with
/// sign `s` holds `x` exactly when the presence of `x` in `v` equals `s`.
pub proof fn lemma_round_trip<T>(v: Seq<T>, s: bool, x: T)
    ensures
        member((v.to_set(), s), x) == (v.contains(x) == s),
{
    assert(v.to_set().contains(x) == v.contains(x));
}

/// Membership in a union is membership in either operand, for every sign
/// combination.
pub proof fn lemma_union_member<T>(a: (Set<T>, bool), b: (Set<T>, bool), x: T)
    ensures
        member(union_spec(a, b), x) == (member(a, x) || member(b, x)),
{
}

/// Membership in an intersection is membership in both operands, for every
/// sign combination.
pub proof fn lemma_intersect_member<T>(a: (Set<T>, bool), b: (Set<T>, bool), x: T)
    ensures
        member(intersect_spec(a, b), x) == (member(a, x) && member(b, x)),
{
}

/// Membership in a difference is membership in the first operand but not the
/// second, for every sign combination.
pub proof fn lemma_subtract_member<T>(a: (Set<T>, bool), b: (Set<T>, bool), x: T)
    ensures
        member(subtract_spec(a, b), x) == (member(a, x) && !member(b, x)),
{
}

/// Membership in a complement is non-membership in the operand.
pub proof fn lemma_complement_member<T>(a: (Set<T>, bool), x: T)
    ensures
        member(complement_spec(a), x) == !member(a, x),
{
}

/// Membership in a symmetric difference is membership in exactly one operand,
/// for every sign combination.
pub proof fn lemma_sym_diff_member<T>(a: (Set<T>, bool), b: (Set<T>, bool), x: T)
    ensures
        member(sym_diff_spec(a, b), x) == (member(a, x) != member(b, x)),
{
    lemma_union_member(a, b, x);
    lemma_intersect_member(a, b, x);
    lemma_subtract_member(union_spec(a, b), intersect_spec(a, b), x);
}

/// Double complement: complementing twice gives back the same structure.
pub proof fn lemma_double_complement<T>(a: (Set<T>, bool))
    ensures
        complement_spec(complement_spec(a)) == a,
{
}

/// De Morgan: the complement of a union is, structurally, the intersection of
/// the complements.
pub proof fn lemma_de_morgan_union<T>(a: (Set<T>, bool), b: (Set<T>, bool))
    ensures
        complement_spec(union_spec(a, b)) == intersect_spec(
            complement_spec(a),
            complement_spec(b),
        ),
{
}

/// De Morgan: the complement of an intersection is, structurally, the union
/// of the complements.
pub proof fn lemma_de_morgan_intersect<T>(a: (Set<T>, bool), b: (Set<T>, bool))
    ensures
        complement_spec(intersect_spec(a, b)) == union_spec(
            complement_spec(a),
            complement_spec(b),
        ),
{
}

/// Symmetric difference decomposes as the difference of the union and the
/// intersection; this is its defining relation.
pub proof fn lemma_sym_diff_decomposition<T>(a: (Set<T>, bool), b: (Set<T>, bool))
    ensures
        sym_diff_spec(a, b) == subtract_spec(union_spec(a, b), intersect_spec(a, b)),
{
}

/// Union is commutative.
pub proof fn lemma_union_commutative<T>(a: (Set<T>, bool), b: (Set<T>, bool))
    ensures
        union_spec(a, b) == union_spec(b, a),
{
    assert(a.0.union(b.0) =~= b.0.union(a.0));
    assert(a.0.intersect(b.0) =~= b.0.intersect(a.0));
}

/// Intersection is commutative.
pub proof fn lemma_intersect_commutative<T>(a: (Set<T>, bool), b: (Set<T>, bool))
    ensures
        intersect_spec(a, b) == intersect_spec(b, a),
{
    assert(a.0.union(b.0) =~= b.0.union(a.0));
    assert(a.0.intersect(b.0) =~= b.0.intersect(a.0));
}

/// Symmetric difference is commutative.
pub proof fn lemma_sym_diff_commutative<T>(a: (Set<T>, bool), b: (Set<T>, bool))
    ensures
        sym_diff_spec(a, b) == sym_diff_spec(b, a),
{
    lemma_union_commutative(a, b);
    lemma_intersect_commutative(a, b);
}

} // verus!
