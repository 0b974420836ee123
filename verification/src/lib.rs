//! Signed sets: finite sets and their complements over an unbounded universe.
//!
//! A [`FlagSet`] pairs a finite set of elements with a boolean sign. A
//! positive sign means the value denotes exactly those elements; a negative
//! sign means it denotes everything *except* those elements. The five set
//! operations (union, intersection, difference, symmetric difference,
//! complement) are resolved by a truth table over the operands' signs so that
//! membership in the result always agrees with the boolean combination of
//! membership in the operands.

mod algebra;
mod element;
mod laws;
mod signed;

pub use algebra::complement_spec;
pub use algebra::intersect_spec;
pub use algebra::member;
pub use algebra::subtract_spec;
pub use algebra::sym_diff_spec;
pub use algebra::union_spec;
pub use element::Element;
pub use laws::lemma_complement_member;
pub use laws::lemma_de_morgan_intersect;
pub use laws::lemma_de_morgan_union;
pub use laws::lemma_double_complement;
pub use laws::lemma_intersect_commutative;
pub use laws::lemma_intersect_member;
pub use laws::lemma_round_trip;
pub use laws::lemma_subtract_member;
pub use laws::lemma_sym_diff_commutative;
pub use laws::lemma_sym_diff_decomposition;
pub use laws::lemma_sym_diff_member;
pub use laws::lemma_union_commutative;
pub use laws::lemma_union_member;
pub use signed::FlagSet;
