//! The signed set engine: finite storage, a sign, and the five operations.
//!
//! A [`FlagSet`] stores its finite part as a duplicate-free `Vec<T>` and
//! views it as the pair `(Set<T>, bool)` of its element set and its sign.
//! Every operation's contract ties the result's view to the corresponding
//! truth-table function of [`crate::algebra`].

use vstd::prelude::*;

use crate::algebra::complement_spec;
use crate::algebra::intersect_spec;
use crate::algebra::member;
use crate::algebra::subtract_spec;
use crate::algebra::sym_diff_spec;
use crate::algebra::union_spec;
use crate::element::Element;

verus! {

broadcast use
    Seq::<_>::lemma_push_to_set_commute,
    Seq::<_>::lemma_take_succ_push,
    Seq::<_>::lemma_take_len;

/// No value occurs twice in the sequence.
spec fn unique_seq<T>(s: Seq<T>) -> bool {
    forall|i: int, j: int| 0 <= i < j < s.len() ==> s[i] != s[j]
}

/// A set representation that can denote a finite set or its complement over
/// an unbounded universe, while storing only a finite part.
///
/// The view of a `FlagSet` is the pair of its element set and its sign: with
/// sign `true` the value denotes exactly the element set, with sign `false`
/// it denotes everything outside the element set. Equality of views is
/// structural; no canonicalization is ever applied.
pub struct FlagSet<T: Element> {
    elements: Vec<T>,
    sign: bool,
}

impl<T: Element> View for FlagSet<T> {
    type V = (Set<T>, bool);

    closed spec fn view(&self) -> (Set<T>, bool) {
        (self.elements@.to_set(), self.sign)
    }
}

/// Decides whether `v` holds an element equal to `*x`.
fn vec_contains<T: Element>(v: &Vec<T>, x: &T) -> (r: bool)
    ensures
        r == v@.contains(*x),
{
    let mut i: usize = 0;
    while i < v.len()
        invariant
            i <= v@.len(),
            forall|k: int| 0 <= k < i ==> v@[k] != *x,
        decreases v@.len() - i,
    {
        if v[i].eq_elem(x) {
            proof {
                v@.lemma_index_contains(i as int);
            }
            return true;
        }
        i += 1;
    }
    false
}

/// Appends `x` unless an equal element is already present, so that a
/// duplicate-free vector stays duplicate-free while its element set gains `x`.
fn insert_unique<T: Element>(v: Vec<T>, x: T) -> (out: Vec<T>)
    requires
        unique_seq(v@),
    ensures
        unique_seq(out@),
        out@.to_set() == v@.to_set().insert(x),
{
    let mut out = v;
    if !vec_contains(&out, &x) {
        proof {
            assert forall|i: int, j: int| 0 <= i < j < out@.push(x).len() implies out@.push(x)[i]
                != out@.push(x)[j] by {
                if j == out@.len() {
                    if out@[i] == x {
                        out@.lemma_index_contains(i);
                    }
                }
            };
        }
        out.push(x);
    } else {
        proof {
            assert(out@.to_set() =~= v@.to_set().insert(x));
        }
    }
    out
}

/// Copies every element of `v`, in order.
fn dup_vec<T: Element>(v: &Vec<T>) -> (out: Vec<T>)
    ensures
        out@ == v@,
{
    let mut out: Vec<T> = Vec::new();
    let mut i: usize = 0;
    while i < v.len()
        invariant
            i <= v@.len(),
            out@.len() == i,
            forall|k: int| 0 <= k < i ==> out@[k] == v@[k],
        decreases v@.len() - i,
    {
        out.push(v[i].dup());
        i += 1;
    }
    proof {
        assert(out@ =~= v@);
    }
    out
}

/// Collects the distinct elements of `v`.
fn dedup_vec<T: Element>(v: &Vec<T>) -> (out: Vec<T>)
    ensures
        unique_seq(out@),
        out@.to_set() == v@.to_set(),
{
    let mut out: Vec<T> = Vec::new();
    proof {
        assert(out@.to_set() =~= v@.take(0).to_set());
    }
    let mut i: usize = 0;
    while i < v.len()
        invariant
            i <= v@.len(),
            unique_seq(out@),
            out@.to_set() == v@.take(i as int).to_set(),
        decreases v@.len() - i,
    {
        out = insert_unique(out, v[i].dup());
        proof {
            assert(out@.to_set() =~= v@.take(i as int + 1).to_set());
        }
        i += 1;
    }
    out
}

/// The elements of `a` joined with those of `b`.
fn union_elems<T: Element>(a: Vec<T>, b: &Vec<T>) -> (out: Vec<T>)
    requires
        unique_seq(a@),
    ensures
        unique_seq(out@),
        out@.to_set() == a@.to_set().union(b@.to_set()),
{
    let ghost a0: Set<T> = a@.to_set();
    let mut out = a;
    proof {
        assert(out@.to_set() =~= a0.union(b@.take(0).to_set()));
    }
    let mut i: usize = 0;
    while i < b.len()
        invariant
            i <= b@.len(),
            unique_seq(out@),
            out@.to_set() == a0.union(b@.take(i as int).to_set()),
        decreases b@.len() - i,
    {
        out = insert_unique(out, b[i].dup());
        proof {
            assert(out@.to_set() =~= a0.union(b@.take(i as int + 1).to_set()));
        }
        i += 1;
    }
    out
}

/// The elements common to `a` and `b`.
fn intersect_elems<T: Element>(a: &Vec<T>, b: &Vec<T>) -> (out: Vec<T>)
    ensures
        unique_seq(out@),
        out@.to_set() == a@.to_set().intersect(b@.to_set()),
{
    let mut out: Vec<T> = Vec::new();
    proof {
        assert(out@.to_set() =~= a@.take(0).to_set().intersect(b@.to_set()));
    }
    let mut i: usize = 0;
    while i < a.len()
        invariant
            i <= a@.len(),
            unique_seq(out@),
            out@.to_set() == a@.take(i as int).to_set().intersect(b@.to_set()),
        decreases a@.len() - i,
    {
        if vec_contains(b, &a[i]) {
            out = insert_unique(out, a[i].dup());
        }
        proof {
            assert(out@.to_set() =~= a@.take(i as int + 1).to_set().intersect(b@.to_set()));
        }
        i += 1;
    }
    out
}

/// The elements of `a` that are not in `b`.
fn diff_elems<T: Element>(a: &Vec<T>, b: &Vec<T>) -> (out: Vec<T>)
    ensures
        unique_seq(out@),
        out@.to_set() == a@.to_set().difference(b@.to_set()),
{
    let mut out: Vec<T> = Vec::new();
    proof {
        assert(out@.to_set() =~= a@.take(0).to_set().difference(b@.to_set()));
    }
    let mut i: usize = 0;
    while i < a.len()
        invariant
            i <= a@.len(),
            unique_seq(out@),
            out@.to_set() == a@.take(i as int).to_set().difference(b@.to_set()),
        decreases a@.len() - i,
    {
        if !vec_contains(b, &a[i]) {
            out = insert_unique(out, a[i].dup());
        }
        proof {
            assert(out@.to_set() =~= a@.take(i as int + 1).to_set().difference(b@.to_set()));
        }
        i += 1;
    }
    out
}

/// Decides whether every element of `a` is also an element of `b`.
fn is_subset<T: Element>(a: &Vec<T>, b: &Vec<T>) -> (r: bool)
    ensures
        r == a@.to_set().subset_of(b@.to_set()),
{
    let mut i: usize = 0;
    while i < a.len()
        invariant
            i <= a@.len(),
            forall|k: int| 0 <= k < i ==> b@.contains(a@[k]),
        decreases a@.len() - i,
    {
        if !vec_contains(b, &a[i]) {
            proof {
                a@.lemma_index_contains(i as int);
                assert(a@.to_set().contains(a@[i as int]));
                assert(!b@.to_set().contains(a@[i as int]));
            }
            return false;
        }
        i += 1;
    }
    proof {
        assert forall|x: T| a@.to_set().contains(x) implies b@.to_set().contains(x) by {
            let k = choose|k: int| 0 <= k < a@.len() && a@[k] == x;
            assert(b@.contains(a@[k]));
        };
    }
    true
}

impl<T: Element> FlagSet<T> {
    #[verifier::type_invariant]
    spec fn wf(self) -> bool {
        unique_seq(self.elements@)
    }

    /// Builds a signed set from the deduplicated elements of `vector` and the
    /// sign `flag`.
    pub fn new(vector: Vec<T>, flag: bool) -> (r: Self)
        ensures
            r@.0 == vector@.to_set(),
            r@.1 == flag,
    {
        FlagSet { elements: dedup_vec(&vector), sign: flag }
    }

    /// Reports whether the denoted set holds `value`: true exactly when the
    /// presence of `value` among the stored elements equals the sign.
    pub fn contains(&self, value: T) -> (r: bool)
        ensures
            r == member(self@, value),
    {
        let present = vec_contains(&self.elements, &value);
        present == self.sign
    }

    /// Union. Both operands are consumed; the result's finite part and sign
    /// follow the sign-resolution table of [`union_spec`].
    pub fn union(self, other: Self) -> (r: Self)
        ensures
            r@ == union_spec(self@, other@),
    {
        proof {
            use_type_invariant(&self);
            use_type_invariant(&other);
        }
        let FlagSet { elements: a, sign: sa } = self;
        let FlagSet { elements: b, sign: sb } = other;
        if sa && sb {
            FlagSet { elements: union_elems(a, &b), sign: true }
        } else if sa && !sb {
            FlagSet { elements: diff_elems(&b, &a), sign: false }
        } else if !sa && sb {
            FlagSet { elements: diff_elems(&a, &b), sign: false }
        } else {
            FlagSet { elements: intersect_elems(&a, &b), sign: false }
        }
    }

    /// Intersection. Both operands are consumed; the result's finite part and
    /// sign follow the sign-resolution table of [`intersect_spec`].
    pub fn intersect(self, other: Self) -> (r: Self)
        ensures
            r@ == intersect_spec(self@, other@),
    {
        proof {
            use_type_invariant(&self);
            use_type_invariant(&other);
        }
        let FlagSet { elements: a, sign: sa } = self;
        let FlagSet { elements: b, sign: sb } = other;
        if sa && sb {
            FlagSet { elements: intersect_elems(&a, &b), sign: true }
        } else if sa && !sb {
            FlagSet { elements: diff_elems(&a, &b), sign: true }
        } else if !sa && sb {
            FlagSet { elements: diff_elems(&b, &a), sign: true }
        } else {
            FlagSet { elements: union_elems(a, &b), sign: false }
        }
    }

    /// Difference. Both operands are consumed; the result's finite part and
    /// sign follow the sign-resolution table of [`subtract_spec`].
    pub fn subtract(self, other: Self) -> (r: Self)
        ensures
            r@ == subtract_spec(self@, other@),
    {
        proof {
            use_type_invariant(&self);
            use_type_invariant(&other);
        }
        let FlagSet { elements: a, sign: sa } = self;
        let FlagSet { elements: b, sign: sb } = other;
        if sa && sb {
            FlagSet { elements: diff_elems(&a, &b), sign: true }
        } else if sa && !sb {
            FlagSet { elements: intersect_elems(&a, &b), sign: true }
        } else if !sa && sb {
            FlagSet { elements: union_elems(a, &b), sign: false }
        } else {
            FlagSet { elements: diff_elems(&b, &a), sign: true }
        }
    }

    /// Symmetric difference, computed as `(A ∪ B) − (A ∩ B)` on independent
    /// duplicates of the operands; both operands are consumed.
    pub fn symmetric_difference(self, other: Self) -> (r: Self)
        ensures
            r@ == sym_diff_spec(self@, other@),
    {
        let self_copy = self.clone();
        let other_copy = other.clone();
        let joined = self_copy.union(other_copy);
        let common = self.intersect(other);
        joined.subtract(common)
    }

    /// Complement: toggles the sign and keeps the finite part, whose storage
    /// is moved into the result without being copied.
    pub fn complement(self) -> (r: Self)
        ensures
            r@ == complement_spec(self@),
    {
        proof {
            use_type_invariant(&self);
        }
        let FlagSet { elements, sign } = self;
        FlagSet { elements, sign: !sign }
    }

    /// Structural equality: the element sets are equal (as sets, ignoring
    /// storage order) and the signs are equal. Two representations of the
    /// same denoted set with different finite parts are *not* equal.
    pub fn equals(&self, other: &Self) -> (r: bool)
        ensures
            r == (self@ == other@),
    {
        let same = self.sign == other.sign && is_subset(&self.elements, &other.elements)
            && is_subset(&other.elements, &self.elements);
        proof {
            if same {
                assert(self@.0 =~= other@.0);
            }
        }
        same
    }
}

impl<T: Element> Default for FlagSet<T> {
    /// The empty signed set: no elements and a positive sign.
    fn default() -> (r: Self)
        ensures
            r@.0 == Set::<T>::empty(),
            r@.1 == true,
    {
        let elements: Vec<T> = Vec::new();
        proof {
            assert(elements@.to_set() =~= Set::<T>::empty());
        }
        FlagSet { elements, sign: true }
    }
}

impl<T: Element> Clone for FlagSet<T> {
    /// An independent copy with an equal view.
    fn clone(&self) -> (r: Self)
        ensures
            r@ == self@,
    {
        proof {
            use_type_invariant(self);
        }
        FlagSet { elements: dup_vec(&self.elements), sign: self.sign }
    }
}

} // verus!
