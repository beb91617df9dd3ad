//! An ordered set: its elements are kept without repetition, in increasing
//! order, and every traversal visits them in that order.

use crate::variable::Variable;
use crate::visit::{seq_free_variables, seq_size, Visit};
use vstd::prelude::*;

verus! {

/// A strict total order that executable code can decide.
pub trait TotalOrder: Sized {
    /// `self` comes strictly before `other`.
    spec fn precedes(&self, other: &Self) -> bool;

    /// `precedes` is irreflexive and transitive, and of two different values
    /// one precedes the other.
    proof fn lemma_strict_total_order(a: &Self, b: &Self, c: &Self)
        ensures
            !a.precedes(a),
            a.precedes(b) && b.precedes(c) ==> a.precedes(c),
            a.precedes(b) || b.precedes(a) || a == b,
    ;

    /// Decides `precedes`.
    fn comes_before(&self, other: &Self) -> (r: bool)
        ensures
            r == self.precedes(other),
    ;
}

impl TotalOrder for usize {
    open spec fn precedes(&self, other: &usize) -> bool {
        *self < *other
    }

    proof fn lemma_strict_total_order(a: &usize, b: &usize, c: &usize) {
    }

    fn comes_before(&self, other: &usize) -> (r: bool) {
        *self < *other
    }
}

impl TotalOrder for u32 {
    open spec fn precedes(&self, other: &u32) -> bool {
        *self < *other
    }

    proof fn lemma_strict_total_order(a: &u32, b: &u32, c: &u32) {
    }

    fn comes_before(&self, other: &u32) -> (r: bool) {
        *self < *other
    }
}

/// The rank of a variable's kind, then its two numbers: variables are ordered
/// by these three, the first deciding before the second, the second before
/// the third. Placeholders come first, ordered by universe and then by
/// index; inference variables follow; bound variables are last, ordered by
/// `debruijn` and then by index.
pub open spec fn variable_key(v: Variable) -> (int, int, int) {
    match v {
        Variable::PlaceholderVar(p) => (0, p.universe.index as int, p.var_index as int),
        Variable::InferenceVar(i) => (1, i.index as int, 0),
        Variable::BoundVar(b) => (2, b.debruijn as int, b.var_index as int),
    }
}

impl TotalOrder for Variable {
    open spec fn precedes(&self, other: &Variable) -> bool {
        let a = variable_key(*self);
        let b = variable_key(*other);
        a.0 < b.0 || (a.0 == b.0 && (a.1 < b.1 || (a.1 == b.1 && a.2 < b.2)))
    }

    proof fn lemma_strict_total_order(a: &Variable, b: &Variable, c: &Variable) {
    }

    fn comes_before(&self, other: &Variable) -> (r: bool) {
        match (self, other) {
            (Variable::PlaceholderVar(a), Variable::PlaceholderVar(b)) => {
                a.universe.index < b.universe.index || (a.universe.index == b.universe.index
                    && a.var_index < b.var_index)
            },
            (Variable::PlaceholderVar(_), _) => true,
            (Variable::InferenceVar(_), Variable::PlaceholderVar(_)) => false,
            (Variable::InferenceVar(a), Variable::InferenceVar(b)) => a.index < b.index,
            (Variable::InferenceVar(_), Variable::BoundVar(_)) => true,
            (Variable::BoundVar(a), Variable::BoundVar(b)) => {
                a.debruijn < b.debruijn || (a.debruijn == b.debruijn && a.var_index < b.var_index)
            },
            (Variable::BoundVar(_), _) => false,
        }
    }
}

/// Each element of `s` precedes all that follow it.
pub open spec fn strictly_increasing<T: TotalOrder>(s: Seq<T>) -> bool {
    forall|i: int, j: int| #![trigger s[i], s[j]] 0 <= i < j < s.len() ==> s[i].precedes(&s[j])
}

/// How many elements of `s` precede `x`.
pub open spec fn rank<T: TotalOrder>(s: Seq<T>, x: T) -> nat
    decreases s.len(),
{
    if s.len() == 0 {
        0
    } else if s.last().precedes(&x) {
        rank(s.drop_last(), x) + 1
    } else {
        rank(s.drop_last(), x)
    }
}

/// In an increasing sequence the elements that precede `x` are the first
/// `rank(s, x)` ones: if the first `k` precede `x` and the one at `k`, if
/// any, does not, then `k` is the rank of `x`.
pub proof fn lemma_rank_in_increasing<T: TotalOrder>(s: Seq<T>, x: T, k: int)
    requires
        strictly_increasing(s),
        0 <= k <= s.len(),
        forall|i: int| 0 <= i < k ==> (#[trigger] s[i]).precedes(&x),
        k < s.len() ==> !s[k].precedes(&x),
    ensures
        rank(s, x) == k,
    decreases s.len(),
{
    if s.len() > 0 {
        let init = s.drop_last();
        assert forall|i: int, j: int|
            #![trigger init[i], init[j]]
            0 <= i < j < init.len() implies init[i].precedes(&init[j]) by {
            assert(init[i] == s[i] && init[j] == s[j]);
        }
        if k == s.len() {
            assert(s[k - 1].precedes(&x));
            assert forall|i: int| 0 <= i < k - 1 implies (#[trigger] init[i]).precedes(&x) by {
                assert(init[i] == s[i]);
            }
            lemma_rank_in_increasing(init, x, k - 1);
        } else {
            if s.last().precedes(&x) {
                if k < s.len() - 1 {
                    assert(s[k].precedes(&s[s.len() - 1]));
                    T::lemma_strict_total_order(&s[k], &s.last(), &x);
                }
            }
            assert forall|i: int| 0 <= i < k implies (#[trigger] init[i]).precedes(&x) by {
                assert(init[i] == s[i]);
            }
            if k < init.len() {
                assert(init[k] == s[k]);
            }
            lemma_rank_in_increasing(init, x, k);
        }
    }
}

/// A set of `T`, held in increasing order.
#[derive(Debug, PartialEq, Eq, PartialOrd, Ord, Hash)]
pub struct OrderedSet<T: TotalOrder> {
    elems: Vec<T>,
}

impl<T: TotalOrder> View for OrderedSet<T> {
    type V = Seq<T>;

    /// The elements, in increasing order.
    closed spec fn view(&self) -> Seq<T> {
        self.elems@
    }
}

impl<T: TotalOrder> OrderedSet<T> {
    #[verifier::type_invariant]
    spec fn well_formed(self) -> bool {
        strictly_increasing(self.elems@)
    }

    /// The empty set.
    pub fn new() -> (r: OrderedSet<T>)
        ensures
            r@ == Seq::<T>::empty(),
    {
        OrderedSet { elems: Vec::new() }
    }

    /// The number of elements.
    pub fn len(&self) -> (n: usize)
        ensures
            n == self@.len(),
    {
        self.elems.len()
    }

    /// The elements in increasing order.
    pub fn as_vec(&self) -> (r: &Vec<T>)
        ensures
            r@ == self@,
            strictly_increasing(r@),
    {
        proof {
            use_type_invariant(self);
        }
        &self.elems
    }

    /// True if `x` is an element.
    pub fn contains(&self, x: &T) -> (r: bool)
        ensures
            r == self@.contains(*x),
    {
        proof {
            use_type_invariant(self);
        }
        let mut i: usize = 0;
        while i < self.elems.len() && self.elems[i].comes_before(x)
            invariant
                i <= self.elems.len(),
                forall|j: int| 0 <= j < i ==> (#[trigger] self.elems@[j]).precedes(x),
            decreases self.elems.len() - i,
        {
            i = i + 1;
        }
        let found = i < self.elems.len() && !x.comes_before(&self.elems[i]);
        proof {
            let s = self.elems@;
            if found {
                T::lemma_strict_total_order(&s[i as int], x, x);
                assert(s[i as int] == *x);
            } else {
                assert forall|j: int| 0 <= j < s.len() implies s[j] != *x by {
                    T::lemma_strict_total_order(x, x, x);
                    if j > i {
                        T::lemma_strict_total_order(x, &s[i as int], &s[j]);
                    }
                }
            }
        }
        found
    }

    /// Adds `x` unless it is an element already, and says whether it was
    /// added. A new element goes behind the elements that precede it.
    pub fn insert(&mut self, x: T) -> (r: bool)
        ensures
            r == !old(self)@.contains(x),
            !r ==> final(self)@ == old(self)@,
            r ==> final(self)@ == old(self)@.insert(rank(old(self)@, x) as int, x),
            strictly_increasing(final(self)@),
    {
        proof {
            use_type_invariant(&*self);
        }
        let mut i: usize = 0;
        while i < self.elems.len() && self.elems[i].comes_before(&x)
            invariant
                i <= self.elems.len(),
                self.elems == old(self).elems,
                forall|j: int| 0 <= j < i ==> (#[trigger] self.elems@[j]).precedes(&x),
            decreases self.elems.len() - i,
        {
            i = i + 1;
        }
        let ghost s = self.elems@;
        if i < self.elems.len() && !x.comes_before(&self.elems[i]) {
            proof {
                T::lemma_strict_total_order(&s[i as int], &x, &x);
                assert(s[i as int] == x);
            }
            false
        } else {
            proof {
                assert forall|j: int| 0 <= j < s.len() implies s[j] != x by {
                    T::lemma_strict_total_order(&x, &x, &x);
                    if j > i {
                        T::lemma_strict_total_order(&x, &s[i as int], &s[j]);
                    }
                }
                lemma_rank_in_increasing(s, x, i as int);
                let t = s.insert(i as int, x);
                assert forall|a: int, b: int|
                    #![trigger t[a], t[b]]
                    0 <= a < b < t.len() implies t[a].precedes(&t[b]) by {
                    if b == i {
                        assert(t[a] == s[a]);
                    } else if a == i {
                        assert(t[b] == s[b - 1]);
                        if b - 1 > i {
                            T::lemma_strict_total_order(&x, &s[i as int], &s[b - 1]);
                        }
                    } else if a < i && b < i {
                        assert(t[a] == s[a] && t[b] == s[b]);
                    } else if a < i {
                        assert(t[a] == s[a] && t[b] == s[b - 1]);
                    } else {
                        assert(t[a] == s[a - 1] && t[b] == s[b - 1]);
                    }
                }
            }
            let mut elems: Vec<T> = Vec::new();
            std::mem::swap(&mut elems, &mut self.elems);
            elems.insert(i, x);
            self.elems = elems;
            true
        }
    }
}

/// The elements of an ordered set are visited in increasing order.
impl<T: Visit + TotalOrder> Visit for OrderedSet<T> {
    open spec fn spec_free_variables(&self) -> Seq<Variable> {
        seq_free_variables(self@)
    }

    open spec fn spec_size(&self) -> nat {
        seq_size(self@)
    }

    fn free_variables(&self) -> (r: Vec<Variable>) {
        self.elems.free_variables()
    }

    fn size(&self) -> (n: usize) {
        self.elems.size()
    }
}

} // verus!
