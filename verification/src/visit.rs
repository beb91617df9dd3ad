//! The traversal contract shared by every term, and its composition over the
//! standard containers.

use crate::variable::{greatest_universe, max_universe, only_placeholders, Universe, Variable};
use std::sync::Arc;
use vstd::prelude::*;

verus! {

/// A size as a machine integer: the size itself while it fits, the largest
/// `usize` beyond that.
pub open spec fn saturated(n: nat) -> usize {
    if n > usize::MAX {
        usize::MAX
    } else {
        n as usize
    }
}

/// A term that can report its free variables and its structural size.
///
/// `spec_free_variables` and `spec_size` are the mathematical model of a term;
/// the executable methods compute exactly these.
pub trait Visit: Sized {
    /// The variables that occur in the term and are not bound by a binder
    /// inside it, in traversal order, with multiplicity.
    spec fn spec_free_variables(&self) -> Seq<Variable>;

    /// The number of leaves of the term.
    spec fn spec_size(&self) -> nat;

    /// Extracts the free variables, in a fixed order and without removing
    /// duplicates.
    fn free_variables(&self) -> (r: Vec<Variable>)
        ensures
            r@ == self.spec_free_variables(),
    ;

    /// Measures the term by counting its leaves. A size that does not fit in
    /// a `usize` is reported as `usize::MAX`.
    fn size(&self) -> (n: usize)
        ensures
            n == saturated(self.spec_size()),
    ;

    /// True if every free variable of the term is a placeholder; in
    /// particular, true of a term without free variables.
    fn references_only_placeholder_variables(&self) -> (r: bool)
        ensures
            r == only_placeholders(self.spec_free_variables()),
    {
        let vars = self.free_variables();
        let mut i: usize = 0;
        while i < vars.len()
            invariant
                i <= vars.len(),
                vars@ == self.spec_free_variables(),
                forall|j: int| 0 <= j < i ==> (#[trigger] vars@[j]) is PlaceholderVar,
            decreases vars.len() - i,
        {
            if !vars[i].is_placeholder() {
                assert(!(vars@[i as int] is PlaceholderVar));
                return false;
            }
            i = i + 1;
        }
        true
    }

    /// The greatest universe of any free variable of the term, where only a
    /// placeholder counts for more than the root universe.
    fn max_universe(&self) -> (r: Universe)
        ensures
            r == greatest_universe(self.spec_free_variables()),
    {
        let vars = self.free_variables();
        let mut best = Universe::root();
        let mut i: usize = 0;
        while i < vars.len()
            invariant
                i <= vars.len(),
                best == greatest_universe(vars@.take(i as int)),
            decreases vars.len() - i,
        {
            proof {
                assert(vars@.take(i + 1).drop_last() == vars@.take(i as int));
            }
            best = best.max(vars[i].universe());
            i = i + 1;
        }
        proof {
            assert(vars@.take(vars.len() as int) == vars@);
        }
        best
    }
}

/// The free variables of the elements of `s`, concatenated in element order.
pub open spec fn seq_free_variables<T: Visit>(s: Seq<T>) -> Seq<Variable>
    decreases s.len(),
{
    if s.len() == 0 {
        Seq::empty()
    } else {
        seq_free_variables(s.drop_last()) + s.last().spec_free_variables()
    }
}

/// The sum of the sizes of the elements of `s`.
pub open spec fn seq_size<T: Visit>(s: Seq<T>) -> nat
    decreases s.len(),
{
    if s.len() == 0 {
        0
    } else {
        seq_size(s.drop_last()) + s.last().spec_size()
    }
}

/// The free variables of a concatenation are those of the first part followed
/// by those of the second.
pub proof fn lemma_seq_free_variables_concat<T: Visit>(a: Seq<T>, b: Seq<T>)
    ensures
        seq_free_variables(a + b) == seq_free_variables(a) + seq_free_variables(b),
    decreases b.len(),
{
    if b.len() == 0 {
        assert(a + b == a);
        assert(seq_free_variables(a) + Seq::<Variable>::empty() == seq_free_variables(a));
    } else {
        assert((a + b).drop_last() == a + b.drop_last());
        assert((a + b).last() == b.last());
        lemma_seq_free_variables_concat(a, b.drop_last());
        assert(seq_free_variables(a) + (seq_free_variables(b.drop_last())
            + b.last().spec_free_variables()) == (seq_free_variables(a) + seq_free_variables(
            b.drop_last(),
        )) + b.last().spec_free_variables());
    }
}

/// The size of a sequence is the sum of the sizes of its elements: nothing
/// for the empty sequence, the element's size for a sequence of one, and the
/// sum of the two parts' sizes for a concatenation.
pub proof fn lemma_seq_size_is_sum<T: Visit>(a: Seq<T>, b: Seq<T>, x: T)
    ensures
        seq_size(Seq::<T>::empty()) == 0,
        seq_size(seq![x]) == x.spec_size(),
        seq_size(a + b) == seq_size(a) + seq_size(b),
    decreases b.len(),
{
    assert(seq![x].drop_last() == Seq::<T>::empty());
    assert(seq_size(seq![x]) == seq_size(seq![x].drop_last()) + seq![x].last().spec_size());
    if b.len() == 0 {
        assert(a + b == a);
    } else {
        assert((a + b).drop_last() == a + b.drop_last());
        assert((a + b).last() == b.last());
        lemma_seq_size_is_sum(a, b.drop_last(), x);
    }
}

/// How size composes: a numeric leaf counts one, an absent optional value
/// nothing, and a present one, a shared handle or a reference as much as
/// what it holds; a tuple counts the sum of its components.
pub proof fn lemma_size_composition<A: Visit, B: Visit, C: Visit>(a: A, b: B, c: C, n: usize, m: u32)
    ensures
        n.spec_size() == 1,
        m.spec_size() == 1,
        None::<A>.spec_size() == 0,
        Some(a).spec_size() == a.spec_size(),
        Arc::new(a).spec_size() == a.spec_size(),
        (&a).spec_size() == a.spec_size(),
        (a, b).spec_size() == a.spec_size() + b.spec_size(),
        (a, b, c).spec_size() == a.spec_size() + b.spec_size() + c.spec_size(),
{
}

/// A term without free variables lies in the root universe and references
/// only placeholder variables.
pub proof fn lemma_closed_term_is_ground<T: Visit>(t: T)
    requires
        t.spec_free_variables().len() == 0,
    ensures
        greatest_universe(t.spec_free_variables()) == Universe::spec_root(),
        only_placeholders(t.spec_free_variables()),
{
}

/// Deriving the free variables of one term twice gives the same sequence:
/// any two results that `free_variables` can return for `t` are equal, element
/// by element and in order.
pub proof fn lemma_free_variables_deterministic<T: Visit>(
    t: T,
    first: Vec<Variable>,
    second: Vec<Variable>,
)
    requires
        call_ensures(T::free_variables, (&t,), first),
        call_ensures(T::free_variables, (&t,), second),
    ensures
        first@ == second@,
{
}

/// The saturating sum of two sizes. Where each is the saturated form of a
/// true size, the result is the saturated form of the true total.
pub fn add_sizes(a: usize, b: usize) -> (r: usize)
    ensures
        r == (if a + b > usize::MAX {
            usize::MAX
        } else {
            (a + b) as usize
        }),
        forall|x: nat, y: nat|
            #![trigger saturated(x), saturated(y)]
            a == saturated(x) && b == saturated(y) ==> r == saturated(x + y),
{
    a.saturating_add(b)
}

impl<T: Visit> Visit for Vec<T> {
    open spec fn spec_free_variables(&self) -> Seq<Variable> {
        seq_free_variables(self@)
    }

    open spec fn spec_size(&self) -> nat {
        seq_size(self@)
    }

    fn free_variables(&self) -> (r: Vec<Variable>) {
        let mut out: Vec<Variable> = Vec::new();
        let mut i: usize = 0;
        while i < self.len()
            invariant
                i <= self.len(),
                out@ == seq_free_variables(self@.take(i as int)),
            decreases self.len() - i,
        {
            let mut vars = self[i].free_variables();
            proof {
                assert(self@.take(i + 1).drop_last() == self@.take(i as int));
            }
            out.append(&mut vars);
            i = i + 1;
        }
        proof {
            assert(self@.take(self.len() as int) == self@);
            assert(out@ == self.spec_free_variables());
        }
        out
    }

    fn size(&self) -> (n: usize) {
        let mut total: usize = 0;
        let mut i: usize = 0;
        while i < self.len()
            invariant
                i <= self.len(),
                total == saturated(seq_size(self@.take(i as int))),
            decreases self.len() - i,
        {
            proof {
                assert(self@.take(i + 1).drop_last() == self@.take(i as int));
            }
            total = add_sizes(total, self[i].size());
            i = i + 1;
        }
        proof {
            assert(self@.take(self.len() as int) == self@);
        }
        total
    }
}

impl<T: Visit> Visit for Option<T> {
    open spec fn spec_free_variables(&self) -> Seq<Variable> {
        match *self {
            Some(e) => e.spec_free_variables(),
            None => Seq::empty(),
        }
    }

    open spec fn spec_size(&self) -> nat {
        match *self {
            Some(e) => e.spec_size(),
            None => 0,
        }
    }

    fn free_variables(&self) -> (r: Vec<Variable>) {
        match self {
            Some(e) => e.free_variables(),
            None => Vec::new(),
        }
    }

    fn size(&self) -> (n: usize) {
        match self {
            Some(e) => e.size(),
            None => 0,
        }
    }
}

impl<T: Visit> Visit for Arc<T> {
    open spec fn spec_free_variables(&self) -> Seq<Variable> {
        (**self).spec_free_variables()
    }

    open spec fn spec_size(&self) -> nat {
        (**self).spec_size()
    }

    fn free_variables(&self) -> (r: Vec<Variable>) {
        (**self).free_variables()
    }

    fn size(&self) -> (n: usize) {
        (**self).size()
    }
}

impl<A: Visit> Visit for &A {
    open spec fn spec_free_variables(&self) -> Seq<Variable> {
        (**self).spec_free_variables()
    }

    open spec fn spec_size(&self) -> nat {
        (**self).spec_size()
    }

    fn free_variables(&self) -> (r: Vec<Variable>) {
        (**self).free_variables()
    }

    fn size(&self) -> (n: usize) {
        (**self).size()
    }
}

impl Visit for usize {
    open spec fn spec_free_variables(&self) -> Seq<Variable> {
        Seq::empty()
    }

    open spec fn spec_size(&self) -> nat {
        1
    }

    fn free_variables(&self) -> (r: Vec<Variable>) {
        Vec::new()
    }

    fn size(&self) -> (n: usize) {
        1
    }
}

impl Visit for u32 {
    open spec fn spec_free_variables(&self) -> Seq<Variable> {
        Seq::empty()
    }

    open spec fn spec_size(&self) -> nat {
        1
    }

    fn free_variables(&self) -> (r: Vec<Variable>) {
        Vec::new()
    }

    fn size(&self) -> (n: usize) {
        1
    }
}

impl<A: Visit, B: Visit> Visit for (A, B) {
    open spec fn spec_free_variables(&self) -> Seq<Variable> {
        self.0.spec_free_variables() + self.1.spec_free_variables()
    }

    open spec fn spec_size(&self) -> nat {
        self.0.spec_size() + self.1.spec_size()
    }

    fn free_variables(&self) -> (r: Vec<Variable>) {
        let mut out = self.0.free_variables();
        let mut second = self.1.free_variables();
        out.append(&mut second);
        out
    }

    fn size(&self) -> (n: usize) {
        add_sizes(self.0.size(), self.1.size())
    }
}

impl<A: Visit, B: Visit, C: Visit> Visit for (A, B, C) {
    open spec fn spec_free_variables(&self) -> Seq<Variable> {
        self.0.spec_free_variables() + self.1.spec_free_variables() + self.2.spec_free_variables()
    }

    open spec fn spec_size(&self) -> nat {
        self.0.spec_size() + self.1.spec_size() + self.2.spec_size()
    }

    fn free_variables(&self) -> (r: Vec<Variable>) {
        let mut out = self.0.free_variables();
        let mut second = self.1.free_variables();
        let mut third = self.2.free_variables();
        out.append(&mut second);
        out.append(&mut third);
        out
    }

    fn size(&self) -> (n: usize) {
        let n = add_sizes(self.0.size(), self.1.size());
        add_sizes(n, self.2.size())
    }
}

} // verus!
