//! Opening a binder: replacing the variables it binds throughout its payload.

use crate::variable::{lemma_replace_all_concat, no_bound_variables, replace_all, Variable};
use crate::visit::{seq_free_variables, seq_size, Visit};
use std::sync::Arc;
use vstd::prelude::*;

verus! {

/// The depth under one more binder. Depths are counted in a `usize`; the
/// count stops at the largest one.
pub open spec fn spec_inner_depth(depth: usize) -> usize {
    if depth < usize::MAX {
        (depth + 1) as usize
    } else {
        depth
    }
}

/// The depth under one more binder, as `spec_inner_depth` defines it.
#[verifier::when_used_as_spec(spec_inner_depth)]
pub fn inner_depth(depth: usize) -> (r: usize)
    ensures
        r == spec_inner_depth(depth),
{
    depth.saturating_add(1)
}

/// The larger of two depths.
pub open spec fn deeper(a: nat, b: nat) -> nat {
    if a >= b {
        a
    } else {
        b
    }
}

/// Opening at `depth` a term whose binders nest `binder_depth` deep replaces
/// occurrences faithfully: the depth count never reaches its limit inside the
/// term, and no replacement is itself a bound variable.
pub open spec fn opens_faithfully(
    depth: usize,
    binder_depth: nat,
    replacements: Seq<Variable>,
) -> bool {
    &&& depth + binder_depth <= usize::MAX
    &&& no_bound_variables(replacements)
}

/// A term in which the variables of an enclosing binder can be replaced.
///
/// Seen from a term that lies under `depth` binders of its own surroundings,
/// the binder being opened is the one that bound variables with
/// `debruijn == depth` refer to. Instantiating replaces each of them by the
/// replacement at its `var_index` and rewrites every occurrence as
/// `Variable::spec_replace` says, going one level deeper under each binder
/// inside the term.
pub trait Fold: Visit {
    /// `result` is `self` with the variables at `depth` replaced by
    /// `replacements`, and with nothing else changed.
    spec fn instantiates_to(
        &self,
        depth: usize,
        replacements: Seq<Variable>,
        result: &Self,
    ) -> bool;

    /// The greatest number of binders of the term that lie one inside
    /// another.
    spec fn binder_depth(&self) -> nat;

    /// Builds the term that `self` instantiates to.
    fn instantiate(&self, depth: usize, replacements: &Vec<Variable>) -> (r: Self)
        ensures
            self.instantiates_to(depth, replacements@, &r),
    ;

    /// Instantiating keeps the size and the nesting of binders, and it acts on
    /// the free variables one by one: where the opening is faithful, the
    /// free variables of the result are those of the term, each replaced as
    /// `Variable::spec_replace` says, in the same order.
    proof fn lemma_instantiate(&self, depth: usize, replacements: Seq<Variable>, result: &Self)
        requires
            self.instantiates_to(depth, replacements, result),
        ensures
            result.spec_size() == self.spec_size(),
            result.binder_depth() == self.binder_depth(),
            opens_faithfully(depth, self.binder_depth(), replacements)
                ==> result.spec_free_variables() == replace_all(
                self.spec_free_variables(),
                depth,
                replacements,
            ),
    ;
}

/// The greatest binder depth among the elements of `s`.
pub open spec fn seq_binder_depth<T: Fold>(s: Seq<T>) -> nat
    decreases s.len(),
{
    if s.len() == 0 {
        0
    } else {
        deeper(seq_binder_depth(s.drop_last()), s.last().binder_depth())
    }
}

/// The law of `Fold::lemma_instantiate` for a sequence whose elements
/// instantiate one by one to those of `r`.
pub proof fn lemma_seq_instantiate<T: Fold>(
    s: Seq<T>,
    depth: usize,
    replacements: Seq<Variable>,
    r: Seq<T>,
)
    requires
        r.len() == s.len(),
        forall|i: int|
            0 <= i < s.len() ==> (#[trigger] s[i]).instantiates_to(depth, replacements, &r[i]),
    ensures
        seq_size(r) == seq_size(s),
        seq_binder_depth(r) == seq_binder_depth(s),
        opens_faithfully(depth, seq_binder_depth(s), replacements) ==> seq_free_variables(r)
            == replace_all(seq_free_variables(s), depth, replacements),
    decreases s.len(),
{
    if s.len() == 0 {
        assert(seq_free_variables(r) =~= replace_all(seq_free_variables(s), depth, replacements));
    } else {
        let s0 = s.drop_last();
        let r0 = r.drop_last();
        assert forall|i: int| 0 <= i < s0.len() implies (#[trigger] s0[i]).instantiates_to(
            depth,
            replacements,
            &r0[i],
        ) by {
            assert(s[i].instantiates_to(depth, replacements, &r[i]));
        }
        lemma_seq_instantiate(s0, depth, replacements, r0);
        assert(s[s.len() - 1].instantiates_to(depth, replacements, &r[s.len() - 1]));
        s.last().lemma_instantiate(depth, replacements, &r.last());
        if opens_faithfully(depth, seq_binder_depth(s), replacements) {
            lemma_replace_all_concat(
                seq_free_variables(s0),
                s.last().spec_free_variables(),
                depth,
                replacements,
            );
        }
    }
}

impl Fold for Variable {
    open spec fn instantiates_to(
        &self,
        depth: usize,
        replacements: Seq<Variable>,
        result: &Variable,
    ) -> bool {
        *result == self.spec_replace(depth, replacements)
    }

    open spec fn binder_depth(&self) -> nat {
        0
    }

    proof fn lemma_instantiate(
        &self,
        depth: usize,
        replacements: Seq<Variable>,
        result: &Variable,
    ) {
        assert(result.spec_free_variables() =~= replace_all(
            self.spec_free_variables(),
            depth,
            replacements,
        ));
    }

    fn instantiate(&self, depth: usize, replacements: &Vec<Variable>) -> (r: Variable) {
        self.replace(depth, replacements)
    }
}

impl Fold for usize {
    open spec fn instantiates_to(
        &self,
        depth: usize,
        replacements: Seq<Variable>,
        result: &usize,
    ) -> bool {
        *result == *self
    }

    open spec fn binder_depth(&self) -> nat {
        0
    }

    proof fn lemma_instantiate(&self, depth: usize, replacements: Seq<Variable>, result: &usize) {
        assert(result.spec_free_variables() =~= replace_all(
            self.spec_free_variables(),
            depth,
            replacements,
        ));
    }

    fn instantiate(&self, depth: usize, replacements: &Vec<Variable>) -> (r: usize) {
        *self
    }
}

impl Fold for u32 {
    open spec fn instantiates_to(
        &self,
        depth: usize,
        replacements: Seq<Variable>,
        result: &u32,
    ) -> bool {
        *result == *self
    }

    open spec fn binder_depth(&self) -> nat {
        0
    }

    proof fn lemma_instantiate(&self, depth: usize, replacements: Seq<Variable>, result: &u32) {
        assert(result.spec_free_variables() =~= replace_all(
            self.spec_free_variables(),
            depth,
            replacements,
        ));
    }

    fn instantiate(&self, depth: usize, replacements: &Vec<Variable>) -> (r: u32) {
        *self
    }
}

impl<T: Fold> Fold for Vec<T> {
    open spec fn instantiates_to(
        &self,
        depth: usize,
        replacements: Seq<Variable>,
        result: &Vec<T>,
    ) -> bool {
        &&& result@.len() == self@.len()
        &&& forall|i: int|
            0 <= i < self@.len() ==> (#[trigger] self@[i]).instantiates_to(
                depth,
                replacements,
                &result@[i],
            )
    }

    open spec fn binder_depth(&self) -> nat {
        seq_binder_depth(self@)
    }

    proof fn lemma_instantiate(&self, depth: usize, replacements: Seq<Variable>, result: &Vec<T>) {
        lemma_seq_instantiate(self@, depth, replacements, result@);
    }

    fn instantiate(&self, depth: usize, replacements: &Vec<Variable>) -> (r: Vec<T>) {
        let mut out: Vec<T> = Vec::new();
        let mut i: usize = 0;
        while i < self.len()
            invariant
                i <= self.len(),
                out@.len() == i,
                forall|j: int|
                    0 <= j < i ==> (#[trigger] self@[j]).instantiates_to(
                        depth,
                        replacements@,
                        &out@[j],
                    ),
            decreases self.len() - i,
        {
            out.push(self[i].instantiate(depth, replacements));
            i = i + 1;
        }
        out
    }
}

impl<T: Fold> Fold for Option<T> {
    open spec fn instantiates_to(
        &self,
        depth: usize,
        replacements: Seq<Variable>,
        result: &Option<T>,
    ) -> bool {
        match (*self, *result) {
            (Some(a), Some(b)) => a.instantiates_to(depth, replacements, &b),
            (None, None) => true,
            _ => false,
        }
    }

    open spec fn binder_depth(&self) -> nat {
        match *self {
            Some(e) => e.binder_depth(),
            None => 0,
        }
    }

    proof fn lemma_instantiate(
        &self,
        depth: usize,
        replacements: Seq<Variable>,
        result: &Option<T>,
    ) {
        match (*self, *result) {
            (Some(a), Some(b)) => {
                a.lemma_instantiate(depth, replacements, &b);
            },
            _ => {
                assert(result.spec_free_variables() =~= replace_all(
                    self.spec_free_variables(),
                    depth,
                    replacements,
                ));
            },
        }
    }

    fn instantiate(&self, depth: usize, replacements: &Vec<Variable>) -> (r: Option<T>) {
        match self {
            Some(e) => Some(e.instantiate(depth, replacements)),
            None => None,
        }
    }
}

impl<T: Fold> Fold for Arc<T> {
    open spec fn instantiates_to(
        &self,
        depth: usize,
        replacements: Seq<Variable>,
        result: &Arc<T>,
    ) -> bool {
        (**self).instantiates_to(depth, replacements, &**result)
    }

    open spec fn binder_depth(&self) -> nat {
        (**self).binder_depth()
    }

    proof fn lemma_instantiate(&self, depth: usize, replacements: Seq<Variable>, result: &Arc<T>) {
        (**self).lemma_instantiate(depth, replacements, &**result);
    }

    fn instantiate(&self, depth: usize, replacements: &Vec<Variable>) -> (r: Arc<T>) {
        Arc::new((**self).instantiate(depth, replacements))
    }
}

impl<A: Fold, B: Fold> Fold for (A, B) {
    open spec fn instantiates_to(
        &self,
        depth: usize,
        replacements: Seq<Variable>,
        result: &(A, B),
    ) -> bool {
        &&& self.0.instantiates_to(depth, replacements, &result.0)
        &&& self.1.instantiates_to(depth, replacements, &result.1)
    }

    open spec fn binder_depth(&self) -> nat {
        deeper(self.0.binder_depth(), self.1.binder_depth())
    }

    proof fn lemma_instantiate(&self, depth: usize, replacements: Seq<Variable>, result: &(A, B)) {
        self.0.lemma_instantiate(depth, replacements, &result.0);
        self.1.lemma_instantiate(depth, replacements, &result.1);
        lemma_replace_all_concat(
            self.0.spec_free_variables(),
            self.1.spec_free_variables(),
            depth,
            replacements,
        );
    }

    fn instantiate(&self, depth: usize, replacements: &Vec<Variable>) -> (r: (A, B)) {
        (self.0.instantiate(depth, replacements), self.1.instantiate(depth, replacements))
    }
}

impl<A: Fold, B: Fold, C: Fold> Fold for (A, B, C) {
    open spec fn instantiates_to(
        &self,
        depth: usize,
        replacements: Seq<Variable>,
        result: &(A, B, C),
    ) -> bool {
        &&& self.0.instantiates_to(depth, replacements, &result.0)
        &&& self.1.instantiates_to(depth, replacements, &result.1)
        &&& self.2.instantiates_to(depth, replacements, &result.2)
    }

    open spec fn binder_depth(&self) -> nat {
        deeper(deeper(self.0.binder_depth(), self.1.binder_depth()), self.2.binder_depth())
    }

    proof fn lemma_instantiate(
        &self,
        depth: usize,
        replacements: Seq<Variable>,
        result: &(A, B, C),
    ) {
        self.0.lemma_instantiate(depth, replacements, &result.0);
        self.1.lemma_instantiate(depth, replacements, &result.1);
        self.2.lemma_instantiate(depth, replacements, &result.2);
        lemma_replace_all_concat(
            self.0.spec_free_variables(),
            self.1.spec_free_variables(),
            depth,
            replacements,
        );
        lemma_replace_all_concat(
            self.0.spec_free_variables() + self.1.spec_free_variables(),
            self.2.spec_free_variables(),
            depth,
            replacements,
        );
    }

    fn instantiate(&self, depth: usize, replacements: &Vec<Variable>) -> (r: (A, B, C)) {
        (
            self.0.instantiate(depth, replacements),
            self.1.instantiate(depth, replacements),
            self.2.instantiate(depth, replacements),
        )
    }
}

} // verus!
