//! The scoping construct: a payload together with the variables it binds.

use crate::fold::{inner_depth, opens_faithfully, spec_inner_depth, Fold};
use crate::variable::{
    lemma_replace_all_concat, lemma_replace_then_unbind, no_bound_variables, only_placeholders,
    replace_all, BoundVar, InferenceVar, ParameterKind, PlaceholderVar, Universe, Variable,
};
use crate::visit::Visit;
use vstd::prelude::*;

verus! {

/// A term `term` in which the bound variables with `debruijn == 0` refer to
/// this binder: a bound variable `BoundVar { debruijn: 0, var_index: i }` at
/// the top level of `term` is the `i`-th variable that the binder introduces,
/// of kind `kinds[i]`. Under each further binder inside `term` the same
/// variable is written with `debruijn` one higher.
#[derive(Clone, Debug, PartialEq, Eq, PartialOrd, Ord, Hash)]
pub struct Binder<T> {
    pub kinds: Vec<ParameterKind>,
    pub term: T,
}

/// What remains free of the payload's free variables `vars` once the binder
/// is closed over them: the binder's own variables are dropped, and every
/// other variable is kept, in order, as `spec_unbind` shows it.
pub open spec fn close_over(vars: Seq<Variable>) -> Seq<Variable> {
    vars.filter_map(|v: Variable| v.spec_unbind())
}

impl<T> Binder<T> {
    /// Binds the variables `BoundVar { debruijn: 0, var_index: i }` of `term`
    /// for `i < kinds.len()`, the `i`-th with kind `kinds[i]`.
    pub fn new(kinds: Vec<ParameterKind>, term: T) -> (r: Binder<T>)
        ensures
            r.kinds == kinds,
            r.term == term,
    {
        Binder { kinds, term }
    }

    /// How many variables the binder introduces.
    pub fn len(&self) -> (n: usize)
        ensures
            n == self.kinds@.len(),
    {
        self.kinds.len()
    }

    /// The kinds of the variables the binder introduces, in index order.
    pub fn kinds(&self) -> (r: &Vec<ParameterKind>)
        ensures
            r == self.kinds,
    {
        &self.kinds
    }

    /// The payload as it stands, with the binder's variables still bound.
    pub fn peek(&self) -> (r: &T)
        ensures
            r == self.term,
    {
        &self.term
    }
}

impl<T: Visit> Visit for Binder<T> {
    open spec fn spec_free_variables(&self) -> Seq<Variable> {
        close_over(self.term.spec_free_variables())
    }

    open spec fn spec_size(&self) -> nat {
        self.term.spec_size()
    }

    fn free_variables(&self) -> (r: Vec<Variable>) {
        let inner = self.term.free_variables();
        let ghost unbind = |v: Variable| v.spec_unbind();
        let mut out: Vec<Variable> = Vec::new();
        let mut i: usize = 0;
        while i < inner.len()
            invariant
                i <= inner.len(),
                unbind == (|v: Variable| v.spec_unbind()),
                out@ == inner@.take(i as int).filter_map(unbind),
            decreases inner.len() - i,
        {
            proof {
                inner@.lemma_filter_map_take_succ(unbind, i as int);
            }
            match inner[i].unbind() {
                Some(v) => {
                    out.push(v);
                },
                None => {},
            }
            i = i + 1;
        }
        proof {
            assert(inner@.take(inner.len() as int) == inner@);
        }
        out
    }

    fn size(&self) -> (n: usize) {
        self.term.size()
    }
}

/// Opening a binder that lies around this one reaches the payload one level
/// deeper. The kinds stay as they are.
impl<T: Fold> Fold for Binder<T> {
    open spec fn instantiates_to(
        &self,
        depth: usize,
        replacements: Seq<Variable>,
        result: &Binder<T>,
    ) -> bool {
        &&& result.kinds@ == self.kinds@
        &&& self.term.instantiates_to(spec_inner_depth(depth), replacements, &result.term)
    }

    open spec fn binder_depth(&self) -> nat {
        self.term.binder_depth() + 1
    }

    proof fn lemma_instantiate(
        &self,
        depth: usize,
        replacements: Seq<Variable>,
        result: &Binder<T>,
    ) {
        self.term.lemma_instantiate(spec_inner_depth(depth), replacements, &result.term);
        if opens_faithfully(depth, self.binder_depth(), replacements) {
            lemma_close_over_replace_all(self.term.spec_free_variables(), depth, replacements);
        }
    }

    fn instantiate(&self, depth: usize, replacements: &Vec<Variable>) -> (r: Binder<T>) {
        let mut kinds: Vec<ParameterKind> = Vec::new();
        let mut i: usize = 0;
        while i < self.kinds.len()
            invariant
                i <= self.kinds.len(),
                kinds@ == self.kinds@.take(i as int),
            decreases self.kinds.len() - i,
        {
            kinds.push(self.kinds[i]);
            i = i + 1;
        }
        proof {
            assert(self.kinds@.take(self.kinds.len() as int) == self.kinds@);
        }
        Binder { kinds, term: self.term.instantiate(inner_depth(depth), replacements) }
    }
}

/// The placeholders of universe `universe` with the indices `0..n`, in order.
pub open spec fn placeholders(universe: Universe, n: nat) -> Seq<Variable> {
    Seq::new(
        n,
        |i: int| Variable::PlaceholderVar(PlaceholderVar { universe, var_index: i as usize }),
    )
}

/// The inference variables with the indices `first..first + n`, in order.
pub open spec fn inference_variables(first: usize, n: nat) -> Seq<Variable> {
    Seq::new(n, |i: int| Variable::InferenceVar(InferenceVar { index: (first + i) as usize }))
}

impl<T: Fold> Binder<T> {
    /// Opens the binder: the payload with the binder's `i`-th variable
    /// replaced by `replacements[i]`. A variable of the binder whose index
    /// has no replacement is left in place.
    pub fn instantiate_with(&self, replacements: &Vec<Variable>) -> (r: T)
        ensures
            self.term.instantiates_to(0, replacements@, &r),
    {
        self.term.instantiate(0, replacements)
    }

    /// Opens the binder for universal reasoning: its `i`-th variable becomes
    /// the placeholder of `universe` with index `i`.
    pub fn open_universally(&self, universe: Universe) -> (r: T)
        ensures
            self.term.instantiates_to(0, placeholders(universe, self.kinds@.len()), &r),
    {
        let mut replacements: Vec<Variable> = Vec::new();
        let mut i: usize = 0;
        while i < self.kinds.len()
            invariant
                i <= self.kinds.len(),
                replacements@ == placeholders(universe, i as nat),
            decreases self.kinds.len() - i,
        {
            replacements.push(Variable::PlaceholderVar(PlaceholderVar { universe, var_index: i }));
            i = i + 1;
        }
        self.term.instantiate(0, &replacements)
    }

    /// Opens the binder for existential reasoning: its `i`-th variable
    /// becomes the inference variable with index `first + i`. There is no
    /// result when these indices do not all fit in a `usize`.
    pub fn open_existentially(&self, first: usize) -> (r: Option<T>)
        ensures
            r is Some <==> self.kinds@.len() == 0 || first + self.kinds@.len() - 1 <= usize::MAX,
            r matches Some(t) ==> self.term.instantiates_to(
                0,
                inference_variables(first, self.kinds@.len()),
                &t,
            ),
    {
        let n = self.kinds.len();
        if n > 0 && first > usize::MAX - (n - 1) {
            return None;
        }
        let mut replacements: Vec<Variable> = Vec::new();
        let mut i: usize = 0;
        while i < n
            invariant
                i <= n,
                n == self.kinds@.len(),
                n == 0 || first + n - 1 <= usize::MAX,
                replacements@ == inference_variables(first, i as nat),
            decreases n - i,
        {
            replacements.push(Variable::InferenceVar(InferenceVar { index: first + i }));
            i = i + 1;
        }
        Some(self.term.instantiate(0, &replacements))
    }
}

impl<T> Binder<T> {
    /// `v`, met at the top level of the payload, is one of the variables that
    /// the binder introduces.
    pub open spec fn binds(&self, v: Variable) -> bool {
        &&& v matches Variable::BoundVar(b)
        &&& b.debruijn == 0
        &&& b.var_index < self.kinds@.len()
    }
}

/// Closing a binder commutes with opening one around it: to open one level
/// further in and then close gives what closing first and then opening gives.
pub proof fn lemma_close_over_replace_all(
    vars: Seq<Variable>,
    depth: usize,
    replacements: Seq<Variable>,
)
    requires
        depth < usize::MAX,
        no_bound_variables(replacements),
    ensures
        close_over(replace_all(vars, (depth + 1) as usize, replacements)) == replace_all(
            close_over(vars),
            depth,
            replacements,
        ),
    decreases vars.len(),
{
    let inner = (depth + 1) as usize;
    let replaced = replace_all(vars, inner, replacements);
    if vars.len() == 0 {
        assert(close_over(vars) =~= Seq::<Variable>::empty());
        assert(close_over(replaced) =~= Seq::<Variable>::empty());
        assert(replace_all(close_over(vars), depth, replacements) =~= Seq::<Variable>::empty());
    } else {
        let init = vars.drop_last();
        let v = vars.last();
        lemma_close_over_replace_all(init, depth, replacements);
        lemma_replace_then_unbind(v, depth, replacements);
        assert(replaced.drop_last() =~= replace_all(init, inner, replacements));
        assert(replaced.last() == v.spec_replace(inner, replacements));
        match v.spec_unbind() {
            Some(w) => {
                let w2 = w.spec_replace(depth, replacements);
                assert(close_over(vars) == close_over(init) + seq![w]);
                assert(close_over(replaced) == close_over(replaced.drop_last()) + seq![w2]);
                lemma_replace_all_concat(close_over(init), seq![w], depth, replacements);
                assert(replace_all(seq![w], depth, replacements) =~= seq![w2]);
            },
            None => {
                assert(close_over(vars) == close_over(init));
                assert(close_over(replaced) == close_over(replaced.drop_last()));
            },
        }
    }
}

/// What opening a binder does to the free variables of its payload. Where
/// the binders inside the payload nest less than `usize::MAX` deep and no
/// replacement is a bound variable, the opened term has the payload's free
/// variables, each replaced as `Variable::spec_replace` says at depth 0: the
/// binder's `i`-th variable by `replacements[i]`, a variable of a binder
/// further out by itself one level nearer, any other variable by itself.
/// The size does not change.
pub proof fn lemma_opened_free_variables<T: Fold>(
    b: Binder<T>,
    replacements: Seq<Variable>,
    opened: T,
)
    requires
        b.term.instantiates_to(0, replacements, &opened),
        b.term.binder_depth() <= usize::MAX,
        no_bound_variables(replacements),
    ensures
        opened.spec_free_variables() == replace_all(b.term.spec_free_variables(), 0, replacements),
        opened.spec_size() == b.spec_size(),
{
    b.term.lemma_instantiate(0, replacements, &opened);
}

/// Opening a binder with placeholders replaces every occurrence of the
/// variables it introduces: where the payload has the binder's `i`-th
/// variable free, the opened term has the placeholder of `universe` with
/// index `i`, at the same position among its free variables. If the payload
/// has no other free variables, the opened term references only placeholder
/// variables.
pub proof fn lemma_opened_universally<T: Fold>(b: Binder<T>, universe: Universe, opened: T)
    requires
        b.term.instantiates_to(0, placeholders(universe, b.kinds@.len()), &opened),
        b.term.binder_depth() <= usize::MAX,
    ensures
        opened.spec_free_variables().len() == b.term.spec_free_variables().len(),
        forall|k: int|
            0 <= k < b.term.spec_free_variables().len() && b.binds(
                #[trigger] b.term.spec_free_variables()[k],
            ) ==> opened.spec_free_variables()[k] == Variable::PlaceholderVar(
                PlaceholderVar {
                    universe,
                    var_index: b.term.spec_free_variables()[k]->BoundVar_0.var_index,
                },
            ),
        (forall|k: int|
            0 <= k < b.term.spec_free_variables().len() ==> b.binds(
                #[trigger] b.term.spec_free_variables()[k],
            )) ==> only_placeholders(opened.spec_free_variables()),
{
    let replacements = placeholders(universe, b.kinds@.len());
    lemma_opened_free_variables(b, replacements, opened);
    let inner = b.term.spec_free_variables();
    let outer = opened.spec_free_variables();
    assert forall|k: int| 0 <= k < inner.len() && b.binds(#[trigger] inner[k]) implies outer[k]
        == Variable::PlaceholderVar(
        PlaceholderVar { universe, var_index: inner[k]->BoundVar_0.var_index },
    ) by {
        assert(outer[k] == inner[k].spec_replace(0, replacements));
    }
    if forall|k: int| 0 <= k < inner.len() ==> b.binds(#[trigger] inner[k]) {
        assert forall|k: int| 0 <= k < outer.len() implies (
        #[trigger] outer[k]) is PlaceholderVar by {
            assert(b.binds(inner[k]));
        }
    }
}

/// A variable is free in a binder exactly when the payload has a free
/// variable that shows as it from outside. So the binder's own variables,
/// which show as nothing, never escape it, and a bound variable that is free
/// in the binder refers to a binder around it: inside the payload it stands
/// with a `debruijn` of at least one.
pub proof fn lemma_binder_hides_own_variables<T: Visit>(b: Binder<T>, v: Variable)
    ensures
        b.spec_free_variables().contains(v) <==> exists|i: int|
            0 <= i < b.term.spec_free_variables().len() && (
            #[trigger] b.term.spec_free_variables()[i]).spec_unbind() == Some(v),
        b.spec_free_variables().contains(v) && v is BoundVar
            ==> b.term.spec_free_variables().contains(
            Variable::BoundVar(
                BoundVar {
                    debruijn: (v->BoundVar_0.debruijn + 1) as usize,
                    var_index: v->BoundVar_0.var_index,
                },
            ),
        ),
{
    let inner = b.term.spec_free_variables();
    lemma_close_over_contains(inner, v);
    if b.spec_free_variables().contains(v) && v is BoundVar {
        let i = choose|i: int|
            0 <= i < inner.len() && (#[trigger] inner[i]).spec_unbind() == Some(v);
        assert(inner[i] is BoundVar);
        assert(inner[i]->BoundVar_0.debruijn == v->BoundVar_0.debruijn + 1);
        assert(inner.contains(inner[i]));
    }
}

/// A binder whose payload has no free variables but the binder's own is
/// closed: it has no free variables at all.
pub proof fn lemma_binder_over_own_variables_is_closed<T: Visit>(b: Binder<T>)
    requires
        forall|k: int|
            0 <= k < b.term.spec_free_variables().len() ==> b.binds(
                #[trigger] b.term.spec_free_variables()[k],
            ),
    ensures
        b.spec_free_variables() == Seq::<Variable>::empty(),
{
    let outer = b.spec_free_variables();
    if outer.len() > 0 {
        let v = outer[0];
        assert(outer.contains(v));
        lemma_close_over_contains(b.term.spec_free_variables(), v);
        let i = choose|i: int|
            0 <= i < b.term.spec_free_variables().len() && (
            #[trigger] b.term.spec_free_variables()[i]).spec_unbind() == Some(v);
        assert(b.binds(b.term.spec_free_variables()[i]));
    }
    assert(outer =~= Seq::<Variable>::empty());
}

/// `close_over(vars)` holds `v` exactly when some variable of `vars` shows as
/// `v` from outside the binder.
pub proof fn lemma_close_over_contains(vars: Seq<Variable>, v: Variable)
    ensures
        close_over(vars).contains(v) <==> exists|i: int|
            0 <= i < vars.len() && (#[trigger] vars[i]).spec_unbind() == Some(v),
    decreases vars.len(),
{
    let unbind = |v: Variable| v.spec_unbind();
    if vars.len() == 0 {
        assert(close_over(vars) == Seq::<Variable>::empty());
    } else {
        let init = vars.drop_last();
        lemma_close_over_contains(init, v);
        let tail: Seq<Variable> = match unbind(vars.last()) {
            Some(w) => seq![w],
            None => Seq::empty(),
        };
        assert(close_over(vars) == close_over(init) + tail);
        if close_over(vars).contains(v) {
            let k = choose|k: int| 0 <= k < close_over(vars).len() && close_over(vars)[k] == v;
            if k < close_over(init).len() {
                assert(close_over(init)[k] == v);
                assert(close_over(init).contains(v));
                let i = choose|i: int|
                    0 <= i < init.len() && (#[trigger] init[i]).spec_unbind() == Some(v);
                assert(vars[i] == init[i]);
            } else {
                assert(tail[k - close_over(init).len()] == v);
                assert(vars[vars.len() - 1].spec_unbind() == Some(v));
            }
        }
        if exists|i: int| 0 <= i < vars.len() && (#[trigger] vars[i]).spec_unbind() == Some(v) {
            let i = choose|i: int|
                0 <= i < vars.len() && (#[trigger] vars[i]).spec_unbind() == Some(v);
            if i < init.len() {
                assert(init[i] == vars[i]);
                assert(close_over(init).contains(v));
                let k = choose|k: int| 0 <= k < close_over(init).len() && close_over(init)[k] == v;
                assert(close_over(vars)[k] == v);
            } else {
                assert(tail == seq![v]);
                assert(close_over(vars)[close_over(init).len() as int] == v);
            }
        }
    }
}

} // verus!
