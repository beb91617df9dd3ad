//! Universes and the three kinds of logical variables.

use crate::visit::Visit;
use vstd::prelude::*;

verus! {

/// The rank of a universally quantified scope. Universes are totally ordered
/// by `index`; the root universe is the least one.
#[derive(Clone, Copy, Debug, PartialEq, Eq, PartialOrd, Ord, Hash, Structural)]
pub struct Universe {
    pub index: usize,
}

impl Universe {
    /// The least universe, of rank 0.
    pub open spec fn spec_root() -> Universe {
        Universe { index: 0 }
    }

    /// The least universe, of rank 0.
    #[verifier::when_used_as_spec(spec_root)]
    pub fn root() -> (r: Universe)
        ensures
            r == Universe::spec_root(),
    {
        Universe { index: 0 }
    }

    /// The larger of two universes.
    pub fn max(self, other: Universe) -> (r: Universe)
        ensures
            r == max_universe(self, other),
    {
        if self.index >= other.index {
            self
        } else {
            other
        }
    }
}

/// The larger of two universes; `a` when they are equal.
pub open spec fn max_universe(a: Universe, b: Universe) -> Universe {
    if a.index >= b.index {
        a
    } else {
        b
    }
}

/// Whether a variable stands for a type or for a lifetime.
#[derive(Clone, Copy, Debug, PartialEq, Eq, PartialOrd, Ord, Hash, Structural)]
pub enum ParameterKind {
    Ty,
    Lt,
}

/// A universally quantified constant, introduced when a binder is opened for
/// universal reasoning.
#[derive(Clone, Copy, Debug, PartialEq, Eq, PartialOrd, Ord, Hash, Structural)]
pub struct PlaceholderVar {
    pub universe: Universe,
    pub var_index: usize,
}

/// An existential unknown, to be solved by unification.
#[derive(Clone, Copy, Debug, PartialEq, Eq, PartialOrd, Ord, Hash, Structural)]
pub struct InferenceVar {
    pub index: usize,
}

/// A positional reference into an enclosing binder. `debruijn` counts the
/// binders between the occurrence and the binder it refers to (0 is the
/// innermost enclosing binder); `var_index` is the position among the
/// variables which that binder introduces.
#[derive(Clone, Copy, Debug, PartialEq, Eq, PartialOrd, Ord, Hash, Structural)]
pub struct BoundVar {
    pub debruijn: usize,
    pub var_index: usize,
}

/// A logical variable: exactly one of the three kinds.
#[derive(Clone, Copy, Debug, PartialEq, Eq, PartialOrd, Ord, Hash, Structural)]
pub enum Variable {
    PlaceholderVar(PlaceholderVar),
    InferenceVar(InferenceVar),
    BoundVar(BoundVar),
}

impl Variable {
    /// The universe a variable counts for: its own for a placeholder, the
    /// root universe for an inference or bound variable.
    pub open spec fn spec_universe(self) -> Universe {
        match self {
            Variable::PlaceholderVar(p) => p.universe,
            Variable::InferenceVar(_) => Universe::root(),
            Variable::BoundVar(_) => Universe::root(),
        }
    }

    /// The universe the variable counts for, as `spec_universe` defines it.
    #[verifier::when_used_as_spec(spec_universe)]
    pub fn universe(self) -> (r: Universe)
        ensures
            r == self.spec_universe(),
    {
        match self {
            Variable::PlaceholderVar(p) => p.universe,
            Variable::InferenceVar(_) => Universe::root(),
            Variable::BoundVar(_) => Universe::root(),
        }
    }

    /// The variable as it is seen from outside the binder that directly
    /// encloses it: nothing if that binder binds it, a bound variable one
    /// level nearer to its binder, any other variable unchanged.
    pub open spec fn spec_unbind(self) -> Option<Variable> {
        match self {
            Variable::BoundVar(b) => if b.debruijn == 0 {
                None
            } else {
                Some(
                    Variable::BoundVar(
                        BoundVar { debruijn: (b.debruijn - 1) as usize, var_index: b.var_index },
                    ),
                )
            },
            _ => Some(self),
        }
    }

    /// The variable as seen from outside the binder that directly encloses
    /// it, as `spec_unbind` defines it.
    #[verifier::when_used_as_spec(spec_unbind)]
    pub fn unbind(self) -> (r: Option<Variable>)
        ensures
            r == self.spec_unbind(),
    {
        match self {
            Variable::BoundVar(b) => if b.debruijn == 0 {
                None
            } else {
                Some(
                    Variable::BoundVar(
                        BoundVar { debruijn: b.debruijn - 1, var_index: b.var_index },
                    ),
                )
            },
            _ => Some(self),
        }
    }

    /// The variable after the binder that lies `depth` binders out has been
    /// opened with `replacements`. A bound variable of that binder becomes
    /// the replacement at its index, or stays as it is if there is none at
    /// that index. A bound variable of a binder further out moves one level
    /// nearer to it. Every other variable stays.
    pub open spec fn spec_replace(self, depth: usize, replacements: Seq<Variable>) -> Variable {
        match self {
            Variable::BoundVar(b) => if b.debruijn < depth {
                self
            } else if b.debruijn == depth {
                if b.var_index < replacements.len() {
                    replacements[b.var_index as int]
                } else {
                    self
                }
            } else {
                Variable::BoundVar(
                    BoundVar { debruijn: (b.debruijn - 1) as usize, var_index: b.var_index },
                )
            },
            _ => self,
        }
    }

    /// The variable after the binder `depth` levels out has been opened with
    /// `replacements`, as `spec_replace` defines it.
    pub fn replace(self, depth: usize, replacements: &Vec<Variable>) -> (r: Variable)
        ensures
            r == self.spec_replace(depth, replacements@),
    {
        match self {
            Variable::BoundVar(b) => if b.debruijn < depth {
                self
            } else if b.debruijn == depth {
                if b.var_index < replacements.len() {
                    replacements[b.var_index]
                } else {
                    self
                }
            } else {
                Variable::BoundVar(BoundVar { debruijn: b.debruijn - 1, var_index: b.var_index })
            },
            _ => self,
        }
    }

    /// The variable is a placeholder.
    pub open spec fn spec_is_placeholder(self) -> bool {
        self is PlaceholderVar
    }

    /// True for a placeholder, false for the other two kinds.
    #[verifier::when_used_as_spec(spec_is_placeholder)]
    pub fn is_placeholder(self) -> (r: bool)
        ensures
            r == (self is PlaceholderVar),
    {
        match self {
            Variable::PlaceholderVar(_) => true,
            Variable::InferenceVar(_) => false,
            Variable::BoundVar(_) => false,
        }
    }
}

/// A variable is a leaf, and it is free in itself.
impl Visit for Variable {
    open spec fn spec_free_variables(&self) -> Seq<Variable> {
        seq![*self]
    }

    open spec fn spec_size(&self) -> nat {
        1
    }

    fn free_variables(&self) -> (r: Vec<Variable>) {
        let mut out: Vec<Variable> = Vec::new();
        out.push(*self);
        assert(out@ =~= self.spec_free_variables());
        out
    }

    fn size(&self) -> (n: usize) {
        1
    }
}

impl From<PlaceholderVar> for Variable {
    fn from(v: PlaceholderVar) -> (r: Variable) {
        Variable::PlaceholderVar(v)
    }
}

impl vstd::std_specs::convert::FromSpecImpl<PlaceholderVar> for Variable {
    open spec fn obeys_from_spec() -> bool {
        true
    }

    open spec fn from_spec(v: PlaceholderVar) -> Variable {
        Variable::PlaceholderVar(v)
    }
}

impl From<InferenceVar> for Variable {
    fn from(v: InferenceVar) -> (r: Variable) {
        Variable::InferenceVar(v)
    }
}

impl vstd::std_specs::convert::FromSpecImpl<InferenceVar> for Variable {
    open spec fn obeys_from_spec() -> bool {
        true
    }

    open spec fn from_spec(v: InferenceVar) -> Variable {
        Variable::InferenceVar(v)
    }
}

impl From<BoundVar> for Variable {
    fn from(v: BoundVar) -> (r: Variable) {
        Variable::BoundVar(v)
    }
}

impl vstd::std_specs::convert::FromSpecImpl<BoundVar> for Variable {
    open spec fn obeys_from_spec() -> bool {
        true
    }

    open spec fn from_spec(v: BoundVar) -> Variable {
        Variable::BoundVar(v)
    }
}

/// Each variable of `vars` as opening the binder `depth` levels out with
/// `replacements` leaves it.
pub open spec fn replace_all(
    vars: Seq<Variable>,
    depth: usize,
    replacements: Seq<Variable>,
) -> Seq<Variable> {
    Seq::new(vars.len(), |i: int| vars[i].spec_replace(depth, replacements))
}

/// None of `vars` is a bound variable.
pub open spec fn no_bound_variables(vars: Seq<Variable>) -> bool {
    forall|i: int| 0 <= i < vars.len() ==> !((#[trigger] vars[i]) is BoundVar)
}

/// Replacing throughout a concatenation replaces throughout each part.
pub proof fn lemma_replace_all_concat(
    a: Seq<Variable>,
    b: Seq<Variable>,
    depth: usize,
    replacements: Seq<Variable>,
)
    ensures
        replace_all(a + b, depth, replacements) == replace_all(a, depth, replacements)
            + replace_all(b, depth, replacements),
{
    assert(replace_all(a + b, depth, replacements) =~= replace_all(a, depth, replacements)
        + replace_all(b, depth, replacements));
}

/// Opening a binder one level further in and then leaving the innermost
/// binder shows the same variable as leaving the innermost binder first and
/// opening at the level itself, as long as no replacement is a bound variable.
pub proof fn lemma_replace_then_unbind(v: Variable, depth: usize, replacements: Seq<Variable>)
    requires
        depth < usize::MAX,
        no_bound_variables(replacements),
    ensures
        v.spec_replace((depth + 1) as usize, replacements).spec_unbind() == (match v.spec_unbind() {
            Some(w) => Some(w.spec_replace(depth, replacements)),
            None => None,
        }),
{
    if let Variable::BoundVar(b) = v {
        if b.debruijn == depth + 1 && b.var_index < replacements.len() {
            assert(!(replacements[b.var_index as int] is BoundVar));
        }
    }
}

/// The greatest universe among the variables of `vars`, each counted by
/// `spec_universe`; the root universe when there are none.
pub open spec fn greatest_universe(vars: Seq<Variable>) -> Universe
    decreases vars.len(),
{
    if vars.len() == 0 {
        Universe::spec_root()
    } else {
        max_universe(greatest_universe(vars.drop_last()), vars.last().spec_universe())
    }
}

/// Every variable of `vars` is a placeholder.
pub open spec fn only_placeholders(vars: Seq<Variable>) -> bool {
    forall|i: int| 0 <= i < vars.len() ==> (#[trigger] vars[i]) is PlaceholderVar
}

/// `greatest_universe` is an upper bound of the universes in `vars`, and it is
/// the universe of one of them unless it is the root universe.
pub proof fn lemma_greatest_universe_is_maximum(vars: Seq<Variable>)
    ensures
        forall|i: int|
            0 <= i < vars.len() ==> (#[trigger] vars[i]).spec_universe().index <= greatest_universe(
                vars,
            ).index,
        greatest_universe(vars) == Universe::spec_root() || exists|i: int|
            0 <= i < vars.len() && (#[trigger] vars[i]).spec_universe() == greatest_universe(vars),
    decreases vars.len(),
{
    if vars.len() > 0 {
        let init = vars.drop_last();
        lemma_greatest_universe_is_maximum(init);
        assert forall|i: int| 0 <= i < vars.len() implies (#[trigger] vars[i]).spec_universe().index
            <= greatest_universe(vars).index by {
            if i < init.len() {
                assert(init[i] == vars[i]);
            }
        }
        if greatest_universe(vars) != Universe::spec_root() {
            if greatest_universe(vars) == vars.last().spec_universe() {
                assert(vars[vars.len() - 1].spec_universe() == greatest_universe(vars));
            } else {
                let j = choose|j: int|
                    0 <= j < init.len() && (#[trigger] init[j]).spec_universe()
                        == greatest_universe(init);
                assert(vars[j] == init[j]);
            }
        }
    }
}

} // verus!
