//! Types, lifetimes, generic arguments, trait references and predicates.

use crate::fold::Fold;
use crate::ids::{AdtId, AssociatedItemId, FnId, TraitId};
use crate::variable::{lemma_replace_all_concat, replace_all, Variable};
use crate::visit::{add_sizes, saturated, seq_free_variables, seq_size, Visit};
use std::sync::Arc;
use vstd::prelude::*;

verus! {

/// A primitive scalar type.
#[derive(Clone, Copy, Debug, PartialEq, Eq, PartialOrd, Ord, Hash, Structural)]
pub enum ScalarId {
    U8,
    U16,
    U32,
    U64,
    I8,
    I16,
    I32,
    I64,
    Bool,
    Usize,
    Isize,
}

/// The two kinds of reference types.
#[derive(Clone, Copy, Debug, PartialEq, Eq, PartialOrd, Ord, Hash, Structural)]
pub enum RefKind {
    Shared,
    Mut,
}

/// The head of a rigid type: what is applied to the generic arguments.
#[derive(Debug, PartialEq, Eq, PartialOrd, Ord, Hash)]
pub enum RigidName {
    AdtId(AdtId),
    ScalarId(ScalarId),
    Ref(RefKind),
    Tuple(usize),
    FnPtr(usize),
    FnDef(FnId),
}

impl Clone for RigidName {
    fn clone(&self) -> (r: RigidName)
        ensures
            r == *self,
    {
        match self {
            RigidName::AdtId(id) => RigidName::AdtId(id.clone()),
            RigidName::ScalarId(id) => RigidName::ScalarId(*id),
            RigidName::Ref(kind) => RigidName::Ref(*kind),
            RigidName::Tuple(arity) => RigidName::Tuple(*arity),
            RigidName::FnPtr(arity) => RigidName::FnPtr(*arity),
            RigidName::FnDef(id) => RigidName::FnDef(id.clone()),
        }
    }
}

/// A type whose head is known: `name` applied to `parameters`.
#[derive(Clone, Debug, PartialEq, Eq, PartialOrd, Ord, Hash)]
pub struct RigidTy {
    pub name: RigidName,
    pub parameters: Vec<Parameter>,
}

/// The associated type `item_id` of trait `trait_id`, applied to
/// `parameters`.
#[derive(Clone, Debug, PartialEq, Eq, PartialOrd, Ord, Hash)]
pub struct AliasTy {
    pub trait_id: TraitId,
    pub item_id: AssociatedItemId,
    pub parameters: Vec<Parameter>,
}

/// The alternatives of a type.
#[derive(Clone, Debug, PartialEq, Eq, PartialOrd, Ord, Hash)]
pub enum TyData {
    RigidTy(RigidTy),
    AliasTy(AliasTy),
    Variable(Variable),
}

/// A type. The data sits behind a shared handle, so that equal subterms can
/// be reused; a traversal sees through the handle.
#[derive(Clone, Debug, PartialEq, Eq, PartialOrd, Ord, Hash)]
pub struct Ty {
    pub data: Arc<TyData>,
}

impl Ty {
    /// The type with the alternatives `data`.
    pub fn new(data: TyData) -> (r: Ty)
        ensures
            *r.data == data,
    {
        Ty { data: Arc::new(data) }
    }

    /// The alternatives of the type.
    pub fn data(&self) -> (r: &TyData)
        ensures
            *r == *self.data,
    {
        &*self.data
    }
}

/// The alternatives of a lifetime.
#[derive(Clone, Copy, Debug, PartialEq, Eq, PartialOrd, Ord, Hash, Structural)]
pub enum LtData {
    Static,
    Variable(Variable),
}

/// A lifetime, behind a shared handle like a type.
#[derive(Clone, Debug, PartialEq, Eq, PartialOrd, Ord, Hash)]
pub struct Lt {
    pub data: Arc<LtData>,
}

impl Lt {
    /// The lifetime with the alternatives `data`.
    pub fn new(data: LtData) -> (r: Lt)
        ensures
            *r.data == data,
    {
        Lt { data: Arc::new(data) }
    }

    /// The alternatives of the lifetime.
    pub fn data(&self) -> (r: &LtData)
        ensures
            *r == *self.data,
    {
        &*self.data
    }
}

/// A generic argument: a type or a lifetime.
#[derive(Clone, Debug, PartialEq, Eq, PartialOrd, Ord, Hash)]
pub enum Parameter {
    Ty(Ty),
    Lt(Lt),
}

/// The free variables of a type.
pub open spec fn ty_free_variables(t: Ty) -> Seq<Variable>
    decreases t,
{
    match *t.data {
        TyData::RigidTy(r) => parameters_free_variables(r.parameters@),
        TyData::AliasTy(a) => parameters_free_variables(a.parameters@),
        TyData::Variable(v) => seq![v],
    }
}

/// The free variables of a list of generic arguments, in order.
pub open spec fn parameters_free_variables(ps: Seq<Parameter>) -> Seq<Variable>
    decreases ps,
{
    if ps.len() == 0 {
        Seq::empty()
    } else {
        parameters_free_variables(ps.drop_last()) + parameter_free_variables(ps.last())
    }
}

/// The free variables of a generic argument.
pub open spec fn parameter_free_variables(p: Parameter) -> Seq<Variable>
    decreases p,
{
    match p {
        Parameter::Ty(t) => ty_free_variables(t),
        Parameter::Lt(l) => l.spec_free_variables(),
    }
}

/// The size of a type: one for a variable, the leaves of the head plus the
/// sizes of the arguments otherwise.
pub open spec fn ty_size(t: Ty) -> nat
    decreases t,
{
    match *t.data {
        TyData::RigidTy(r) => 1 + parameters_size(r.parameters@),
        TyData::AliasTy(a) => 2 + parameters_size(a.parameters@),
        TyData::Variable(v) => 1,
    }
}

/// The sum of the sizes of a list of generic arguments.
pub open spec fn parameters_size(ps: Seq<Parameter>) -> nat
    decreases ps,
{
    if ps.len() == 0 {
        0
    } else {
        parameters_size(ps.drop_last()) + parameter_size(ps.last())
    }
}

/// The size of a generic argument.
pub open spec fn parameter_size(p: Parameter) -> nat
    decreases p,
{
    match p {
        Parameter::Ty(t) => ty_size(t),
        Parameter::Lt(l) => l.spec_size(),
    }
}

impl Visit for LtData {
    open spec fn spec_free_variables(&self) -> Seq<Variable> {
        match *self {
            LtData::Static => Seq::empty(),
            LtData::Variable(v) => seq![v],
        }
    }

    open spec fn spec_size(&self) -> nat {
        1
    }

    fn free_variables(&self) -> (r: Vec<Variable>) {
        match self {
            LtData::Static => Vec::new(),
            LtData::Variable(v) => v.free_variables(),
        }
    }

    fn size(&self) -> (n: usize) {
        1
    }
}

impl Visit for Lt {
    open spec fn spec_free_variables(&self) -> Seq<Variable> {
        self.data.spec_free_variables()
    }

    open spec fn spec_size(&self) -> nat {
        self.data.spec_size()
    }

    fn free_variables(&self) -> (r: Vec<Variable>) {
        self.data.free_variables()
    }

    fn size(&self) -> (n: usize) {
        self.data.size()
    }
}

fn collect_ty(t: &Ty) -> (r: Vec<Variable>)
    ensures
        r@ == ty_free_variables(*t),
    decreases t,
{
    match &*t.data {
        TyData::RigidTy(r) => collect_parameters(&r.parameters),
        TyData::AliasTy(a) => collect_parameters(&a.parameters),
        TyData::Variable(v) => v.free_variables(),
    }
}

fn collect_parameters(ps: &Vec<Parameter>) -> (r: Vec<Variable>)
    ensures
        r@ == parameters_free_variables(ps@),
    decreases ps,
{
    let mut out: Vec<Variable> = Vec::new();
    let mut i: usize = 0;
    while i < ps.len()
        invariant
            i <= ps.len(),
            out@ == parameters_free_variables(ps@.take(i as int)),
        decreases ps.len() - i,
    {
        let mut vars = collect_parameter(&ps[i]);
        proof {
            assert(ps@.take(i + 1).drop_last() == ps@.take(i as int));
        }
        out.append(&mut vars);
        i = i + 1;
    }
    proof {
        assert(ps@.take(ps.len() as int) == ps@);
    }
    out
}

fn collect_parameter(p: &Parameter) -> (r: Vec<Variable>)
    ensures
        r@ == parameter_free_variables(*p),
    decreases p,
{
    match p {
        Parameter::Ty(t) => collect_ty(t),
        Parameter::Lt(l) => l.free_variables(),
    }
}

fn measure_ty(t: &Ty) -> (n: usize)
    ensures
        n == saturated(ty_size(*t)),
    decreases t,
{
    match &*t.data {
        TyData::RigidTy(r) => add_sizes(1, measure_parameters(&r.parameters)),
        TyData::AliasTy(a) => add_sizes(2, measure_parameters(&a.parameters)),
        TyData::Variable(v) => 1,
    }
}

fn measure_parameters(ps: &Vec<Parameter>) -> (n: usize)
    ensures
        n == saturated(parameters_size(ps@)),
    decreases ps,
{
    let mut total: usize = 0;
    let mut i: usize = 0;
    while i < ps.len()
        invariant
            i <= ps.len(),
            total == saturated(parameters_size(ps@.take(i as int))),
        decreases ps.len() - i,
    {
        proof {
            assert(ps@.take(i + 1).drop_last() == ps@.take(i as int));
        }
        total = add_sizes(total, measure_parameter(&ps[i]));
        i = i + 1;
    }
    proof {
        assert(ps@.take(ps.len() as int) == ps@);
    }
    total
}

fn measure_parameter(p: &Parameter) -> (n: usize)
    ensures
        n == saturated(parameter_size(*p)),
    decreases p,
{
    match p {
        Parameter::Ty(t) => measure_ty(t),
        Parameter::Lt(l) => l.size(),
    }
}

/// A type has at least one leaf, and so has a generic argument.
pub proof fn lemma_ty_size_positive(t: Ty, p: Parameter)
    ensures
        ty_size(t) >= 1,
        parameter_size(p) >= 1,
{
}

/// On a list of generic arguments, the dedicated functions agree with the
/// general composition over sequences.
pub proof fn lemma_parameters_as_sequence(ps: Seq<Parameter>)
    ensures
        parameters_free_variables(ps) == seq_free_variables(ps),
        parameters_size(ps) == seq_size(ps),
    decreases ps.len(),
{
    if ps.len() > 0 {
        lemma_parameters_as_sequence(ps.drop_last());
    }
}

impl Visit for Ty {
    open spec fn spec_free_variables(&self) -> Seq<Variable> {
        ty_free_variables(*self)
    }

    open spec fn spec_size(&self) -> nat {
        ty_size(*self)
    }

    fn free_variables(&self) -> (r: Vec<Variable>) {
        collect_ty(self)
    }

    fn size(&self) -> (n: usize) {
        measure_ty(self)
    }
}

impl Visit for Parameter {
    open spec fn spec_free_variables(&self) -> Seq<Variable> {
        parameter_free_variables(*self)
    }

    open spec fn spec_size(&self) -> nat {
        parameter_size(*self)
    }

    fn free_variables(&self) -> (r: Vec<Variable>) {
        collect_parameter(self)
    }

    fn size(&self) -> (n: usize) {
        measure_parameter(self)
    }
}

/// The head of a rigid type is a leaf.
impl Visit for RigidName {
    open spec fn spec_free_variables(&self) -> Seq<Variable> {
        Seq::empty()
    }

    open spec fn spec_size(&self) -> nat {
        1
    }

    fn free_variables(&self) -> (r: Vec<Variable>) {
        Vec::new()
    }

    fn size(&self) -> (n: usize) {
        1
    }
}

impl Visit for RigidTy {
    open spec fn spec_free_variables(&self) -> Seq<Variable> {
        parameters_free_variables(self.parameters@)
    }

    open spec fn spec_size(&self) -> nat {
        1 + parameters_size(self.parameters@)
    }

    fn free_variables(&self) -> (r: Vec<Variable>) {
        collect_parameters(&self.parameters)
    }

    fn size(&self) -> (n: usize) {
        add_sizes(1, measure_parameters(&self.parameters))
    }
}

impl Visit for AliasTy {
    open spec fn spec_free_variables(&self) -> Seq<Variable> {
        parameters_free_variables(self.parameters@)
    }

    open spec fn spec_size(&self) -> nat {
        2 + parameters_size(self.parameters@)
    }

    fn free_variables(&self) -> (r: Vec<Variable>) {
        collect_parameters(&self.parameters)
    }

    fn size(&self) -> (n: usize) {
        add_sizes(2, measure_parameters(&self.parameters))
    }
}

impl Visit for TyData {
    open spec fn spec_free_variables(&self) -> Seq<Variable> {
        match *self {
            TyData::RigidTy(r) => r.spec_free_variables(),
            TyData::AliasTy(a) => a.spec_free_variables(),
            TyData::Variable(v) => v.spec_free_variables(),
        }
    }

    open spec fn spec_size(&self) -> nat {
        match *self {
            TyData::RigidTy(r) => r.spec_size(),
            TyData::AliasTy(a) => a.spec_size(),
            TyData::Variable(v) => v.spec_size(),
        }
    }

    fn free_variables(&self) -> (r: Vec<Variable>) {
        match self {
            TyData::RigidTy(r) => r.free_variables(),
            TyData::AliasTy(a) => a.free_variables(),
            TyData::Variable(v) => v.free_variables(),
        }
    }

    fn size(&self) -> (n: usize) {
        match self {
            TyData::RigidTy(r) => r.size(),
            TyData::AliasTy(a) => a.size(),
            TyData::Variable(v) => v.size(),
        }
    }
}

/// A trait applied to its generic arguments, the first of which is the
/// implementing type.
#[derive(Clone, Debug, PartialEq, Eq, PartialOrd, Ord, Hash)]
pub struct TraitRef {
    pub trait_id: TraitId,
    pub parameters: Vec<Parameter>,
}

impl Visit for TraitRef {
    open spec fn spec_free_variables(&self) -> Seq<Variable> {
        parameters_free_variables(self.parameters@)
    }

    open spec fn spec_size(&self) -> nat {
        1 + parameters_size(self.parameters@)
    }

    fn free_variables(&self) -> (r: Vec<Variable>) {
        collect_parameters(&self.parameters)
    }

    fn size(&self) -> (n: usize) {
        add_sizes(1, measure_parameters(&self.parameters))
    }
}

/// A condition that a where-clause can state.
#[derive(Clone, Debug, PartialEq, Eq, PartialOrd, Ord, Hash)]
pub enum Predicate {
    /// The trait reference has an implementation.
    IsImplemented(TraitRef),
    /// The associated type normalizes to the type.
    NormalizesTo(AliasTy, Ty),
    /// The type is well formed.
    WellFormedTy(Ty),
    /// The generic argument outlives the lifetime.
    Outlives(Parameter, Lt),
}

impl Visit for Predicate {
    open spec fn spec_free_variables(&self) -> Seq<Variable> {
        match *self {
            Predicate::IsImplemented(r) => r.spec_free_variables(),
            Predicate::NormalizesTo(a, t) => a.spec_free_variables() + t.spec_free_variables(),
            Predicate::WellFormedTy(t) => t.spec_free_variables(),
            Predicate::Outlives(p, l) => p.spec_free_variables() + l.spec_free_variables(),
        }
    }

    open spec fn spec_size(&self) -> nat {
        match *self {
            Predicate::IsImplemented(r) => r.spec_size(),
            Predicate::NormalizesTo(a, t) => a.spec_size() + t.spec_size(),
            Predicate::WellFormedTy(t) => t.spec_size(),
            Predicate::Outlives(p, l) => p.spec_size() + l.spec_size(),
        }
    }

    fn free_variables(&self) -> (r: Vec<Variable>) {
        match self {
            Predicate::IsImplemented(r) => r.free_variables(),
            Predicate::NormalizesTo(a, t) => {
                let mut out = a.free_variables();
                let mut more = t.free_variables();
                out.append(&mut more);
                out
            },
            Predicate::WellFormedTy(t) => t.free_variables(),
            Predicate::Outlives(p, l) => {
                let mut out = p.free_variables();
                let mut more = l.free_variables();
                out.append(&mut more);
                out
            },
        }
    }

    fn size(&self) -> (n: usize) {
        match self {
            Predicate::IsImplemented(r) => r.size(),
            Predicate::NormalizesTo(a, t) => add_sizes(a.size(), t.size()),
            Predicate::WellFormedTy(t) => t.size(),
            Predicate::Outlives(p, l) => add_sizes(p.size(), l.size()),
        }
    }
}

/// `r` is the type `t` with the variables at `depth` replaced by
/// `replacements`: the same head over the instantiated arguments, or the
/// replaced variable.
pub open spec fn ty_instantiates_to(
    t: Ty,
    depth: usize,
    replacements: Seq<Variable>,
    r: Ty,
) -> bool
    decreases t,
{
    match *t.data {
        TyData::RigidTy(a) => {
            &&& *r.data matches TyData::RigidTy(b)
            &&& b.name == a.name
            &&& parameters_instantiate_to(a.parameters@, depth, replacements, b.parameters@)
        },
        TyData::AliasTy(a) => {
            &&& *r.data matches TyData::AliasTy(b)
            &&& b.trait_id == a.trait_id
            &&& b.item_id == a.item_id
            &&& parameters_instantiate_to(a.parameters@, depth, replacements, b.parameters@)
        },
        TyData::Variable(v) => {
            &&& *r.data matches TyData::Variable(w)
            &&& w == v.spec_replace(depth, replacements)
        },
    }
}

/// `rs` holds, position by position, what the generic arguments `ps`
/// instantiate to.
pub open spec fn parameters_instantiate_to(
    ps: Seq<Parameter>,
    depth: usize,
    replacements: Seq<Variable>,
    rs: Seq<Parameter>,
) -> bool
    decreases ps,
{
    &&& rs.len() == ps.len()
    &&& forall|i: int|
        0 <= i < ps.len() ==> parameter_instantiates_to(
            #[trigger] ps[i],
            depth,
            replacements,
            rs[i],
        )
}

/// `r` is what the generic argument `p` instantiates to.
pub open spec fn parameter_instantiates_to(
    p: Parameter,
    depth: usize,
    replacements: Seq<Variable>,
    r: Parameter,
) -> bool
    decreases p,
{
    match p {
        Parameter::Ty(a) => r matches Parameter::Ty(b) && ty_instantiates_to(
            a,
            depth,
            replacements,
            b,
        ),
        Parameter::Lt(a) => r matches Parameter::Lt(b) && a.instantiates_to(
            depth,
            replacements,
            &b,
        ),
    }
}

/// Instantiating a type keeps its size and replaces its free variables one
/// by one.
pub proof fn lemma_ty_instantiate(t: Ty, depth: usize, replacements: Seq<Variable>, r: Ty)
    requires
        ty_instantiates_to(t, depth, replacements, r),
    ensures
        ty_size(r) == ty_size(t),
        ty_free_variables(r) == replace_all(ty_free_variables(t), depth, replacements),
    decreases t,
{
    match *t.data {
        TyData::RigidTy(a) => {
            match *r.data {
                TyData::RigidTy(b) => {
                    lemma_parameters_instantiate(a.parameters@, depth, replacements, b.parameters@);
                },
                _ => {},
            }
        },
        TyData::AliasTy(a) => {
            match *r.data {
                TyData::AliasTy(b) => {
                    lemma_parameters_instantiate(a.parameters@, depth, replacements, b.parameters@);
                },
                _ => {},
            }
        },
        TyData::Variable(v) => {
            assert(ty_free_variables(r) =~= replace_all(ty_free_variables(t), depth, replacements));
        },
    }
}

/// Instantiating a list of generic arguments keeps its size and replaces its
/// free variables one by one.
pub proof fn lemma_parameters_instantiate(
    ps: Seq<Parameter>,
    depth: usize,
    replacements: Seq<Variable>,
    rs: Seq<Parameter>,
)
    requires
        parameters_instantiate_to(ps, depth, replacements, rs),
    ensures
        parameters_size(rs) == parameters_size(ps),
        parameters_free_variables(rs) == replace_all(
            parameters_free_variables(ps),
            depth,
            replacements,
        ),
    decreases ps,
{
    if ps.len() == 0 {
        assert(parameters_free_variables(rs) =~= replace_all(
            parameters_free_variables(ps),
            depth,
            replacements,
        ));
    } else {
        let ps0 = ps.drop_last();
        let rs0 = rs.drop_last();
        assert forall|i: int| 0 <= i < ps0.len() implies parameter_instantiates_to(
            #[trigger] ps0[i],
            depth,
            replacements,
            rs0[i],
        ) by {
            assert(parameter_instantiates_to(ps[i], depth, replacements, rs[i]));
        }
        lemma_parameters_instantiate(ps0, depth, replacements, rs0);
        assert(parameter_instantiates_to(ps[ps.len() - 1], depth, replacements, rs[ps.len() - 1]));
        lemma_parameter_instantiate(ps.last(), depth, replacements, rs.last());
        lemma_replace_all_concat(
            parameters_free_variables(ps0),
            parameter_free_variables(ps.last()),
            depth,
            replacements,
        );
    }
}

/// Instantiating a generic argument keeps its size and replaces its free
/// variables one by one.
pub proof fn lemma_parameter_instantiate(
    p: Parameter,
    depth: usize,
    replacements: Seq<Variable>,
    r: Parameter,
)
    requires
        parameter_instantiates_to(p, depth, replacements, r),
    ensures
        parameter_size(r) == parameter_size(p),
        parameter_free_variables(r) == replace_all(
            parameter_free_variables(p),
            depth,
            replacements,
        ),
    decreases p,
{
    match p {
        Parameter::Ty(a) => {
            match r {
                Parameter::Ty(b) => {
                    lemma_ty_instantiate(a, depth, replacements, b);
                },
                _ => {},
            }
        },
        Parameter::Lt(a) => {
            match r {
                Parameter::Lt(b) => {
                    assert(b.spec_free_variables() =~= replace_all(
                        a.spec_free_variables(),
                        depth,
                        replacements,
                    ));
                },
                _ => {},
            }
        },
    }
}

impl Fold for LtData {
    open spec fn instantiates_to(
        &self,
        depth: usize,
        replacements: Seq<Variable>,
        result: &LtData,
    ) -> bool {
        match *self {
            LtData::Static => *result == LtData::Static,
            LtData::Variable(v) => *result == LtData::Variable(
                v.spec_replace(depth, replacements),
            ),
        }
    }

    open spec fn binder_depth(&self) -> nat {
        0
    }

    proof fn lemma_instantiate(&self, depth: usize, replacements: Seq<Variable>, result: &LtData) {
        assert(result.spec_free_variables() =~= replace_all(
            self.spec_free_variables(),
            depth,
            replacements,
        ));
    }

    fn instantiate(&self, depth: usize, replacements: &Vec<Variable>) -> (r: LtData) {
        match self {
            LtData::Static => LtData::Static,
            LtData::Variable(v) => LtData::Variable(v.replace(depth, replacements)),
        }
    }
}

impl Fold for Lt {
    open spec fn instantiates_to(
        &self,
        depth: usize,
        replacements: Seq<Variable>,
        result: &Lt,
    ) -> bool {
        self.data.instantiates_to(depth, replacements, &result.data)
    }

    open spec fn binder_depth(&self) -> nat {
        0
    }

    proof fn lemma_instantiate(&self, depth: usize, replacements: Seq<Variable>, result: &Lt) {
        (*self.data).lemma_instantiate(depth, replacements, &*result.data);
    }

    fn instantiate(&self, depth: usize, replacements: &Vec<Variable>) -> (r: Lt) {
        Lt { data: self.data.instantiate(depth, replacements) }
    }
}

fn rebuild_ty(t: &Ty, depth: usize, replacements: &Vec<Variable>) -> (r: Ty)
    ensures
        ty_instantiates_to(*t, depth, replacements@, r),
    decreases t,
{
    let data = match &*t.data {
        TyData::RigidTy(a) => TyData::RigidTy(
            RigidTy {
                name: a.name.clone(),
                parameters: rebuild_parameters(&a.parameters, depth, replacements),
            },
        ),
        TyData::AliasTy(a) => TyData::AliasTy(
            AliasTy {
                trait_id: a.trait_id.clone(),
                item_id: a.item_id.clone(),
                parameters: rebuild_parameters(&a.parameters, depth, replacements),
            },
        ),
        TyData::Variable(v) => TyData::Variable(v.replace(depth, replacements)),
    };
    Ty { data: Arc::new(data) }
}

fn rebuild_parameters(ps: &Vec<Parameter>, depth: usize, replacements: &Vec<Variable>) -> (r: Vec<
    Parameter,
>)
    ensures
        parameters_instantiate_to(ps@, depth, replacements@, r@),
    decreases ps,
{
    let mut out: Vec<Parameter> = Vec::new();
    let mut i: usize = 0;
    while i < ps.len()
        invariant
            i <= ps.len(),
            out@.len() == i,
            forall|j: int|
                0 <= j < i ==> parameter_instantiates_to(
                    #[trigger] ps@[j],
                    depth,
                    replacements@,
                    out@[j],
                ),
        decreases ps.len() - i,
    {
        out.push(rebuild_parameter(&ps[i], depth, replacements));
        i = i + 1;
    }
    out
}

fn rebuild_parameter(p: &Parameter, depth: usize, replacements: &Vec<Variable>) -> (r: Parameter)
    ensures
        parameter_instantiates_to(*p, depth, replacements@, r),
    decreases p,
{
    match p {
        Parameter::Ty(t) => Parameter::Ty(rebuild_ty(t, depth, replacements)),
        Parameter::Lt(l) => Parameter::Lt(l.instantiate(depth, replacements)),
    }
}

impl Fold for Ty {
    open spec fn instantiates_to(
        &self,
        depth: usize,
        replacements: Seq<Variable>,
        result: &Ty,
    ) -> bool {
        ty_instantiates_to(*self, depth, replacements, *result)
    }

    open spec fn binder_depth(&self) -> nat {
        0
    }

    proof fn lemma_instantiate(&self, depth: usize, replacements: Seq<Variable>, result: &Ty) {
        lemma_ty_instantiate(*self, depth, replacements, *result);
    }

    fn instantiate(&self, depth: usize, replacements: &Vec<Variable>) -> (r: Ty) {
        rebuild_ty(self, depth, replacements)
    }
}

impl Fold for Parameter {
    open spec fn instantiates_to(
        &self,
        depth: usize,
        replacements: Seq<Variable>,
        result: &Parameter,
    ) -> bool {
        parameter_instantiates_to(*self, depth, replacements, *result)
    }

    open spec fn binder_depth(&self) -> nat {
        0
    }

    proof fn lemma_instantiate(
        &self,
        depth: usize,
        replacements: Seq<Variable>,
        result: &Parameter,
    ) {
        lemma_parameter_instantiate(*self, depth, replacements, *result);
    }

    fn instantiate(&self, depth: usize, replacements: &Vec<Variable>) -> (r: Parameter) {
        rebuild_parameter(self, depth, replacements)
    }
}

impl Fold for AliasTy {
    open spec fn instantiates_to(
        &self,
        depth: usize,
        replacements: Seq<Variable>,
        result: &AliasTy,
    ) -> bool {
        &&& result.trait_id == self.trait_id
        &&& result.item_id == self.item_id
        &&& parameters_instantiate_to(self.parameters@, depth, replacements, result.parameters@)
    }

    open spec fn binder_depth(&self) -> nat {
        0
    }

    proof fn lemma_instantiate(&self, depth: usize, replacements: Seq<Variable>, result: &AliasTy) {
        lemma_parameters_instantiate(self.parameters@, depth, replacements, result.parameters@);
    }

    fn instantiate(&self, depth: usize, replacements: &Vec<Variable>) -> (r: AliasTy) {
        AliasTy {
            trait_id: self.trait_id.clone(),
            item_id: self.item_id.clone(),
            parameters: rebuild_parameters(&self.parameters, depth, replacements),
        }
    }
}

impl Fold for RigidTy {
    open spec fn instantiates_to(
        &self,
        depth: usize,
        replacements: Seq<Variable>,
        result: &RigidTy,
    ) -> bool {
        &&& result.name == self.name
        &&& parameters_instantiate_to(self.parameters@, depth, replacements, result.parameters@)
    }

    open spec fn binder_depth(&self) -> nat {
        0
    }

    proof fn lemma_instantiate(&self, depth: usize, replacements: Seq<Variable>, result: &RigidTy) {
        lemma_parameters_instantiate(self.parameters@, depth, replacements, result.parameters@);
    }

    fn instantiate(&self, depth: usize, replacements: &Vec<Variable>) -> (r: RigidTy) {
        RigidTy {
            name: self.name.clone(),
            parameters: rebuild_parameters(&self.parameters, depth, replacements),
        }
    }
}

impl Fold for TraitRef {
    open spec fn instantiates_to(
        &self,
        depth: usize,
        replacements: Seq<Variable>,
        result: &TraitRef,
    ) -> bool {
        &&& result.trait_id == self.trait_id
        &&& parameters_instantiate_to(self.parameters@, depth, replacements, result.parameters@)
    }

    open spec fn binder_depth(&self) -> nat {
        0
    }

    proof fn lemma_instantiate(
        &self,
        depth: usize,
        replacements: Seq<Variable>,
        result: &TraitRef,
    ) {
        lemma_parameters_instantiate(self.parameters@, depth, replacements, result.parameters@);
    }

    fn instantiate(&self, depth: usize, replacements: &Vec<Variable>) -> (r: TraitRef) {
        TraitRef {
            trait_id: self.trait_id.clone(),
            parameters: rebuild_parameters(&self.parameters, depth, replacements),
        }
    }
}

impl Fold for Predicate {
    open spec fn instantiates_to(
        &self,
        depth: usize,
        replacements: Seq<Variable>,
        result: &Predicate,
    ) -> bool {
        match *self {
            Predicate::IsImplemented(a) => *result matches Predicate::IsImplemented(b)
                && a.instantiates_to(depth, replacements, &b),
            Predicate::NormalizesTo(a, t) => {
                &&& *result matches Predicate::NormalizesTo(b, u)
                &&& a.instantiates_to(depth, replacements, &b)
                &&& t.instantiates_to(depth, replacements, &u)
            },
            Predicate::WellFormedTy(t) => *result matches Predicate::WellFormedTy(u)
                && t.instantiates_to(depth, replacements, &u),
            Predicate::Outlives(p, l) => {
                &&& *result matches Predicate::Outlives(q, m)
                &&& p.instantiates_to(depth, replacements, &q)
                &&& l.instantiates_to(depth, replacements, &m)
            },
        }
    }

    open spec fn binder_depth(&self) -> nat {
        0
    }

    proof fn lemma_instantiate(
        &self,
        depth: usize,
        replacements: Seq<Variable>,
        result: &Predicate,
    ) {
        match (*self, *result) {
            (Predicate::IsImplemented(a), Predicate::IsImplemented(b)) => {
                a.lemma_instantiate(depth, replacements, &b);
            },
            (Predicate::NormalizesTo(a, t), Predicate::NormalizesTo(b, u)) => {
                a.lemma_instantiate(depth, replacements, &b);
                t.lemma_instantiate(depth, replacements, &u);
                lemma_replace_all_concat(
                    a.spec_free_variables(),
                    t.spec_free_variables(),
                    depth,
                    replacements,
                );
            },
            (Predicate::WellFormedTy(t), Predicate::WellFormedTy(u)) => {
                t.lemma_instantiate(depth, replacements, &u);
            },
            (Predicate::Outlives(p, l), Predicate::Outlives(q, m)) => {
                p.lemma_instantiate(depth, replacements, &q);
                l.lemma_instantiate(depth, replacements, &m);
                lemma_replace_all_concat(
                    p.spec_free_variables(),
                    l.spec_free_variables(),
                    depth,
                    replacements,
                );
            },
            _ => {},
        }
    }

    fn instantiate(&self, depth: usize, replacements: &Vec<Variable>) -> (r: Predicate) {
        match self {
            Predicate::IsImplemented(a) => Predicate::IsImplemented(
                a.instantiate(depth, replacements),
            ),
            Predicate::NormalizesTo(a, t) => Predicate::NormalizesTo(
                a.instantiate(depth, replacements),
                t.instantiate(depth, replacements),
            ),
            Predicate::WellFormedTy(t) => Predicate::WellFormedTy(
                t.instantiate(depth, replacements),
            ),
            Predicate::Outlives(p, l) => Predicate::Outlives(
                p.instantiate(depth, replacements),
                l.instantiate(depth, replacements),
            ),
        }
    }
}

} // verus!
