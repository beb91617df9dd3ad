//! The declarations of a program: crates, algebraic data types, traits and
//! trait implementations.
//!
//! Identifiers and kind tags are leaves: each counts one towards the size of a
//! term and holds no variable. Every other field contributes its own free
//! variables and size, in declaration order. An enum that only wraps other
//! terms is transparent: it is measured as the term it wraps.

use crate::binder::Binder;
use crate::fold::{deeper, Fold};
use crate::ids::{AdtId, AssociatedItemId, CrateId, FieldId, FnId, TraitId, VariantId};
use crate::ty::{Predicate, TraitRef, Ty};
use crate::variable::{lemma_replace_all_concat, replace_all, Variable};
use crate::visit::{add_sizes, Visit};
use vstd::prelude::*;

verus! {

/// A whole program: every crate it is made of.
#[derive(Clone, Debug, PartialEq, Eq, PartialOrd, Ord, Hash)]
pub struct Program {
    /// All crates. The last one is the current crate.
    pub crates: Vec<Crate>,
}

/// The items of all of `crates`, crate by crate, each crate's in declaration
/// order.
pub open spec fn all_items(crates: Seq<Crate>) -> Seq<CrateItem>
    decreases crates.len(),
{
    if crates.len() == 0 {
        Seq::empty()
    } else {
        all_items(crates.drop_last()) + crates.last().items@
    }
}

impl Program {
    /// Id of the current crate, which is the last one of the program.
    pub fn current_crate_id(&self) -> (r: CrateId)
        requires
            self.crates@.len() > 0,
        ensures
            r == self.crates@.last().id,
    {
        self.crates[self.crates.len() - 1].id.clone()
    }

    /// The items from all crates, in order.
    pub fn items_from_all_crates(&self) -> (r: Vec<&CrateItem>)
        ensures
            r@.len() == all_items(self.crates@).len(),
            forall|k: int| 0 <= k < r@.len() ==> *r@[k] == all_items(self.crates@)[k],
    {
        let mut out: Vec<&CrateItem> = Vec::new();
        let mut i: usize = 0;
        while i < self.crates.len()
            invariant
                i <= self.crates.len(),
                out@.len() == all_items(self.crates@.take(i as int)).len(),
                forall|k: int|
                    0 <= k < out@.len() ==> *out@[k] == all_items(self.crates@.take(i as int))[k],
            decreases self.crates.len() - i,
        {
            let items = &self.crates[i].items;
            let ghost before = all_items(self.crates@.take(i as int));
            proof {
                assert(self.crates@.take(i + 1).drop_last() == self.crates@.take(i as int));
            }
            let mut j: usize = 0;
            while j < items.len()
                invariant
                    j <= items.len(),
                    out@.len() == before.len() + j,
                    forall|k: int| 0 <= k < before.len() ==> *out@[k] == before[k],
                    forall|k: int| 0 <= k < j ==> *out@[before.len() + k] == items@[k],
                decreases items.len() - j,
            {
                out.push(&items[j]);
                j = j + 1;
            }
            i = i + 1;
        }
        proof {
            assert(self.crates@.take(self.crates.len() as int) == self.crates@);
        }
        out
    }
}

impl Visit for Program {
    open spec fn spec_free_variables(&self) -> Seq<Variable> {
        self.crates.spec_free_variables()
    }

    open spec fn spec_size(&self) -> nat {
        self.crates.spec_size()
    }

    fn free_variables(&self) -> (r: Vec<Variable>) {
        self.crates.free_variables()
    }

    fn size(&self) -> (n: usize) {
        self.crates.size()
    }
}

impl Fold for Program {
    open spec fn instantiates_to(
        &self,
        depth: usize,
        replacements: Seq<Variable>,
        result: &Program,
    ) -> bool {
        &&& self.crates.instantiates_to(depth, replacements, &result.crates)
    }

    open spec fn binder_depth(&self) -> nat {
        self.crates.binder_depth()
    }

    proof fn lemma_instantiate(&self, depth: usize, replacements: Seq<Variable>, result: &Program) {
        self.crates.lemma_instantiate(depth, replacements, &result.crates);
    }

    fn instantiate(&self, depth: usize, replacements: &Vec<Variable>) -> (r: Program) {
        Program {
            crates: self.crates.instantiate(depth, replacements),
        }
    }
}

/// A crate: its name and its items, in declaration order.
#[derive(Clone, Debug, PartialEq, Eq, PartialOrd, Ord, Hash)]
pub struct Crate {
    pub id: CrateId,
    pub items: Vec<CrateItem>,
}

impl Visit for Crate {
    open spec fn spec_free_variables(&self) -> Seq<Variable> {
        self.items.spec_free_variables()
    }

    open spec fn spec_size(&self) -> nat {
        1 + self.items.spec_size()
    }

    fn free_variables(&self) -> (r: Vec<Variable>) {
        self.items.free_variables()
    }

    fn size(&self) -> (n: usize) {
        add_sizes(1, self.items.size())
    }
}

impl Fold for Crate {
    open spec fn instantiates_to(
        &self,
        depth: usize,
        replacements: Seq<Variable>,
        result: &Crate,
    ) -> bool {
        &&& result.id == self.id
        &&& self.items.instantiates_to(depth, replacements, &result.items)
    }

    open spec fn binder_depth(&self) -> nat {
        self.items.binder_depth()
    }

    proof fn lemma_instantiate(&self, depth: usize, replacements: Seq<Variable>, result: &Crate) {
        self.items.lemma_instantiate(depth, replacements, &result.items);
    }

    fn instantiate(&self, depth: usize, replacements: &Vec<Variable>) -> (r: Crate) {
        Crate {
            id: self.id.clone(),
            items: self.items.instantiate(depth, replacements),
        }
    }
}

/// An item of a crate.
#[derive(Clone, Debug, PartialEq, Eq, PartialOrd, Ord, Hash)]
pub enum CrateItem {
    Adt(Adt),
    Trait(Trait),
    TraitImpl(TraitImpl),
}

impl Visit for CrateItem {
    open spec fn spec_free_variables(&self) -> Seq<Variable> {
        match *self {
            CrateItem::Adt(x) => x.spec_free_variables(),
            CrateItem::Trait(x) => x.spec_free_variables(),
            CrateItem::TraitImpl(x) => x.spec_free_variables(),
        }
    }

    open spec fn spec_size(&self) -> nat {
        match *self {
            CrateItem::Adt(x) => x.spec_size(),
            CrateItem::Trait(x) => x.spec_size(),
            CrateItem::TraitImpl(x) => x.spec_size(),
        }
    }

    fn free_variables(&self) -> (r: Vec<Variable>) {
        match self {
            CrateItem::Adt(x) => x.free_variables(),
            CrateItem::Trait(x) => x.free_variables(),
            CrateItem::TraitImpl(x) => x.free_variables(),
        }
    }

    fn size(&self) -> (n: usize) {
        match self {
            CrateItem::Adt(x) => x.size(),
            CrateItem::Trait(x) => x.size(),
            CrateItem::TraitImpl(x) => x.size(),
        }
    }
}

impl Fold for CrateItem {
    open spec fn instantiates_to(
        &self,
        depth: usize,
        replacements: Seq<Variable>,
        result: &CrateItem,
    ) -> bool {
        match *self {
            CrateItem::Adt(x) => {
                &&& *result matches CrateItem::Adt(y)
                &&& x.instantiates_to(depth, replacements, &y)
            },
            CrateItem::Trait(x) => {
                &&& *result matches CrateItem::Trait(y)
                &&& x.instantiates_to(depth, replacements, &y)
            },
            CrateItem::TraitImpl(x) => {
                &&& *result matches CrateItem::TraitImpl(y)
                &&& x.instantiates_to(depth, replacements, &y)
            },
        }
    }

    open spec fn binder_depth(&self) -> nat {
        match *self {
            CrateItem::Adt(x) => x.binder_depth(),
            CrateItem::Trait(x) => x.binder_depth(),
            CrateItem::TraitImpl(x) => x.binder_depth(),
        }
    }

    proof fn lemma_instantiate(
        &self,
        depth: usize,
        replacements: Seq<Variable>,
        result: &CrateItem,
    ) {
        match (*self, *result) {
            (CrateItem::Adt(x), CrateItem::Adt(y)) => {
                x.lemma_instantiate(depth, replacements, &y);
            },
            (CrateItem::Trait(x), CrateItem::Trait(y)) => {
                x.lemma_instantiate(depth, replacements, &y);
            },
            (CrateItem::TraitImpl(x), CrateItem::TraitImpl(y)) => {
                x.lemma_instantiate(depth, replacements, &y);
            },
            _ => {},
        }
    }

    fn instantiate(&self, depth: usize, replacements: &Vec<Variable>) -> (r: CrateItem) {
        match self {
            CrateItem::Adt(x) => CrateItem::Adt(x.instantiate(depth, replacements)),
            CrateItem::Trait(x) => CrateItem::Trait(x.instantiate(depth, replacements)),
            CrateItem::TraitImpl(x) => CrateItem::TraitImpl(x.instantiate(depth, replacements)),
        }
    }
}

impl From<Adt> for CrateItem {
    fn from(v: Adt) -> (r: CrateItem) {
        CrateItem::Adt(v)
    }
}

impl vstd::std_specs::convert::FromSpecImpl<Adt> for CrateItem {
    open spec fn obeys_from_spec() -> bool {
        true
    }

    open spec fn from_spec(v: Adt) -> CrateItem {
        CrateItem::Adt(v)
    }
}

impl From<Trait> for CrateItem {
    fn from(v: Trait) -> (r: CrateItem) {
        CrateItem::Trait(v)
    }
}

impl vstd::std_specs::convert::FromSpecImpl<Trait> for CrateItem {
    open spec fn obeys_from_spec() -> bool {
        true
    }

    open spec fn from_spec(v: Trait) -> CrateItem {
        CrateItem::Trait(v)
    }
}

impl From<TraitImpl> for CrateItem {
    fn from(v: TraitImpl) -> (r: CrateItem) {
        CrateItem::TraitImpl(v)
    }
}

impl vstd::std_specs::convert::FromSpecImpl<TraitImpl> for CrateItem {
    open spec fn obeys_from_spec() -> bool {
        true
    }

    open spec fn from_spec(v: TraitImpl) -> CrateItem {
        CrateItem::TraitImpl(v)
    }
}

/// A struct, enum or union. The binder introduces its generic parameters.
#[derive(Clone, Debug, PartialEq, Eq, PartialOrd, Ord, Hash)]
pub struct Adt {
    pub kind: AdtKind,
    pub id: AdtId,
    pub binder: Binder<AdtBoundData>,
}

impl Visit for Adt {
    open spec fn spec_free_variables(&self) -> Seq<Variable> {
        self.binder.spec_free_variables()
    }

    open spec fn spec_size(&self) -> nat {
        2 + self.binder.spec_size()
    }

    fn free_variables(&self) -> (r: Vec<Variable>) {
        self.binder.free_variables()
    }

    fn size(&self) -> (n: usize) {
        add_sizes(2, self.binder.size())
    }
}

impl Fold for Adt {
    open spec fn instantiates_to(
        &self,
        depth: usize,
        replacements: Seq<Variable>,
        result: &Adt,
    ) -> bool {
        &&& result.kind == self.kind
        &&& result.id == self.id
        &&& self.binder.instantiates_to(depth, replacements, &result.binder)
    }

    open spec fn binder_depth(&self) -> nat {
        self.binder.binder_depth()
    }

    proof fn lemma_instantiate(&self, depth: usize, replacements: Seq<Variable>, result: &Adt) {
        self.binder.lemma_instantiate(depth, replacements, &result.binder);
    }

    fn instantiate(&self, depth: usize, replacements: &Vec<Variable>) -> (r: Adt) {
        Adt {
            kind: self.kind,
            id: self.id.clone(),
            binder: self.binder.instantiate(depth, replacements),
        }
    }
}

/// Which kind of algebraic data type a declaration is.
#[derive(Clone, Copy, Debug, PartialEq, Eq, PartialOrd, Ord, Hash, Structural)]
pub enum AdtKind {
    Struct,
    Enum,
    Union,
}

impl Visit for AdtKind {
    open spec fn spec_free_variables(&self) -> Seq<Variable> {
        Seq::empty()
    }

    open spec fn spec_size(&self) -> nat {
        1
    }

    fn free_variables(&self) -> (r: Vec<Variable>) {
        Vec::new()
    }

    fn size(&self) -> (n: usize) {
        1
    }
}

impl Fold for AdtKind {
    open spec fn instantiates_to(
        &self,
        depth: usize,
        replacements: Seq<Variable>,
        result: &AdtKind,
    ) -> bool {
        *result == *self
    }

    open spec fn binder_depth(&self) -> nat {
        0
    }

    proof fn lemma_instantiate(&self, depth: usize, replacements: Seq<Variable>, result: &AdtKind) {
        assert(result.spec_free_variables() =~= replace_all(
            self.spec_free_variables(),
            depth,
            replacements,
        ));
    }

    fn instantiate(&self, depth: usize, replacements: &Vec<Variable>) -> (r: AdtKind) {
        *self
    }
}

/// What an algebraic data type declares under its generic parameters.
#[derive(Clone, Debug, PartialEq, Eq, PartialOrd, Ord, Hash)]
pub struct AdtBoundData {
    pub where_clauses: Vec<Predicate>,
    pub variants: Vec<AdtVariant>,
}

impl Visit for AdtBoundData {
    open spec fn spec_free_variables(&self) -> Seq<Variable> {
        self.where_clauses.spec_free_variables() + self.variants.spec_free_variables()
    }

    open spec fn spec_size(&self) -> nat {
        self.where_clauses.spec_size() + self.variants.spec_size()
    }

    fn free_variables(&self) -> (r: Vec<Variable>) {
        let mut out = self.where_clauses.free_variables();
        let mut variants = self.variants.free_variables();
        out.append(&mut variants);
        out
    }

    fn size(&self) -> (n: usize) {
        add_sizes(self.where_clauses.size(), self.variants.size())
    }
}

impl Fold for AdtBoundData {
    open spec fn instantiates_to(
        &self,
        depth: usize,
        replacements: Seq<Variable>,
        result: &AdtBoundData,
    ) -> bool {
        &&& self.where_clauses.instantiates_to(depth, replacements, &result.where_clauses)
        &&& self.variants.instantiates_to(depth, replacements, &result.variants)
    }

    open spec fn binder_depth(&self) -> nat {
        deeper(self.where_clauses.binder_depth(), self.variants.binder_depth())
    }

    proof fn lemma_instantiate(
        &self,
        depth: usize,
        replacements: Seq<Variable>,
        result: &AdtBoundData,
    ) {
        self.where_clauses.lemma_instantiate(depth, replacements, &result.where_clauses);
        self.variants.lemma_instantiate(depth, replacements, &result.variants);
        lemma_replace_all_concat(
            self.where_clauses.spec_free_variables(),
            self.variants.spec_free_variables(),
            depth,
            replacements,
        );
    }

    fn instantiate(&self, depth: usize, replacements: &Vec<Variable>) -> (r: AdtBoundData) {
        AdtBoundData {
            where_clauses: self.where_clauses.instantiate(depth, replacements),
            variants: self.variants.instantiate(depth, replacements),
        }
    }
}

/// A variant of an algebraic data type: its name and its fields, in order.
#[derive(Clone, Debug, PartialEq, Eq, PartialOrd, Ord, Hash)]
pub struct AdtVariant {
    pub name: VariantId,
    pub fields: Vec<Field>,
}

impl Visit for AdtVariant {
    open spec fn spec_free_variables(&self) -> Seq<Variable> {
        self.fields.spec_free_variables()
    }

    open spec fn spec_size(&self) -> nat {
        1 + self.fields.spec_size()
    }

    fn free_variables(&self) -> (r: Vec<Variable>) {
        self.fields.free_variables()
    }

    fn size(&self) -> (n: usize) {
        add_sizes(1, self.fields.size())
    }
}

impl Fold for AdtVariant {
    open spec fn instantiates_to(
        &self,
        depth: usize,
        replacements: Seq<Variable>,
        result: &AdtVariant,
    ) -> bool {
        &&& result.name == self.name
        &&& self.fields.instantiates_to(depth, replacements, &result.fields)
    }

    open spec fn binder_depth(&self) -> nat {
        self.fields.binder_depth()
    }

    proof fn lemma_instantiate(
        &self,
        depth: usize,
        replacements: Seq<Variable>,
        result: &AdtVariant,
    ) {
        self.fields.lemma_instantiate(depth, replacements, &result.fields);
    }

    fn instantiate(&self, depth: usize, replacements: &Vec<Variable>) -> (r: AdtVariant) {
        AdtVariant {
            name: self.name.clone(),
            fields: self.fields.instantiate(depth, replacements),
        }
    }
}

/// A field: its name and its type.
#[derive(Clone, Debug, PartialEq, Eq, PartialOrd, Ord, Hash)]
pub struct Field {
    pub name: FieldName,
    pub ty: Ty,
}

impl Visit for Field {
    open spec fn spec_free_variables(&self) -> Seq<Variable> {
        self.ty.spec_free_variables()
    }

    open spec fn spec_size(&self) -> nat {
        1 + self.ty.spec_size()
    }

    fn free_variables(&self) -> (r: Vec<Variable>) {
        self.ty.free_variables()
    }

    fn size(&self) -> (n: usize) {
        add_sizes(1, self.ty.size())
    }
}

impl Fold for Field {
    open spec fn instantiates_to(
        &self,
        depth: usize,
        replacements: Seq<Variable>,
        result: &Field,
    ) -> bool {
        &&& self.name.instantiates_to(depth, replacements, &result.name)
        &&& self.ty.instantiates_to(depth, replacements, &result.ty)
    }

    open spec fn binder_depth(&self) -> nat {
        self.ty.binder_depth()
    }

    proof fn lemma_instantiate(&self, depth: usize, replacements: Seq<Variable>, result: &Field) {
        self.ty.lemma_instantiate(depth, replacements, &result.ty);
    }

    fn instantiate(&self, depth: usize, replacements: &Vec<Variable>) -> (r: Field) {
        Field {
            name: self.name.instantiate(depth, replacements),
            ty: self.ty.instantiate(depth, replacements),
        }
    }
}

/// The name of a field: an identifier, or a position in a tuple-like variant.
#[derive(Clone, Debug, PartialEq, Eq, PartialOrd, Ord, Hash)]
pub enum FieldName {
    Id(FieldId),
    Index(usize),
}

impl Visit for FieldName {
    open spec fn spec_free_variables(&self) -> Seq<Variable> {
        match *self {
            FieldName::Id(x) => x.spec_free_variables(),
            FieldName::Index(x) => x.spec_free_variables(),
        }
    }

    open spec fn spec_size(&self) -> nat {
        match *self {
            FieldName::Id(x) => x.spec_size(),
            FieldName::Index(x) => x.spec_size(),
        }
    }

    fn free_variables(&self) -> (r: Vec<Variable>) {
        match self {
            FieldName::Id(x) => x.free_variables(),
            FieldName::Index(x) => x.free_variables(),
        }
    }

    fn size(&self) -> (n: usize) {
        match self {
            FieldName::Id(x) => x.size(),
            FieldName::Index(x) => x.size(),
        }
    }
}

impl Fold for FieldName {
    open spec fn instantiates_to(
        &self,
        depth: usize,
        replacements: Seq<Variable>,
        result: &FieldName,
    ) -> bool {
        match *self {
            FieldName::Id(x) => {
                &&& *result matches FieldName::Id(y)
                &&& x.instantiates_to(depth, replacements, &y)
            },
            FieldName::Index(x) => {
                &&& *result matches FieldName::Index(y)
                &&& x.instantiates_to(depth, replacements, &y)
            },
        }
    }

    open spec fn binder_depth(&self) -> nat {
        match *self {
            FieldName::Id(x) => x.binder_depth(),
            FieldName::Index(x) => x.binder_depth(),
        }
    }

    proof fn lemma_instantiate(
        &self,
        depth: usize,
        replacements: Seq<Variable>,
        result: &FieldName,
    ) {
        match (*self, *result) {
            (FieldName::Id(x), FieldName::Id(y)) => {
                x.lemma_instantiate(depth, replacements, &y);
            },
            (FieldName::Index(x), FieldName::Index(y)) => {
                x.lemma_instantiate(depth, replacements, &y);
            },
            _ => {},
        }
    }

    fn instantiate(&self, depth: usize, replacements: &Vec<Variable>) -> (r: FieldName) {
        match self {
            FieldName::Id(x) => FieldName::Id(x.instantiate(depth, replacements)),
            FieldName::Index(x) => FieldName::Index(x.instantiate(depth, replacements)),
        }
    }
}

impl From<FieldId> for FieldName {
    fn from(v: FieldId) -> (r: FieldName) {
        FieldName::Id(v)
    }
}

impl vstd::std_specs::convert::FromSpecImpl<FieldId> for FieldName {
    open spec fn obeys_from_spec() -> bool {
        true
    }

    open spec fn from_spec(v: FieldId) -> FieldName {
        FieldName::Id(v)
    }
}

impl From<usize> for FieldName {
    fn from(v: usize) -> (r: FieldName) {
        FieldName::Index(v)
    }
}

impl vstd::std_specs::convert::FromSpecImpl<usize> for FieldName {
    open spec fn obeys_from_spec() -> bool {
        true
    }

    open spec fn from_spec(v: usize) -> FieldName {
        FieldName::Index(v)
    }
}

/// A trait. The binder introduces its generic parameters, the implementing
/// type among them.
#[derive(Clone, Debug, PartialEq, Eq, PartialOrd, Ord, Hash)]
pub struct Trait {
    pub id: TraitId,
    pub binder: Binder<TraitBoundData>,
}

impl Visit for Trait {
    open spec fn spec_free_variables(&self) -> Seq<Variable> {
        self.binder.spec_free_variables()
    }

    open spec fn spec_size(&self) -> nat {
        1 + self.binder.spec_size()
    }

    fn free_variables(&self) -> (r: Vec<Variable>) {
        self.binder.free_variables()
    }

    fn size(&self) -> (n: usize) {
        add_sizes(1, self.binder.size())
    }
}

impl Fold for Trait {
    open spec fn instantiates_to(
        &self,
        depth: usize,
        replacements: Seq<Variable>,
        result: &Trait,
    ) -> bool {
        &&& result.id == self.id
        &&& self.binder.instantiates_to(depth, replacements, &result.binder)
    }

    open spec fn binder_depth(&self) -> nat {
        self.binder.binder_depth()
    }

    proof fn lemma_instantiate(&self, depth: usize, replacements: Seq<Variable>, result: &Trait) {
        self.binder.lemma_instantiate(depth, replacements, &result.binder);
    }

    fn instantiate(&self, depth: usize, replacements: &Vec<Variable>) -> (r: Trait) {
        Trait {
            id: self.id.clone(),
            binder: self.binder.instantiate(depth, replacements),
        }
    }
}

/// What a trait declares under its generic parameters.
#[derive(Clone, Debug, PartialEq, Eq, PartialOrd, Ord, Hash)]
pub struct TraitBoundData {
    pub where_clauses: Vec<Predicate>,
    pub trait_items: Vec<TraitItem>,
}

impl Visit for TraitBoundData {
    open spec fn spec_free_variables(&self) -> Seq<Variable> {
        self.where_clauses.spec_free_variables() + self.trait_items.spec_free_variables()
    }

    open spec fn spec_size(&self) -> nat {
        self.where_clauses.spec_size() + self.trait_items.spec_size()
    }

    fn free_variables(&self) -> (r: Vec<Variable>) {
        let mut out = self.where_clauses.free_variables();
        let mut trait_items = self.trait_items.free_variables();
        out.append(&mut trait_items);
        out
    }

    fn size(&self) -> (n: usize) {
        add_sizes(self.where_clauses.size(), self.trait_items.size())
    }
}

impl Fold for TraitBoundData {
    open spec fn instantiates_to(
        &self,
        depth: usize,
        replacements: Seq<Variable>,
        result: &TraitBoundData,
    ) -> bool {
        &&& self.where_clauses.instantiates_to(depth, replacements, &result.where_clauses)
        &&& self.trait_items.instantiates_to(depth, replacements, &result.trait_items)
    }

    open spec fn binder_depth(&self) -> nat {
        deeper(self.where_clauses.binder_depth(), self.trait_items.binder_depth())
    }

    proof fn lemma_instantiate(
        &self,
        depth: usize,
        replacements: Seq<Variable>,
        result: &TraitBoundData,
    ) {
        self.where_clauses.lemma_instantiate(depth, replacements, &result.where_clauses);
        self.trait_items.lemma_instantiate(depth, replacements, &result.trait_items);
        lemma_replace_all_concat(
            self.where_clauses.spec_free_variables(),
            self.trait_items.spec_free_variables(),
            depth,
            replacements,
        );
    }

    fn instantiate(&self, depth: usize, replacements: &Vec<Variable>) -> (r: TraitBoundData) {
        TraitBoundData {
            where_clauses: self.where_clauses.instantiate(depth, replacements),
            trait_items: self.trait_items.instantiate(depth, replacements),
        }
    }
}

/// An item of a trait.
#[derive(Clone, Debug, PartialEq, Eq, PartialOrd, Ord, Hash)]
pub enum TraitItem {
    Fn(Fn),
    AssociatedTy(AssociatedTy),
}

impl Visit for TraitItem {
    open spec fn spec_free_variables(&self) -> Seq<Variable> {
        match *self {
            TraitItem::Fn(x) => x.spec_free_variables(),
            TraitItem::AssociatedTy(x) => x.spec_free_variables(),
        }
    }

    open spec fn spec_size(&self) -> nat {
        match *self {
            TraitItem::Fn(x) => x.spec_size(),
            TraitItem::AssociatedTy(x) => x.spec_size(),
        }
    }

    fn free_variables(&self) -> (r: Vec<Variable>) {
        match self {
            TraitItem::Fn(x) => x.free_variables(),
            TraitItem::AssociatedTy(x) => x.free_variables(),
        }
    }

    fn size(&self) -> (n: usize) {
        match self {
            TraitItem::Fn(x) => x.size(),
            TraitItem::AssociatedTy(x) => x.size(),
        }
    }
}

impl Fold for TraitItem {
    open spec fn instantiates_to(
        &self,
        depth: usize,
        replacements: Seq<Variable>,
        result: &TraitItem,
    ) -> bool {
        match *self {
            TraitItem::Fn(x) => {
                &&& *result matches TraitItem::Fn(y)
                &&& x.instantiates_to(depth, replacements, &y)
            },
            TraitItem::AssociatedTy(x) => {
                &&& *result matches TraitItem::AssociatedTy(y)
                &&& x.instantiates_to(depth, replacements, &y)
            },
        }
    }

    open spec fn binder_depth(&self) -> nat {
        match *self {
            TraitItem::Fn(x) => x.binder_depth(),
            TraitItem::AssociatedTy(x) => x.binder_depth(),
        }
    }

    proof fn lemma_instantiate(
        &self,
        depth: usize,
        replacements: Seq<Variable>,
        result: &TraitItem,
    ) {
        match (*self, *result) {
            (TraitItem::Fn(x), TraitItem::Fn(y)) => {
                x.lemma_instantiate(depth, replacements, &y);
            },
            (TraitItem::AssociatedTy(x), TraitItem::AssociatedTy(y)) => {
                x.lemma_instantiate(depth, replacements, &y);
            },
            _ => {},
        }
    }

    fn instantiate(&self, depth: usize, replacements: &Vec<Variable>) -> (r: TraitItem) {
        match self {
            TraitItem::Fn(x) => TraitItem::Fn(x.instantiate(depth, replacements)),
            TraitItem::AssociatedTy(x) => {
                TraitItem::AssociatedTy(x.instantiate(depth, replacements))
            },
        }
    }
}

impl From<Fn> for TraitItem {
    fn from(v: Fn) -> (r: TraitItem) {
        TraitItem::Fn(v)
    }
}

impl vstd::std_specs::convert::FromSpecImpl<Fn> for TraitItem {
    open spec fn obeys_from_spec() -> bool {
        true
    }

    open spec fn from_spec(v: Fn) -> TraitItem {
        TraitItem::Fn(v)
    }
}

impl From<AssociatedTy> for TraitItem {
    fn from(v: AssociatedTy) -> (r: TraitItem) {
        TraitItem::AssociatedTy(v)
    }
}

impl vstd::std_specs::convert::FromSpecImpl<AssociatedTy> for TraitItem {
    open spec fn obeys_from_spec() -> bool {
        true
    }

    open spec fn from_spec(v: AssociatedTy) -> TraitItem {
        TraitItem::AssociatedTy(v)
    }
}

/// A function. The binder introduces its generic parameters.
#[derive(Clone, Debug, PartialEq, Eq, PartialOrd, Ord, Hash)]
pub struct Fn {
    pub id: FnId,
    pub binder: Binder<FnBoundData>,
}

impl Visit for Fn {
    open spec fn spec_free_variables(&self) -> Seq<Variable> {
        self.binder.spec_free_variables()
    }

    open spec fn spec_size(&self) -> nat {
        1 + self.binder.spec_size()
    }

    fn free_variables(&self) -> (r: Vec<Variable>) {
        self.binder.free_variables()
    }

    fn size(&self) -> (n: usize) {
        add_sizes(1, self.binder.size())
    }
}

impl Fold for Fn {
    open spec fn instantiates_to(
        &self,
        depth: usize,
        replacements: Seq<Variable>,
        result: &Fn,
    ) -> bool {
        &&& result.id == self.id
        &&& self.binder.instantiates_to(depth, replacements, &result.binder)
    }

    open spec fn binder_depth(&self) -> nat {
        self.binder.binder_depth()
    }

    proof fn lemma_instantiate(&self, depth: usize, replacements: Seq<Variable>, result: &Fn) {
        self.binder.lemma_instantiate(depth, replacements, &result.binder);
    }

    fn instantiate(&self, depth: usize, replacements: &Vec<Variable>) -> (r: Fn) {
        Fn {
            id: self.id.clone(),
            binder: self.binder.instantiate(depth, replacements),
        }
    }
}

/// The signature of a function under its generic parameters.
#[derive(Clone, Debug, PartialEq, Eq, PartialOrd, Ord, Hash)]
pub struct FnBoundData {
    pub input_tys: Vec<Ty>,
    pub output_ty: Ty,
    pub where_clauses: Vec<Predicate>,
}

impl Visit for FnBoundData {
    open spec fn spec_free_variables(&self) -> Seq<Variable> {
        self.input_tys.spec_free_variables()
            + self.output_ty.spec_free_variables()
            + self.where_clauses.spec_free_variables()
    }

    open spec fn spec_size(&self) -> nat {
        self.input_tys.spec_size() + self.output_ty.spec_size() + self.where_clauses.spec_size()
    }

    fn free_variables(&self) -> (r: Vec<Variable>) {
        let mut out = self.input_tys.free_variables();
        let mut output_ty = self.output_ty.free_variables();
        out.append(&mut output_ty);
        let mut where_clauses = self.where_clauses.free_variables();
        out.append(&mut where_clauses);
        out
    }

    fn size(&self) -> (n: usize) {
        let n = add_sizes(self.input_tys.size(), self.output_ty.size());
        add_sizes(n, self.where_clauses.size())
    }
}

impl Fold for FnBoundData {
    open spec fn instantiates_to(
        &self,
        depth: usize,
        replacements: Seq<Variable>,
        result: &FnBoundData,
    ) -> bool {
        &&& self.input_tys.instantiates_to(depth, replacements, &result.input_tys)
        &&& self.output_ty.instantiates_to(depth, replacements, &result.output_ty)
        &&& self.where_clauses.instantiates_to(depth, replacements, &result.where_clauses)
    }

    open spec fn binder_depth(&self) -> nat {
        deeper(
            deeper(self.input_tys.binder_depth(), self.output_ty.binder_depth()),
            self.where_clauses.binder_depth(),
        )
    }

    proof fn lemma_instantiate(
        &self,
        depth: usize,
        replacements: Seq<Variable>,
        result: &FnBoundData,
    ) {
        self.input_tys.lemma_instantiate(depth, replacements, &result.input_tys);
        self.output_ty.lemma_instantiate(depth, replacements, &result.output_ty);
        self.where_clauses.lemma_instantiate(depth, replacements, &result.where_clauses);
        lemma_replace_all_concat(
            self.input_tys.spec_free_variables(),
            self.output_ty.spec_free_variables(),
            depth,
            replacements,
        );
        lemma_replace_all_concat(
            self.input_tys.spec_free_variables() + self.output_ty.spec_free_variables(),
            self.where_clauses.spec_free_variables(),
            depth,
            replacements,
        );
    }

    fn instantiate(&self, depth: usize, replacements: &Vec<Variable>) -> (r: FnBoundData) {
        FnBoundData {
            input_tys: self.input_tys.instantiate(depth, replacements),
            output_ty: self.output_ty.instantiate(depth, replacements),
            where_clauses: self.where_clauses.instantiate(depth, replacements),
        }
    }
}

/// An associated type of a trait. The binder introduces its generic
/// parameters.
#[derive(Clone, Debug, PartialEq, Eq, PartialOrd, Ord, Hash)]
pub struct AssociatedTy {
    pub id: AssociatedItemId,
    pub binder: Binder<AssociatedTyBoundData>,
}

impl Visit for AssociatedTy {
    open spec fn spec_free_variables(&self) -> Seq<Variable> {
        self.binder.spec_free_variables()
    }

    open spec fn spec_size(&self) -> nat {
        1 + self.binder.spec_size()
    }

    fn free_variables(&self) -> (r: Vec<Variable>) {
        self.binder.free_variables()
    }

    fn size(&self) -> (n: usize) {
        add_sizes(1, self.binder.size())
    }
}

impl Fold for AssociatedTy {
    open spec fn instantiates_to(
        &self,
        depth: usize,
        replacements: Seq<Variable>,
        result: &AssociatedTy,
    ) -> bool {
        &&& result.id == self.id
        &&& self.binder.instantiates_to(depth, replacements, &result.binder)
    }

    open spec fn binder_depth(&self) -> nat {
        self.binder.binder_depth()
    }

    proof fn lemma_instantiate(
        &self,
        depth: usize,
        replacements: Seq<Variable>,
        result: &AssociatedTy,
    ) {
        self.binder.lemma_instantiate(depth, replacements, &result.binder);
    }

    fn instantiate(&self, depth: usize, replacements: &Vec<Variable>) -> (r: AssociatedTy) {
        AssociatedTy {
            id: self.id.clone(),
            binder: self.binder.instantiate(depth, replacements),
        }
    }
}

/// What an associated type declares under its generic parameters.
#[derive(Clone, Debug, PartialEq, Eq, PartialOrd, Ord, Hash)]
pub struct AssociatedTyBoundData {
    /// The bounds on the associated type. The binder introduces one
    /// variable, which stands for the associated type itself: `type Item: Sized`
    /// reads as "for the type `I`, `I: Sized`".
    pub ensures: Binder<Vec<Predicate>>,
    /// Where clauses that must hold.
    pub where_clauses: Vec<Predicate>,
}

impl Visit for AssociatedTyBoundData {
    open spec fn spec_free_variables(&self) -> Seq<Variable> {
        self.ensures.spec_free_variables() + self.where_clauses.spec_free_variables()
    }

    open spec fn spec_size(&self) -> nat {
        self.ensures.spec_size() + self.where_clauses.spec_size()
    }

    fn free_variables(&self) -> (r: Vec<Variable>) {
        let mut out = self.ensures.free_variables();
        let mut where_clauses = self.where_clauses.free_variables();
        out.append(&mut where_clauses);
        out
    }

    fn size(&self) -> (n: usize) {
        add_sizes(self.ensures.size(), self.where_clauses.size())
    }
}

impl Fold for AssociatedTyBoundData {
    open spec fn instantiates_to(
        &self,
        depth: usize,
        replacements: Seq<Variable>,
        result: &AssociatedTyBoundData,
    ) -> bool {
        &&& self.ensures.instantiates_to(depth, replacements, &result.ensures)
        &&& self.where_clauses.instantiates_to(depth, replacements, &result.where_clauses)
    }

    open spec fn binder_depth(&self) -> nat {
        deeper(self.ensures.binder_depth(), self.where_clauses.binder_depth())
    }

    proof fn lemma_instantiate(
        &self,
        depth: usize,
        replacements: Seq<Variable>,
        result: &AssociatedTyBoundData,
    ) {
        self.ensures.lemma_instantiate(depth, replacements, &result.ensures);
        self.where_clauses.lemma_instantiate(depth, replacements, &result.where_clauses);
        lemma_replace_all_concat(
            self.ensures.spec_free_variables(),
            self.where_clauses.spec_free_variables(),
            depth,
            replacements,
        );
    }

    fn instantiate(
        &self,
        depth: usize,
        replacements: &Vec<Variable>,
    ) -> (r: AssociatedTyBoundData) {
        AssociatedTyBoundData {
            ensures: self.ensures.instantiate(depth, replacements),
            where_clauses: self.where_clauses.instantiate(depth, replacements),
        }
    }
}

/// An implementation of a trait. The binder introduces its generic
/// parameters.
#[derive(Clone, Debug, PartialEq, Eq, PartialOrd, Ord, Hash)]
pub struct TraitImpl {
    pub binder: Binder<TraitImplBoundData>,
}

impl Visit for TraitImpl {
    open spec fn spec_free_variables(&self) -> Seq<Variable> {
        self.binder.spec_free_variables()
    }

    open spec fn spec_size(&self) -> nat {
        self.binder.spec_size()
    }

    fn free_variables(&self) -> (r: Vec<Variable>) {
        self.binder.free_variables()
    }

    fn size(&self) -> (n: usize) {
        self.binder.size()
    }
}

impl Fold for TraitImpl {
    open spec fn instantiates_to(
        &self,
        depth: usize,
        replacements: Seq<Variable>,
        result: &TraitImpl,
    ) -> bool {
        &&& self.binder.instantiates_to(depth, replacements, &result.binder)
    }

    open spec fn binder_depth(&self) -> nat {
        self.binder.binder_depth()
    }

    proof fn lemma_instantiate(
        &self,
        depth: usize,
        replacements: Seq<Variable>,
        result: &TraitImpl,
    ) {
        self.binder.lemma_instantiate(depth, replacements, &result.binder);
    }

    fn instantiate(&self, depth: usize, replacements: &Vec<Variable>) -> (r: TraitImpl) {
        TraitImpl {
            binder: self.binder.instantiate(depth, replacements),
        }
    }
}

/// What a trait implementation declares under its generic parameters.
#[derive(Clone, Debug, PartialEq, Eq, PartialOrd, Ord, Hash)]
pub struct TraitImplBoundData {
    pub trait_ref: TraitRef,
    pub where_clauses: Vec<Predicate>,
    pub impl_items: Vec<ImplItem>,
}

impl Visit for TraitImplBoundData {
    open spec fn spec_free_variables(&self) -> Seq<Variable> {
        self.trait_ref.spec_free_variables()
            + self.where_clauses.spec_free_variables()
            + self.impl_items.spec_free_variables()
    }

    open spec fn spec_size(&self) -> nat {
        self.trait_ref.spec_size() + self.where_clauses.spec_size() + self.impl_items.spec_size()
    }

    fn free_variables(&self) -> (r: Vec<Variable>) {
        let mut out = self.trait_ref.free_variables();
        let mut where_clauses = self.where_clauses.free_variables();
        out.append(&mut where_clauses);
        let mut impl_items = self.impl_items.free_variables();
        out.append(&mut impl_items);
        out
    }

    fn size(&self) -> (n: usize) {
        let n = add_sizes(self.trait_ref.size(), self.where_clauses.size());
        add_sizes(n, self.impl_items.size())
    }
}

impl Fold for TraitImplBoundData {
    open spec fn instantiates_to(
        &self,
        depth: usize,
        replacements: Seq<Variable>,
        result: &TraitImplBoundData,
    ) -> bool {
        &&& self.trait_ref.instantiates_to(depth, replacements, &result.trait_ref)
        &&& self.where_clauses.instantiates_to(depth, replacements, &result.where_clauses)
        &&& self.impl_items.instantiates_to(depth, replacements, &result.impl_items)
    }

    open spec fn binder_depth(&self) -> nat {
        deeper(
            deeper(self.trait_ref.binder_depth(), self.where_clauses.binder_depth()),
            self.impl_items.binder_depth(),
        )
    }

    proof fn lemma_instantiate(
        &self,
        depth: usize,
        replacements: Seq<Variable>,
        result: &TraitImplBoundData,
    ) {
        self.trait_ref.lemma_instantiate(depth, replacements, &result.trait_ref);
        self.where_clauses.lemma_instantiate(depth, replacements, &result.where_clauses);
        self.impl_items.lemma_instantiate(depth, replacements, &result.impl_items);
        lemma_replace_all_concat(
            self.trait_ref.spec_free_variables(),
            self.where_clauses.spec_free_variables(),
            depth,
            replacements,
        );
        lemma_replace_all_concat(
            self.trait_ref.spec_free_variables() + self.where_clauses.spec_free_variables(),
            self.impl_items.spec_free_variables(),
            depth,
            replacements,
        );
    }

    fn instantiate(&self, depth: usize, replacements: &Vec<Variable>) -> (r: TraitImplBoundData) {
        TraitImplBoundData {
            trait_ref: self.trait_ref.instantiate(depth, replacements),
            where_clauses: self.where_clauses.instantiate(depth, replacements),
            impl_items: self.impl_items.instantiate(depth, replacements),
        }
    }
}

/// An item of a trait implementation.
#[derive(Clone, Debug, PartialEq, Eq, PartialOrd, Ord, Hash)]
pub enum ImplItem {
    Fn(Fn),
    AssociatedTyValue(AssociatedTyValue),
}

impl Visit for ImplItem {
    open spec fn spec_free_variables(&self) -> Seq<Variable> {
        match *self {
            ImplItem::Fn(x) => x.spec_free_variables(),
            ImplItem::AssociatedTyValue(x) => x.spec_free_variables(),
        }
    }

    open spec fn spec_size(&self) -> nat {
        match *self {
            ImplItem::Fn(x) => x.spec_size(),
            ImplItem::AssociatedTyValue(x) => x.spec_size(),
        }
    }

    fn free_variables(&self) -> (r: Vec<Variable>) {
        match self {
            ImplItem::Fn(x) => x.free_variables(),
            ImplItem::AssociatedTyValue(x) => x.free_variables(),
        }
    }

    fn size(&self) -> (n: usize) {
        match self {
            ImplItem::Fn(x) => x.size(),
            ImplItem::AssociatedTyValue(x) => x.size(),
        }
    }
}

impl Fold for ImplItem {
    open spec fn instantiates_to(
        &self,
        depth: usize,
        replacements: Seq<Variable>,
        result: &ImplItem,
    ) -> bool {
        match *self {
            ImplItem::Fn(x) => {
                &&& *result matches ImplItem::Fn(y)
                &&& x.instantiates_to(depth, replacements, &y)
            },
            ImplItem::AssociatedTyValue(x) => {
                &&& *result matches ImplItem::AssociatedTyValue(y)
                &&& x.instantiates_to(depth, replacements, &y)
            },
        }
    }

    open spec fn binder_depth(&self) -> nat {
        match *self {
            ImplItem::Fn(x) => x.binder_depth(),
            ImplItem::AssociatedTyValue(x) => x.binder_depth(),
        }
    }

    proof fn lemma_instantiate(
        &self,
        depth: usize,
        replacements: Seq<Variable>,
        result: &ImplItem,
    ) {
        match (*self, *result) {
            (ImplItem::Fn(x), ImplItem::Fn(y)) => {
                x.lemma_instantiate(depth, replacements, &y);
            },
            (ImplItem::AssociatedTyValue(x), ImplItem::AssociatedTyValue(y)) => {
                x.lemma_instantiate(depth, replacements, &y);
            },
            _ => {},
        }
    }

    fn instantiate(&self, depth: usize, replacements: &Vec<Variable>) -> (r: ImplItem) {
        match self {
            ImplItem::Fn(x) => ImplItem::Fn(x.instantiate(depth, replacements)),
            ImplItem::AssociatedTyValue(x) => {
                ImplItem::AssociatedTyValue(x.instantiate(depth, replacements))
            },
        }
    }
}

impl From<Fn> for ImplItem {
    fn from(v: Fn) -> (r: ImplItem) {
        ImplItem::Fn(v)
    }
}

impl vstd::std_specs::convert::FromSpecImpl<Fn> for ImplItem {
    open spec fn obeys_from_spec() -> bool {
        true
    }

    open spec fn from_spec(v: Fn) -> ImplItem {
        ImplItem::Fn(v)
    }
}

impl From<AssociatedTyValue> for ImplItem {
    fn from(v: AssociatedTyValue) -> (r: ImplItem) {
        ImplItem::AssociatedTyValue(v)
    }
}

impl vstd::std_specs::convert::FromSpecImpl<AssociatedTyValue> for ImplItem {
    open spec fn obeys_from_spec() -> bool {
        true
    }

    open spec fn from_spec(v: AssociatedTyValue) -> ImplItem {
        ImplItem::AssociatedTyValue(v)
    }
}

/// The value an implementation gives to an associated type. The binder
/// introduces the generic parameters of the associated type.
#[derive(Clone, Debug, PartialEq, Eq, PartialOrd, Ord, Hash)]
pub struct AssociatedTyValue {
    pub id: AssociatedItemId,
    pub binder: Binder<AssociatedTyValueBoundData>,
}

impl Visit for AssociatedTyValue {
    open spec fn spec_free_variables(&self) -> Seq<Variable> {
        self.binder.spec_free_variables()
    }

    open spec fn spec_size(&self) -> nat {
        1 + self.binder.spec_size()
    }

    fn free_variables(&self) -> (r: Vec<Variable>) {
        self.binder.free_variables()
    }

    fn size(&self) -> (n: usize) {
        add_sizes(1, self.binder.size())
    }
}

impl Fold for AssociatedTyValue {
    open spec fn instantiates_to(
        &self,
        depth: usize,
        replacements: Seq<Variable>,
        result: &AssociatedTyValue,
    ) -> bool {
        &&& result.id == self.id
        &&& self.binder.instantiates_to(depth, replacements, &result.binder)
    }

    open spec fn binder_depth(&self) -> nat {
        self.binder.binder_depth()
    }

    proof fn lemma_instantiate(
        &self,
        depth: usize,
        replacements: Seq<Variable>,
        result: &AssociatedTyValue,
    ) {
        self.binder.lemma_instantiate(depth, replacements, &result.binder);
    }

    fn instantiate(&self, depth: usize, replacements: &Vec<Variable>) -> (r: AssociatedTyValue) {
        AssociatedTyValue {
            id: self.id.clone(),
            binder: self.binder.instantiate(depth, replacements),
        }
    }
}

/// An associated type value under its generic parameters.
#[derive(Clone, Debug, PartialEq, Eq, PartialOrd, Ord, Hash)]
pub struct AssociatedTyValueBoundData {
    pub where_clauses: Vec<Predicate>,
    pub ty: Ty,
}

impl Visit for AssociatedTyValueBoundData {
    open spec fn spec_free_variables(&self) -> Seq<Variable> {
        self.where_clauses.spec_free_variables() + self.ty.spec_free_variables()
    }

    open spec fn spec_size(&self) -> nat {
        self.where_clauses.spec_size() + self.ty.spec_size()
    }

    fn free_variables(&self) -> (r: Vec<Variable>) {
        let mut out = self.where_clauses.free_variables();
        let mut ty = self.ty.free_variables();
        out.append(&mut ty);
        out
    }

    fn size(&self) -> (n: usize) {
        add_sizes(self.where_clauses.size(), self.ty.size())
    }
}

impl Fold for AssociatedTyValueBoundData {
    open spec fn instantiates_to(
        &self,
        depth: usize,
        replacements: Seq<Variable>,
        result: &AssociatedTyValueBoundData,
    ) -> bool {
        &&& self.where_clauses.instantiates_to(depth, replacements, &result.where_clauses)
        &&& self.ty.instantiates_to(depth, replacements, &result.ty)
    }

    open spec fn binder_depth(&self) -> nat {
        deeper(self.where_clauses.binder_depth(), self.ty.binder_depth())
    }

    proof fn lemma_instantiate(
        &self,
        depth: usize,
        replacements: Seq<Variable>,
        result: &AssociatedTyValueBoundData,
    ) {
        self.where_clauses.lemma_instantiate(depth, replacements, &result.where_clauses);
        self.ty.lemma_instantiate(depth, replacements, &result.ty);
        lemma_replace_all_concat(
            self.where_clauses.spec_free_variables(),
            self.ty.spec_free_variables(),
            depth,
            replacements,
        );
    }

    fn instantiate(
        &self,
        depth: usize,
        replacements: &Vec<Variable>,
    ) -> (r: AssociatedTyValueBoundData) {
        AssociatedTyValueBoundData {
            where_clauses: self.where_clauses.instantiate(depth, replacements),
            ty: self.ty.instantiate(depth, replacements),
        }
    }
}

} // verus!
