//! Names of program entities. Each kind of entity has a nominal type of its
//! own; all of them wrap a syntactically valid identifier.

use crate::fold::Fold;
use crate::variable::{replace_all, Variable};
use crate::visit::Visit;
use vstd::prelude::*;

verus! {

/// `c` may start an identifier: an ASCII letter or an underscore.
pub open spec fn is_identifier_start(c: char) -> bool {
    ||| 'a' <= c <= 'z'
    ||| 'A' <= c <= 'Z'
    ||| c == '_'
}

/// `c` may continue an identifier: an ASCII letter, an ASCII digit or an
/// underscore.
pub open spec fn is_identifier_continue(c: char) -> bool {
    ||| is_identifier_start(c)
    ||| '0' <= c <= '9'
}

/// `s` is an identifier: not empty, a start character first, continuation
/// characters after it.
pub open spec fn is_identifier(s: Seq<char>) -> bool {
    &&& s.len() > 0
    &&& is_identifier_start(s[0])
    &&& forall|i: int| 0 <= i < s.len() ==> is_identifier_continue(#[trigger] s[i])
}

fn byte_starts_identifier(b: u8, Ghost(c): Ghost<char>) -> (r: bool)
    requires
        c <= '\u{7f}',
        c as u8 == b,
    ensures
        r == is_identifier_start(c),
{
    (b >= 97 && b <= 122) || (b >= 65 && b <= 90) || b == 95
}

fn byte_continues_identifier(b: u8, Ghost(c): Ghost<char>) -> (r: bool)
    requires
        c <= '\u{7f}',
        c as u8 == b,
    ensures
        r == is_identifier_continue(c),
{
    byte_starts_identifier(b, Ghost(c)) || (b >= 48 && b <= 57)
}

/// A name that is known to be an identifier.
#[derive(Debug, PartialEq, Eq, PartialOrd, Ord, Hash)]
pub struct Identifier {
    name: String,
}

impl View for Identifier {
    type V = Seq<char>;

    closed spec fn view(&self) -> Seq<char> {
        self.name@
    }
}

impl Identifier {
    #[verifier::type_invariant]
    spec fn well_formed(self) -> bool {
        is_identifier(self.name@)
    }

    /// Accepts `name` exactly when it is an identifier, and keeps it
    /// unchanged.
    pub fn new(name: &str) -> (r: Option<Identifier>)
        ensures
            r is Some <==> is_identifier(name@),
            r matches Some(id) ==> id@ == name@,
    {
        if !name.is_ascii() {
            proof {
                if is_identifier(name@) {
                    assert forall|i: int| 0 <= i < name@.len() implies '\0' <= #[trigger] name@[i]
                        <= '\u{7f}' by {
                        assert(is_identifier_continue(name@[i]));
                    }
                    assert(vstd::utf8::is_ascii_chars(name@));
                }
            }
            return None;
        }
        let bytes = name.as_bytes();
        proof {
            vstd::string::is_ascii_spec_bytes(name);
        }
        if bytes.len() == 0 {
            return None;
        }
        if !byte_starts_identifier(bytes[0], Ghost(name@[0])) {
            return None;
        }
        let mut i: usize = 1;
        while i < bytes.len()
            invariant
                1 <= i <= bytes.len(),
                bytes@.len() == name@.len(),
                forall|j: int| 0 <= j < bytes@.len() ==> bytes@[j] == #[trigger] name@[j] as u8,
                forall|j: int| 0 <= j < name@.len() ==> #[trigger] name@[j] <= '\u{7f}',
                is_identifier_start(name@[0]),
                forall|j: int| 0 <= j < i ==> is_identifier_continue(#[trigger] name@[j]),
            decreases bytes.len() - i,
        {
            if !byte_continues_identifier(bytes[i], Ghost(name@[i as int])) {
                return None;
            }
            i = i + 1;
        }
        Some(Identifier { name: name.to_owned() })
    }

    /// The text of the identifier.
    pub fn as_str(&self) -> (r: &str)
        ensures
            r@ == self@,
            is_identifier(r@),
    {
        proof {
            use_type_invariant(self);
        }
        self.name.as_str()
    }
}

impl Clone for Identifier {
    fn clone(&self) -> (r: Identifier)
        ensures
            r == *self,
    {
        proof {
            use_type_invariant(self);
        }
        Identifier { name: self.name.clone() }
    }
}

/// The name of a crate.
#[derive(Debug, PartialEq, Eq, PartialOrd, Ord, Hash)]
pub struct CrateId {
    pub name: Identifier,
}

impl View for CrateId {
    type V = Seq<char>;

    open spec fn view(&self) -> Seq<char> {
        self.name@
    }
}

impl CrateId {
    /// Accepts `name` exactly when it is an identifier.
    pub fn new(name: &str) -> (r: Option<CrateId>)
        ensures
            r is Some <==> is_identifier(name@),
            r matches Some(id) ==> id@ == name@,
    {
        match Identifier::new(name) {
            Some(name) => Some(CrateId { name }),
            None => None,
        }
    }
}

impl Clone for CrateId {
    fn clone(&self) -> (r: CrateId)
        ensures
            r == *self,
    {
        CrateId { name: self.name.clone() }
    }
}

impl Visit for CrateId {
    open spec fn spec_free_variables(&self) -> Seq<Variable> {
        Seq::empty()
    }

    open spec fn spec_size(&self) -> nat {
        1
    }

    fn free_variables(&self) -> (r: Vec<Variable>) {
        Vec::new()
    }

    fn size(&self) -> (n: usize) {
        1
    }
}

impl Fold for CrateId {
    open spec fn instantiates_to(
        &self,
        depth: usize,
        replacements: Seq<Variable>,
        result: &CrateId,
    ) -> bool {
        *result == *self
    }

    open spec fn binder_depth(&self) -> nat {
        0
    }

    proof fn lemma_instantiate(&self, depth: usize, replacements: Seq<Variable>, result: &CrateId) {
        assert(result.spec_free_variables() =~= replace_all(
            self.spec_free_variables(),
            depth,
            replacements,
        ));
    }

    fn instantiate(&self, depth: usize, replacements: &Vec<Variable>) -> (r: CrateId) {
        self.clone()
    }
}

/// The name of a trait.
#[derive(Debug, PartialEq, Eq, PartialOrd, Ord, Hash)]
pub struct TraitId {
    pub name: Identifier,
}

impl View for TraitId {
    type V = Seq<char>;

    open spec fn view(&self) -> Seq<char> {
        self.name@
    }
}

impl TraitId {
    /// Accepts `name` exactly when it is an identifier.
    pub fn new(name: &str) -> (r: Option<TraitId>)
        ensures
            r is Some <==> is_identifier(name@),
            r matches Some(id) ==> id@ == name@,
    {
        match Identifier::new(name) {
            Some(name) => Some(TraitId { name }),
            None => None,
        }
    }
}

impl Clone for TraitId {
    fn clone(&self) -> (r: TraitId)
        ensures
            r == *self,
    {
        TraitId { name: self.name.clone() }
    }
}

impl Visit for TraitId {
    open spec fn spec_free_variables(&self) -> Seq<Variable> {
        Seq::empty()
    }

    open spec fn spec_size(&self) -> nat {
        1
    }

    fn free_variables(&self) -> (r: Vec<Variable>) {
        Vec::new()
    }

    fn size(&self) -> (n: usize) {
        1
    }
}

impl Fold for TraitId {
    open spec fn instantiates_to(
        &self,
        depth: usize,
        replacements: Seq<Variable>,
        result: &TraitId,
    ) -> bool {
        *result == *self
    }

    open spec fn binder_depth(&self) -> nat {
        0
    }

    proof fn lemma_instantiate(&self, depth: usize, replacements: Seq<Variable>, result: &TraitId) {
        assert(result.spec_free_variables() =~= replace_all(
            self.spec_free_variables(),
            depth,
            replacements,
        ));
    }

    fn instantiate(&self, depth: usize, replacements: &Vec<Variable>) -> (r: TraitId) {
        self.clone()
    }
}

/// The name of a struct, enum or union.
#[derive(Debug, PartialEq, Eq, PartialOrd, Ord, Hash)]
pub struct AdtId {
    pub name: Identifier,
}

impl View for AdtId {
    type V = Seq<char>;

    open spec fn view(&self) -> Seq<char> {
        self.name@
    }
}

impl AdtId {
    /// Accepts `name` exactly when it is an identifier.
    pub fn new(name: &str) -> (r: Option<AdtId>)
        ensures
            r is Some <==> is_identifier(name@),
            r matches Some(id) ==> id@ == name@,
    {
        match Identifier::new(name) {
            Some(name) => Some(AdtId { name }),
            None => None,
        }
    }
}

impl Clone for AdtId {
    fn clone(&self) -> (r: AdtId)
        ensures
            r == *self,
    {
        AdtId { name: self.name.clone() }
    }
}

impl Visit for AdtId {
    open spec fn spec_free_variables(&self) -> Seq<Variable> {
        Seq::empty()
    }

    open spec fn spec_size(&self) -> nat {
        1
    }

    fn free_variables(&self) -> (r: Vec<Variable>) {
        Vec::new()
    }

    fn size(&self) -> (n: usize) {
        1
    }
}

impl Fold for AdtId {
    open spec fn instantiates_to(
        &self,
        depth: usize,
        replacements: Seq<Variable>,
        result: &AdtId,
    ) -> bool {
        *result == *self
    }

    open spec fn binder_depth(&self) -> nat {
        0
    }

    proof fn lemma_instantiate(&self, depth: usize, replacements: Seq<Variable>, result: &AdtId) {
        assert(result.spec_free_variables() =~= replace_all(
            self.spec_free_variables(),
            depth,
            replacements,
        ));
    }

    fn instantiate(&self, depth: usize, replacements: &Vec<Variable>) -> (r: AdtId) {
        self.clone()
    }
}

/// The name of a function.
#[derive(Debug, PartialEq, Eq, PartialOrd, Ord, Hash)]
pub struct FnId {
    pub name: Identifier,
}

impl View for FnId {
    type V = Seq<char>;

    open spec fn view(&self) -> Seq<char> {
        self.name@
    }
}

impl FnId {
    /// Accepts `name` exactly when it is an identifier.
    pub fn new(name: &str) -> (r: Option<FnId>)
        ensures
            r is Some <==> is_identifier(name@),
            r matches Some(id) ==> id@ == name@,
    {
        match Identifier::new(name) {
            Some(name) => Some(FnId { name }),
            None => None,
        }
    }
}

impl Clone for FnId {
    fn clone(&self) -> (r: FnId)
        ensures
            r == *self,
    {
        FnId { name: self.name.clone() }
    }
}

impl Visit for FnId {
    open spec fn spec_free_variables(&self) -> Seq<Variable> {
        Seq::empty()
    }

    open spec fn spec_size(&self) -> nat {
        1
    }

    fn free_variables(&self) -> (r: Vec<Variable>) {
        Vec::new()
    }

    fn size(&self) -> (n: usize) {
        1
    }
}

impl Fold for FnId {
    open spec fn instantiates_to(
        &self,
        depth: usize,
        replacements: Seq<Variable>,
        result: &FnId,
    ) -> bool {
        *result == *self
    }

    open spec fn binder_depth(&self) -> nat {
        0
    }

    proof fn lemma_instantiate(&self, depth: usize, replacements: Seq<Variable>, result: &FnId) {
        assert(result.spec_free_variables() =~= replace_all(
            self.spec_free_variables(),
            depth,
            replacements,
        ));
    }

    fn instantiate(&self, depth: usize, replacements: &Vec<Variable>) -> (r: FnId) {
        self.clone()
    }
}

/// The name of a named field.
#[derive(Debug, PartialEq, Eq, PartialOrd, Ord, Hash)]
pub struct FieldId {
    pub name: Identifier,
}

impl View for FieldId {
    type V = Seq<char>;

    open spec fn view(&self) -> Seq<char> {
        self.name@
    }
}

impl FieldId {
    /// Accepts `name` exactly when it is an identifier.
    pub fn new(name: &str) -> (r: Option<FieldId>)
        ensures
            r is Some <==> is_identifier(name@),
            r matches Some(id) ==> id@ == name@,
    {
        match Identifier::new(name) {
            Some(name) => Some(FieldId { name }),
            None => None,
        }
    }
}

impl Clone for FieldId {
    fn clone(&self) -> (r: FieldId)
        ensures
            r == *self,
    {
        FieldId { name: self.name.clone() }
    }
}

impl Visit for FieldId {
    open spec fn spec_free_variables(&self) -> Seq<Variable> {
        Seq::empty()
    }

    open spec fn spec_size(&self) -> nat {
        1
    }

    fn free_variables(&self) -> (r: Vec<Variable>) {
        Vec::new()
    }

    fn size(&self) -> (n: usize) {
        1
    }
}

impl Fold for FieldId {
    open spec fn instantiates_to(
        &self,
        depth: usize,
        replacements: Seq<Variable>,
        result: &FieldId,
    ) -> bool {
        *result == *self
    }

    open spec fn binder_depth(&self) -> nat {
        0
    }

    proof fn lemma_instantiate(&self, depth: usize, replacements: Seq<Variable>, result: &FieldId) {
        assert(result.spec_free_variables() =~= replace_all(
            self.spec_free_variables(),
            depth,
            replacements,
        ));
    }

    fn instantiate(&self, depth: usize, replacements: &Vec<Variable>) -> (r: FieldId) {
        self.clone()
    }
}

/// The name of a variant of an algebraic data type.
#[derive(Debug, PartialEq, Eq, PartialOrd, Ord, Hash)]
pub struct VariantId {
    pub name: Identifier,
}

impl View for VariantId {
    type V = Seq<char>;

    open spec fn view(&self) -> Seq<char> {
        self.name@
    }
}

impl VariantId {
    /// Accepts `name` exactly when it is an identifier.
    pub fn new(name: &str) -> (r: Option<VariantId>)
        ensures
            r is Some <==> is_identifier(name@),
            r matches Some(id) ==> id@ == name@,
    {
        match Identifier::new(name) {
            Some(name) => Some(VariantId { name }),
            None => None,
        }
    }
}

impl Clone for VariantId {
    fn clone(&self) -> (r: VariantId)
        ensures
            r == *self,
    {
        VariantId { name: self.name.clone() }
    }
}

impl Visit for VariantId {
    open spec fn spec_free_variables(&self) -> Seq<Variable> {
        Seq::empty()
    }

    open spec fn spec_size(&self) -> nat {
        1
    }

    fn free_variables(&self) -> (r: Vec<Variable>) {
        Vec::new()
    }

    fn size(&self) -> (n: usize) {
        1
    }
}

impl Fold for VariantId {
    open spec fn instantiates_to(
        &self,
        depth: usize,
        replacements: Seq<Variable>,
        result: &VariantId,
    ) -> bool {
        *result == *self
    }

    open spec fn binder_depth(&self) -> nat {
        0
    }

    proof fn lemma_instantiate(
        &self,
        depth: usize,
        replacements: Seq<Variable>,
        result: &VariantId,
    ) {
        assert(result.spec_free_variables() =~= replace_all(
            self.spec_free_variables(),
            depth,
            replacements,
        ));
    }

    fn instantiate(&self, depth: usize, replacements: &Vec<Variable>) -> (r: VariantId) {
        self.clone()
    }
}

/// The name of an associated item of a trait.
#[derive(Debug, PartialEq, Eq, PartialOrd, Ord, Hash)]
pub struct AssociatedItemId {
    pub name: Identifier,
}

impl View for AssociatedItemId {
    type V = Seq<char>;

    open spec fn view(&self) -> Seq<char> {
        self.name@
    }
}

impl AssociatedItemId {
    /// Accepts `name` exactly when it is an identifier.
    pub fn new(name: &str) -> (r: Option<AssociatedItemId>)
        ensures
            r is Some <==> is_identifier(name@),
            r matches Some(id) ==> id@ == name@,
    {
        match Identifier::new(name) {
            Some(name) => Some(AssociatedItemId { name }),
            None => None,
        }
    }
}

impl Clone for AssociatedItemId {
    fn clone(&self) -> (r: AssociatedItemId)
        ensures
            r == *self,
    {
        AssociatedItemId { name: self.name.clone() }
    }
}

impl Visit for AssociatedItemId {
    open spec fn spec_free_variables(&self) -> Seq<Variable> {
        Seq::empty()
    }

    open spec fn spec_size(&self) -> nat {
        1
    }

    fn free_variables(&self) -> (r: Vec<Variable>) {
        Vec::new()
    }

    fn size(&self) -> (n: usize) {
        1
    }
}

impl Fold for AssociatedItemId {
    open spec fn instantiates_to(
        &self,
        depth: usize,
        replacements: Seq<Variable>,
        result: &AssociatedItemId,
    ) -> bool {
        *result == *self
    }

    open spec fn binder_depth(&self) -> nat {
        0
    }

    proof fn lemma_instantiate(
        &self,
        depth: usize,
        replacements: Seq<Variable>,
        result: &AssociatedItemId,
    ) {
        assert(result.spec_free_variables() =~= replace_all(
            self.spec_free_variables(),
            depth,
            replacements,
        ));
    }

    fn instantiate(&self, depth: usize, replacements: &Vec<Variable>) -> (r: AssociatedItemId) {
        self.clone()
    }
}

} // verus!
