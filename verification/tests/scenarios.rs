use formality_decl::binder::Binder;
use formality_decl::grammar::{AdtVariant, Field, FieldName, Fn, FnBoundData};
use formality_decl::ids::{AdtId, FieldId, FnId, TraitId, VariantId};
use formality_decl::ty::{
    LtData, Lt, Parameter, Predicate, RigidName, RigidTy, ScalarId, TraitRef, Ty, TyData,
};
use formality_decl::variable::{
    BoundVar, InferenceVar, ParameterKind, PlaceholderVar, Universe, Variable,
};
use formality_decl::visit::Visit;

fn bound(debruijn: usize, var_index: usize) -> Variable {
    Variable::BoundVar(BoundVar { debruijn, var_index })
}

fn placeholder(universe: usize, var_index: usize) -> Variable {
    Variable::PlaceholderVar(PlaceholderVar { universe: Universe { index: universe }, var_index })
}

fn inference(index: usize) -> Variable {
    Variable::InferenceVar(InferenceVar { index })
}

fn var_ty(v: Variable) -> Ty {
    Ty::new(TyData::Variable(v))
}

fn scalar(id: ScalarId) -> Ty {
    Ty::new(TyData::RigidTy(RigidTy { name: RigidName::ScalarId(id), parameters: vec![] }))
}

fn adt(name: &str, parameters: Vec<Parameter>) -> Ty {
    Ty::new(TyData::RigidTy(RigidTy {
        name: RigidName::AdtId(AdtId::new(name).unwrap()),
        parameters,
    }))
}

fn field(name: &str, ty: Ty) -> Field {
    Field { name: FieldName::Id(FieldId::new(name).unwrap()), ty }
}

#[test]
fn fn_over_its_own_generic_parameter_is_closed() {
    // fn id<T>(T, Vec<T>) -> T where T: Clone
    let t = || var_ty(bound(0, 0));
    let f = Fn {
        id: FnId::new("id").unwrap(),
        binder: Binder::new(
            vec![ParameterKind::Ty],
            FnBoundData {
                input_tys: vec![t(), adt("Vec", vec![Parameter::Ty(t())])],
                output_ty: t(),
                where_clauses: vec![Predicate::IsImplemented(TraitRef {
                    trait_id: TraitId::new("Clone").unwrap(),
                    parameters: vec![Parameter::Ty(t())],
                })],
            },
        ),
    };
    assert_eq!(f.binder.peek().free_variables(), vec![bound(0, 0); 4]);
    assert_eq!(f.free_variables(), Vec::<Variable>::new());
    assert!(f.references_only_placeholder_variables());
    assert_eq!(f.max_universe(), Universe::root());
}

#[test]
fn placeholders_of_two_universes() {
    let term = (var_ty(placeholder(2, 0)), var_ty(placeholder(0, 1)));
    assert_eq!(term.free_variables(), vec![placeholder(2, 0), placeholder(0, 1)]);
    assert_eq!(term.max_universe(), Universe { index: 2 });
    assert!(term.references_only_placeholder_variables());
    let swapped = (var_ty(placeholder(0, 1)), var_ty(placeholder(2, 0)));
    assert_eq!(swapped.max_universe(), Universe { index: 2 });
}

#[test]
fn inference_variable_beside_a_placeholder() {
    let term = vec![var_ty(inference(7)), var_ty(placeholder(3, 0))];
    assert!(!term.references_only_placeholder_variables());
    assert_eq!(term.max_universe(), Universe { index: 3 });
    let only_inference = vec![var_ty(inference(7))];
    assert!(!only_inference.references_only_placeholder_variables());
    assert_eq!(only_inference.max_universe(), Universe::root());
}

#[test]
fn variant_size_is_name_plus_fields() {
    // Field types of size 1, 2 and 1; each field adds one leaf for its name,
    // and the variant adds one for its own.
    let one = scalar(ScalarId::U32);
    let two = adt("Box", vec![Parameter::Ty(var_ty(placeholder(0, 0)))]);
    let other = var_ty(inference(0));
    assert_eq!(one.size(), 1);
    assert_eq!(two.size(), 2);
    assert_eq!(other.size(), 1);
    let fields = vec![field("a", one), field("b", two), field("c", other)];
    assert_eq!(fields[0].size(), 2);
    assert_eq!(fields[1].size(), 3);
    assert_eq!(fields[2].size(), 2);
    let variant = AdtVariant { name: VariantId::new("Some").unwrap(), fields };
    assert_eq!(variant.size(), 1 + 2 + 3 + 2);
    let empty = AdtVariant { name: VariantId::new("None").unwrap(), fields: vec![] };
    assert_eq!(empty.size(), 1);
}

#[test]
fn opening_two_variables_with_placeholders() {
    // <T, 'a> (T, &'a T)
    let payload = (
        var_ty(bound(0, 0)),
        Ty::new(TyData::RigidTy(RigidTy {
            name: RigidName::Ref(formality_decl::ty::RefKind::Shared),
            parameters: vec![
                Parameter::Lt(Lt::new(LtData::Variable(bound(0, 1)))),
                Parameter::Ty(var_ty(bound(0, 0))),
            ],
        })),
    );
    let binder = Binder::new(vec![ParameterKind::Ty, ParameterKind::Lt], payload);
    assert_eq!(binder.len(), 2);
    assert_eq!(binder.free_variables(), Vec::<Variable>::new());
    let opened = binder.open_universally(Universe { index: 4 });
    assert_eq!(
        opened.free_variables(),
        vec![placeholder(4, 0), placeholder(4, 1), placeholder(4, 0)]
    );
    assert!(opened.references_only_placeholder_variables());
    assert_eq!(opened.max_universe(), Universe { index: 4 });
    assert_eq!(opened.size(), binder.size());
    assert_eq!(opened.0, var_ty(placeholder(4, 0)));
    // the binder itself is unchanged
    assert_eq!(binder.peek().free_variables(), vec![bound(0, 0), bound(0, 1), bound(0, 0)]);
}
