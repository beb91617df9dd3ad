use formality_decl::binder::Binder;
use formality_decl::fold::{inner_depth, Fold};
use formality_decl::grammar::{AssociatedTyBoundData, Fn, FnBoundData};
use formality_decl::ids::{AdtId, FnId, TraitId};
use formality_decl::ty::{
    Lt, LtData, Parameter, Predicate, RigidName, RigidTy, TraitRef, Ty, TyData,
};
use formality_decl::variable::{
    BoundVar, InferenceVar, ParameterKind, PlaceholderVar, Universe, Variable,
};
use formality_decl::visit::Visit;
use std::sync::Arc;

fn b(debruijn: usize, var_index: usize) -> Variable {
    Variable::BoundVar(BoundVar { debruijn, var_index })
}

fn p(universe: usize, var_index: usize) -> Variable {
    Variable::PlaceholderVar(PlaceholderVar { universe: Universe { index: universe }, var_index })
}

fn i(index: usize) -> Variable {
    Variable::InferenceVar(InferenceVar { index })
}

fn ty(v: Variable) -> Ty {
    Ty::new(TyData::Variable(v))
}

fn named(name: &str, parameters: Vec<Parameter>) -> Ty {
    Ty::new(TyData::RigidTy(RigidTy {
        name: RigidName::AdtId(AdtId::new(name).unwrap()),
        parameters,
    }))
}

fn sized(t: Ty) -> Predicate {
    Predicate::IsImplemented(TraitRef {
        trait_id: TraitId::new("Sized").unwrap(),
        parameters: vec![Parameter::Ty(t)],
    })
}

#[test]
fn replacing_a_single_variable() {
    let reps = vec![p(1, 0), i(8)];
    assert_eq!(b(0, 0).replace(0, &reps), p(1, 0));
    assert_eq!(b(0, 1).replace(0, &reps), i(8));
    assert_eq!(b(0, 2).replace(0, &reps), b(0, 2));
    assert_eq!(b(1, 1).replace(0, &reps), b(0, 1));
    assert_eq!(b(0, 1).replace(1, &reps), b(0, 1));
    assert_eq!(b(1, 1).replace(1, &reps), i(8));
    assert_eq!(b(5, 1).replace(1, &reps), b(4, 1));
    assert_eq!(p(0, 0).replace(0, &reps), p(0, 0));
    assert_eq!(i(0).replace(0, &reps), i(0));
    assert_eq!(b(0, 0).instantiate(0, &reps), p(1, 0));
}

#[test]
fn depth_grows_by_one_and_stops_at_the_top() {
    assert_eq!(inner_depth(0), 1);
    assert_eq!(inner_depth(41), 42);
    assert_eq!(inner_depth(usize::MAX), usize::MAX);
}

#[test]
fn opening_reaches_below_inner_binders() {
    // <T> { ensures: <I> [I: Sized, T: Sized], where: [T: Sized] }
    let payload = AssociatedTyBoundData {
        ensures: Binder::new(
            vec![ParameterKind::Ty],
            vec![sized(ty(b(0, 0))), sized(ty(b(1, 0))), sized(ty(b(2, 5)))],
        ),
        where_clauses: vec![sized(ty(b(0, 0))), sized(ty(b(1, 5)))],
    };
    let binder = Binder::new(vec![ParameterKind::Ty], payload);
    assert_eq!(binder.free_variables(), vec![b(0, 5), b(0, 5)]);
    let opened = binder.open_universally(Universe { index: 1 });
    assert_eq!(
        opened.ensures.peek(),
        &vec![sized(ty(b(0, 0))), sized(ty(p(1, 0))), sized(ty(b(1, 5)))]
    );
    assert_eq!(opened.where_clauses, vec![sized(ty(p(1, 0))), sized(ty(b(0, 5)))]);
    assert_eq!(opened.ensures.kinds(), &vec![ParameterKind::Ty]);
    assert_eq!(opened.free_variables(), vec![p(1, 0), b(0, 5), p(1, 0), b(0, 5)]);
}

#[test]
fn opening_with_inference_variables() {
    let payload = vec![ty(b(0, 1)), named("Vec", vec![Parameter::Ty(ty(b(0, 0)))]), ty(p(3, 3))];
    let binder = Binder::new(vec![ParameterKind::Ty, ParameterKind::Ty], payload);
    let opened = binder.open_existentially(10).unwrap();
    assert_eq!(opened.free_variables(), vec![i(11), i(10), p(3, 3)]);
    assert!(!opened.references_only_placeholder_variables());
    assert_eq!(opened.max_universe(), Universe { index: 3 });
    assert_eq!(opened[1], named("Vec", vec![Parameter::Ty(ty(i(10)))]));
    assert!(binder.open_existentially(usize::MAX - 1).is_some());
    assert!(binder.open_existentially(usize::MAX).is_none());
    let empty = Binder::new(vec![], ty(b(0, 0)));
    assert_eq!(empty.open_existentially(usize::MAX), Some(ty(b(0, 0))));
}

#[test]
fn opening_with_given_replacements() {
    let payload = (
        Lt::new(LtData::Variable(b(0, 0))),
        Some(ty(b(0, 1))),
        Arc::new(ty(b(0, 2))),
    );
    let binder = Binder::new(vec![ParameterKind::Lt, ParameterKind::Ty, ParameterKind::Ty], payload);
    let opened = binder.instantiate_with(&vec![p(2, 9), i(4)]);
    assert_eq!(opened.0, Lt::new(LtData::Variable(p(2, 9))));
    assert_eq!(opened.1, Some(ty(i(4))));
    // no replacement at index 2: the variable stays
    assert_eq!(*opened.2, ty(b(0, 2)));
    let static_lt = Lt::new(LtData::Static);
    assert_eq!(static_lt.instantiate(0, &vec![p(0, 0)]), static_lt);
    let none: Option<Ty> = None;
    assert_eq!(none.instantiate(0, &vec![p(0, 0)]), None);
    assert_eq!(7usize.instantiate(0, &vec![p(0, 0)]), 7);
    assert_eq!(7u32.instantiate(0, &vec![p(0, 0)]), 7);
}

#[test]
fn opening_a_function_keeps_names_and_shape() {
    let f = Fn {
        id: FnId::new("get").unwrap(),
        binder: Binder::new(
            vec![ParameterKind::Ty],
            FnBoundData {
                input_tys: vec![named("Vec", vec![Parameter::Ty(ty(b(0, 0)))]), ty(b(1, 0))],
                output_ty: ty(b(0, 0)),
                where_clauses: vec![sized(ty(b(1, 1)))],
            },
        ),
    };
    // `f` sits under a trait's binder, which is opened here.
    let opened = f.instantiate(0, &vec![p(1, 0), p(1, 1)]);
    assert_eq!(opened.id, f.id);
    assert_eq!(opened.binder.kinds(), f.binder.kinds());
    assert_eq!(
        opened.binder.peek().input_tys,
        vec![named("Vec", vec![Parameter::Ty(ty(b(0, 0)))]), ty(p(1, 0))]
    );
    assert_eq!(opened.binder.peek().output_ty, ty(b(0, 0)));
    assert_eq!(opened.binder.peek().where_clauses, vec![sized(ty(p(1, 1)))]);
    assert_eq!(f.free_variables(), vec![b(0, 0), b(0, 1)]);
    assert_eq!(opened.free_variables(), vec![p(1, 0), p(1, 1)]);
    assert_eq!(opened.size(), f.size());
}
