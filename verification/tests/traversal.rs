use formality_decl::binder::Binder;
use formality_decl::collections::{OrderedSet, TotalOrder};
use formality_decl::grammar::{
    Adt, AdtBoundData, AdtKind, AdtVariant, AssociatedTy, AssociatedTyBoundData,
    AssociatedTyValue, AssociatedTyValueBoundData, Crate, CrateItem, Field, FieldName, Fn,
    FnBoundData, ImplItem, Program, Trait, TraitBoundData, TraitImpl, TraitImplBoundData,
    TraitItem,
};
use formality_decl::ids::{
    AdtId, AssociatedItemId, CrateId, FieldId, FnId, Identifier, TraitId, VariantId,
};
use formality_decl::ty::{
    AliasTy, Lt, LtData, Parameter, Predicate, RefKind, RigidName, RigidTy, ScalarId, TraitRef,
    Ty, TyData,
};
use formality_decl::variable::{
    BoundVar, InferenceVar, ParameterKind, PlaceholderVar, Universe, Variable,
};
use formality_decl::visit::{add_sizes, Visit};
use std::sync::Arc;

fn b(debruijn: usize, var_index: usize) -> Variable {
    Variable::BoundVar(BoundVar { debruijn, var_index })
}

fn p(universe: usize, var_index: usize) -> Variable {
    Variable::PlaceholderVar(PlaceholderVar { universe: Universe { index: universe }, var_index })
}

fn i(index: usize) -> Variable {
    Variable::InferenceVar(InferenceVar { index })
}

fn ty(v: Variable) -> Ty {
    Ty::new(TyData::Variable(v))
}

fn lt(v: Variable) -> Lt {
    Lt::new(LtData::Variable(v))
}

fn named(name: &str, parameters: Vec<Parameter>) -> Ty {
    Ty::new(TyData::RigidTy(RigidTy {
        name: RigidName::AdtId(AdtId::new(name).unwrap()),
        parameters,
    }))
}

fn implemented(trait_name: &str, parameters: Vec<Parameter>) -> Predicate {
    Predicate::IsImplemented(TraitRef { trait_id: TraitId::new(trait_name).unwrap(), parameters })
}

fn no_vars() -> Vec<Variable> {
    Vec::new()
}

#[test]
fn scalar_leaves_have_size_one_and_no_variables() {
    assert_eq!(7usize.size(), 1);
    assert_eq!(7u32.size(), 1);
    assert_eq!(7usize.free_variables(), no_vars());
    assert_eq!(7u32.free_variables(), no_vars());
    assert_eq!(CrateId::new("core").unwrap().size(), 1);
    assert_eq!(AdtKind::Enum.size(), 1);
    assert_eq!(FieldName::Index(3).size(), 1);
    assert_eq!(FieldName::Id(FieldId::new("x").unwrap()).size(), 1);
    assert_eq!(RigidName::Tuple(2).size(), 1);
    assert_eq!(Lt::new(LtData::Static).size(), 1);
    assert_eq!(Lt::new(LtData::Static).free_variables(), no_vars());
    assert_eq!(p(1, 0).size(), 1);
    assert_eq!(b(0, 0).size(), 1);
}

#[test]
fn a_variable_is_free_in_itself() {
    assert_eq!(p(1, 2).free_variables(), vec![p(1, 2)]);
    assert_eq!(i(3).free_variables(), vec![i(3)]);
    assert_eq!(b(0, 1).free_variables(), vec![b(0, 1)]);
    assert_eq!(ty(b(2, 1)).free_variables(), vec![b(2, 1)]);
    assert_eq!(lt(i(5)).free_variables(), vec![i(5)]);
}

#[test]
fn sequence_concatenates_in_order_and_sums_sizes() {
    let v = vec![ty(p(0, 0)), named("Vec", vec![Parameter::Ty(ty(i(1)))]), ty(p(0, 0))];
    assert_eq!(v.free_variables(), vec![p(0, 0), i(1), p(0, 0)]);
    assert_eq!(v.size(), 1 + 2 + 1);
    let sum: usize = v.iter().map(|e| e.size()).sum();
    assert_eq!(v.size(), sum);
    let empty: Vec<Ty> = vec![];
    assert_eq!(empty.size(), 0);
    assert_eq!(empty.free_variables(), no_vars());
}

#[test]
fn optional_value_contributes_nothing_when_empty() {
    let none: Option<Ty> = None;
    assert_eq!(none.size(), 0);
    assert_eq!(none.free_variables(), no_vars());
    let some = Some(named("Box", vec![Parameter::Ty(ty(i(0)))]));
    assert_eq!(some.size(), 2);
    assert_eq!(some.free_variables(), vec![i(0)]);
}

#[test]
fn shared_handle_delegates_and_sharing_counts_each_occurrence() {
    let shared = Arc::new(named("Box", vec![Parameter::Ty(ty(p(1, 0)))]));
    assert_eq!(shared.size(), 2);
    assert_eq!(shared.free_variables(), vec![p(1, 0)]);
    let twice = (shared.clone(), shared.clone());
    assert_eq!(twice.size(), 4);
    assert_eq!(twice.free_variables(), vec![p(1, 0), p(1, 0)]);
    let inner = ty(i(9));
    let reused = named("Pair", vec![Parameter::Ty(inner.clone()), Parameter::Ty(inner)]);
    assert_eq!(reused.size(), 3);
    assert_eq!(reused.free_variables(), vec![i(9), i(9)]);
}

#[test]
fn tuples_go_left_to_right() {
    let pair = (ty(i(0)), lt(p(2, 1)));
    assert_eq!(pair.free_variables(), vec![i(0), p(2, 1)]);
    assert_eq!(pair.size(), 2);
    let triple = (ty(i(0)), 5usize, vec![ty(b(1, 0)), ty(i(4))]);
    assert_eq!(triple.free_variables(), vec![i(0), b(1, 0), i(4)]);
    assert_eq!(triple.size(), 1 + 1 + 2);
}

#[test]
fn reference_delegates_to_referent() {
    let t = named("Vec", vec![Parameter::Ty(ty(i(1)))]);
    let r = &t;
    assert_eq!(Visit::size(&r), 2);
    assert_eq!(Visit::free_variables(&r), vec![i(1)]);
    assert_eq!(Visit::max_universe(&r), Universe::root());
}

#[test]
fn saturating_sum_of_sizes() {
    assert_eq!(add_sizes(2, 3), 5);
    assert_eq!(add_sizes(usize::MAX, 1), usize::MAX);
    assert_eq!(add_sizes(usize::MAX - 1, 1), usize::MAX);
    assert_eq!(add_sizes(usize::MAX, usize::MAX), usize::MAX);
    assert_eq!(add_sizes(0, 0), 0);
}

#[test]
fn term_without_free_variables_is_ground_in_root() {
    let t = named("Unit", vec![]);
    assert_eq!(t.free_variables(), no_vars());
    assert_eq!(t.max_universe(), Universe::root());
    assert!(t.references_only_placeholder_variables());
    let program = Program { crates: vec![] };
    assert_eq!(program.free_variables(), no_vars());
    assert_eq!(program.max_universe(), Universe { index: 0 });
    assert!(program.references_only_placeholder_variables());
    assert_eq!(program.size(), 0);
}

#[test]
fn bound_variable_alone_is_not_a_placeholder() {
    let t = ty(b(0, 0));
    assert!(!t.references_only_placeholder_variables());
    assert_eq!(t.max_universe(), Universe::root());
}

#[test]
fn free_variables_are_the_same_every_time() {
    let t = vec![named("Map", vec![Parameter::Ty(ty(i(2))), Parameter::Lt(lt(p(1, 1)))]), ty(b(3, 0))];
    let first = t.free_variables();
    let second = t.free_variables();
    assert_eq!(first, second);
    assert_eq!(first, vec![i(2), p(1, 1), b(3, 0)]);
    assert_eq!(t.clone().free_variables(), first);
}

#[test]
fn binder_drops_its_own_variables_and_lowers_the_others() {
    let payload = vec![ty(b(0, 0)), ty(b(1, 3)), ty(p(2, 0)), ty(b(0, 1)), ty(i(1)), ty(b(2, 0))];
    let binder = Binder::new(vec![ParameterKind::Ty, ParameterKind::Ty], payload);
    assert_eq!(binder.free_variables(), vec![b(0, 3), p(2, 0), i(1), b(1, 0)]);
    assert_eq!(binder.size(), 6);
    assert_eq!(binder.max_universe(), Universe { index: 2 });
    assert!(!binder.references_only_placeholder_variables());
    let outer = Binder::new(vec![ParameterKind::Ty; 4], binder);
    assert_eq!(outer.free_variables(), vec![p(2, 0), i(1), b(0, 0)]);
}

#[test]
fn binder_accessors() {
    let binder = Binder::new(vec![ParameterKind::Lt, ParameterKind::Ty], ty(b(0, 1)));
    assert_eq!(binder.len(), 2);
    assert_eq!(binder.kinds(), &vec![ParameterKind::Lt, ParameterKind::Ty]);
    assert_eq!(binder.peek(), &ty(b(0, 1)));
    let none = Binder::new(vec![], 3usize);
    assert_eq!(none.len(), 0);
}

#[test]
fn variable_universe_and_unbinding() {
    assert_eq!(p(5, 0).universe(), Universe { index: 5 });
    assert_eq!(i(5).universe(), Universe::root());
    assert_eq!(b(5, 5).universe(), Universe { index: 0 });
    assert!(p(0, 0).is_placeholder());
    assert!(!i(0).is_placeholder());
    assert!(!b(0, 0).is_placeholder());
    assert_eq!(b(0, 7).unbind(), None);
    assert_eq!(b(3, 7).unbind(), Some(b(2, 7)));
    assert_eq!(p(1, 1).unbind(), Some(p(1, 1)));
    assert_eq!(i(4).unbind(), Some(i(4)));
}

#[test]
fn universes_are_ordered_from_root() {
    let root = Universe::root();
    assert_eq!(root, Universe { index: 0 });
    assert_eq!(Universe { index: 3 }.max(Universe { index: 8 }), Universe { index: 8 });
    assert_eq!(Universe { index: 8 }.max(Universe { index: 3 }), Universe { index: 8 });
    assert!(root < Universe { index: 1 });
    assert!(root <= root);
}

#[test]
fn lifting_into_variable_and_item_enums() {
    let ph = PlaceholderVar { universe: Universe { index: 1 }, var_index: 2 };
    assert_eq!(Variable::from(ph), Variable::PlaceholderVar(ph));
    assert_eq!(Variable::from(InferenceVar { index: 3 }), i(3));
    assert_eq!(Variable::from(BoundVar { debruijn: 1, var_index: 0 }), b(1, 0));
    let id = FieldId::new("x").unwrap();
    assert_eq!(FieldName::from(id.clone()), FieldName::Id(id));
    assert_eq!(FieldName::from(2usize), FieldName::Index(2));
    let f = Fn {
        id: FnId::new("f").unwrap(),
        binder: Binder::new(
            vec![],
            FnBoundData { input_tys: vec![], output_ty: named("Unit", vec![]), where_clauses: vec![] },
        ),
    };
    assert_eq!(TraitItem::from(f.clone()), TraitItem::Fn(f.clone()));
    assert_eq!(ImplItem::from(f.clone()), ImplItem::Fn(f.clone()));
    let t = Trait {
        id: TraitId::new("T").unwrap(),
        binder: Binder::new(
            vec![ParameterKind::Ty],
            TraitBoundData { where_clauses: vec![], trait_items: vec![f.into()] },
        ),
    };
    let item: CrateItem = t.clone().into();
    assert_eq!(item, CrateItem::Trait(t));
}

fn sample_trait() -> Trait {
    // trait Iterator<Self> { type Item<>: [I: Sized] where Self: Sized; fn next<'a>(&'a Self) -> Item<Self> }
    let self_in_item = ty(b(1, 0));
    let assoc = AssociatedTy {
        id: AssociatedItemId::new("Item").unwrap(),
        binder: Binder::new(
            vec![],
            AssociatedTyBoundData {
                ensures: Binder::new(
                    vec![ParameterKind::Ty],
                    vec![implemented("Sized", vec![Parameter::Ty(ty(b(0, 0)))])],
                ),
                where_clauses: vec![implemented("Sized", vec![Parameter::Ty(self_in_item)])],
            },
        ),
    };
    let next = Fn {
        id: FnId::new("next").unwrap(),
        binder: Binder::new(
            vec![ParameterKind::Lt],
            FnBoundData {
                input_tys: vec![Ty::new(TyData::RigidTy(RigidTy {
                    name: RigidName::Ref(RefKind::Mut),
                    parameters: vec![Parameter::Lt(lt(b(0, 0))), Parameter::Ty(ty(b(1, 0)))],
                }))],
                output_ty: Ty::new(TyData::AliasTy(AliasTy {
                    trait_id: TraitId::new("Iterator").unwrap(),
                    item_id: AssociatedItemId::new("Item").unwrap(),
                    parameters: vec![Parameter::Ty(ty(b(1, 0)))],
                })),
                where_clauses: vec![],
            },
        ),
    };
    Trait {
        id: TraitId::new("Iterator").unwrap(),
        binder: Binder::new(
            vec![ParameterKind::Ty],
            TraitBoundData {
                where_clauses: vec![],
                trait_items: vec![TraitItem::AssociatedTy(assoc), TraitItem::Fn(next)],
            },
        ),
    }
}

#[test]
fn nested_binders_close_a_whole_trait() {
    let t = sample_trait();
    assert_eq!(t.free_variables(), no_vars());
    // Under the trait's binder, `Self` is free in each item.
    assert_eq!(t.binder.peek().free_variables(), vec![b(0, 0), b(0, 0), b(0, 0)]);
    match &t.binder.peek().trait_items[0] {
        TraitItem::AssociatedTy(a) => {
            assert_eq!(a.binder.peek().ensures.free_variables(), no_vars());
            assert_eq!(a.binder.peek().ensures.peek().free_variables(), vec![b(0, 0)]);
            assert_eq!(a.binder.peek().free_variables(), vec![b(1, 0)]);
            // id + (Sized name + var) + (Sized name + var)
            assert_eq!(a.size(), 1 + 2 + 2);
        }
        TraitItem::Fn(_) => panic!("expected an associated type"),
    }
    match &t.binder.peek().trait_items[1] {
        TraitItem::Fn(f) => {
            assert_eq!(f.binder.peek().free_variables(), vec![b(0, 0), b(1, 0), b(1, 0)]);
            assert_eq!(f.free_variables(), vec![b(0, 0), b(0, 0)]);
            // id + (ref head + lt + ty) + (two alias names + ty)
            assert_eq!(f.size(), 1 + 3 + 3);
        }
        TraitItem::AssociatedTy(_) => panic!("expected a function"),
    }
    assert_eq!(t.size(), 1 + 5 + 7);
}

fn sample_program() -> Program {
    let option = Adt {
        kind: AdtKind::Enum,
        id: AdtId::new("Option").unwrap(),
        binder: Binder::new(
            vec![ParameterKind::Ty],
            AdtBoundData {
                where_clauses: vec![],
                variants: vec![
                    AdtVariant { name: VariantId::new("None").unwrap(), fields: vec![] },
                    AdtVariant {
                        name: VariantId::new("Some").unwrap(),
                        fields: vec![Field { name: FieldName::Index(0), ty: ty(b(0, 0)) }],
                    },
                ],
            },
        ),
    };
    let imp = TraitImpl {
        binder: Binder::new(
            vec![ParameterKind::Ty],
            TraitImplBoundData {
                trait_ref: TraitRef {
                    trait_id: TraitId::new("Iterator").unwrap(),
                    parameters: vec![Parameter::Ty(named(
                        "Option",
                        vec![Parameter::Ty(ty(b(0, 0)))],
                    ))],
                },
                where_clauses: vec![Predicate::WellFormedTy(ty(b(0, 0)))],
                impl_items: vec![ImplItem::AssociatedTyValue(AssociatedTyValue {
                    id: AssociatedItemId::new("Item").unwrap(),
                    binder: Binder::new(
                        vec![],
                        AssociatedTyValueBoundData { where_clauses: vec![], ty: ty(b(1, 0)) },
                    ),
                })],
            },
        ),
    };
    Program {
        crates: vec![
            Crate {
                id: CrateId::new("core").unwrap(),
                items: vec![CrateItem::Adt(option), CrateItem::Trait(sample_trait())],
            },
            Crate { id: CrateId::new("empty").unwrap(), items: vec![] },
            Crate { id: CrateId::new("app").unwrap(), items: vec![CrateItem::TraitImpl(imp)] },
        ],
    }
}

#[test]
fn current_crate_is_the_last_one() {
    let program = sample_program();
    assert_eq!(program.current_crate_id(), CrateId::new("app").unwrap());
    let single = Program { crates: vec![Crate { id: CrateId::new("only").unwrap(), items: vec![] }] };
    assert_eq!(single.current_crate_id(), CrateId::new("only").unwrap());
}

#[test]
fn items_from_all_crates_in_order() {
    let program = sample_program();
    let items = program.items_from_all_crates();
    assert_eq!(items.len(), 3);
    assert!(matches!(items[0], CrateItem::Adt(_)));
    assert!(matches!(items[1], CrateItem::Trait(_)));
    assert!(matches!(items[2], CrateItem::TraitImpl(_)));
    assert_eq!(items[0], &program.crates[0].items[0]);
    assert_eq!(items[1], &program.crates[0].items[1]);
    assert_eq!(items[2], &program.crates[2].items[0]);
    let expected: Vec<&CrateItem> = program.crates.iter().flat_map(|c| &c.items).collect();
    assert_eq!(items, expected);
    assert_eq!(Program { crates: vec![] }.items_from_all_crates().len(), 0);
}

#[test]
fn whole_program_is_closed_and_measured() {
    let program = sample_program();
    assert_eq!(program.free_variables(), no_vars());
    assert!(program.references_only_placeholder_variables());
    assert_eq!(program.max_universe(), Universe::root());
    // Option: kind + id + (None) 1 + (Some: name + index + ty) 3
    assert_eq!(program.crates[0].items[0].size(), 2 + 1 + 3);
    // impl: trait ref (name + Option head + var) 3 + where 1 + value (id + ty) 2
    assert_eq!(program.crates[2].items[0].size(), 3 + 1 + 2);
    // each crate adds one leaf for its id
    assert_eq!(program.size(), (1 + 6 + 13) + 1 + (1 + 6));
}

#[test]
fn predicates_visit_their_parts_in_order() {
    let alias = AliasTy {
        trait_id: TraitId::new("Iterator").unwrap(),
        item_id: AssociatedItemId::new("Item").unwrap(),
        parameters: vec![Parameter::Ty(ty(i(0)))],
    };
    let normalizes = Predicate::NormalizesTo(alias.clone(), ty(p(1, 0)));
    assert_eq!(normalizes.free_variables(), vec![i(0), p(1, 0)]);
    assert_eq!(normalizes.size(), 3 + 1);
    assert_eq!(alias.size(), 3);
    let outlives = Predicate::Outlives(Parameter::Ty(ty(b(0, 0))), lt(p(0, 1)));
    assert_eq!(outlives.free_variables(), vec![b(0, 0), p(0, 1)]);
    assert_eq!(outlives.size(), 2);
    let wf = Predicate::WellFormedTy(named("Vec", vec![Parameter::Ty(ty(i(3)))]));
    assert_eq!(wf.free_variables(), vec![i(3)]);
    assert_eq!(wf.size(), 2);
    let is_impl = implemented("Eq", vec![Parameter::Ty(ty(i(1))), Parameter::Lt(Lt::new(LtData::Static))]);
    assert_eq!(is_impl.free_variables(), vec![i(1)]);
    assert_eq!(is_impl.size(), 3);
    let data = TyData::Variable(p(2, 2));
    assert_eq!(data.free_variables(), vec![p(2, 2)]);
    assert_eq!(data.size(), 1);
    assert_eq!(ty(p(2, 2)).data(), &data);
    assert_eq!(lt(p(2, 2)).data(), &LtData::Variable(p(2, 2)));
    let rigid = RigidTy { name: RigidName::ScalarId(ScalarId::Bool), parameters: vec![] };
    assert_eq!(rigid.size(), 1);
    assert_eq!(rigid.free_variables(), no_vars());
}

#[test]
fn identifiers_are_validated() {
    for good in ["a", "_", "_x", "Vec", "snake_case_2", "A1", "__", "z9_"] {
        let id = Identifier::new(good).expect(good);
        assert_eq!(id.as_str(), good);
        assert!(CrateId::new(good).is_some());
    }
    for bad in ["", "1abc", "a-b", "a b", " a", "a.b", "h\u{e9}llo", "\u{e9}", "a\u{0}", "9", "a::b", "x!"] {
        assert!(Identifier::new(bad).is_none(), "{:?}", bad);
        assert!(CrateId::new(bad).is_none());
        assert!(TraitId::new(bad).is_none());
        assert!(AdtId::new(bad).is_none());
        assert!(FnId::new(bad).is_none());
        assert!(FieldId::new(bad).is_none());
        assert!(VariantId::new(bad).is_none());
        assert!(AssociatedItemId::new(bad).is_none());
    }
    assert_eq!(TraitId::new("Eq").unwrap().name.as_str(), "Eq");
    assert_eq!(AdtId::new("Vec").unwrap(), AdtId::new("Vec").unwrap());
    assert_ne!(AdtId::new("Vec").unwrap(), AdtId::new("Box").unwrap());
    assert!(AdtId::new("Box").unwrap() < AdtId::new("Vec").unwrap());
    let id = FnId::new("main").unwrap();
    assert_eq!(id.clone(), id);
}

#[test]
fn ordered_set_keeps_canonical_order() {
    let mut set: OrderedSet<usize> = OrderedSet::new();
    assert_eq!(set.len(), 0);
    assert!(set.insert(5));
    assert!(set.insert(1));
    assert!(set.insert(9));
    assert!(!set.insert(5));
    assert!(set.insert(3));
    assert_eq!(set.as_vec(), &vec![1, 3, 5, 9]);
    assert_eq!(set.len(), 4);
    assert!(set.contains(&3));
    assert!(!set.contains(&4));
    assert!(!set.contains(&10));
    assert!(!set.contains(&0));
    assert_eq!(set.size(), 4);
    assert_eq!(set.free_variables(), no_vars());
}

#[test]
fn ordered_set_of_variables_is_visited_in_order() {
    let mut set: OrderedSet<Variable> = OrderedSet::new();
    for v in [b(1, 0), i(4), p(2, 0), b(0, 3), p(0, 7), i(4), p(2, 0), i(0), b(0, 1)] {
        set.insert(v);
    }
    let expected = vec![p(0, 7), p(2, 0), i(0), i(4), b(0, 1), b(0, 3), b(1, 0)];
    assert_eq!(set.as_vec(), &expected);
    assert_eq!(set.free_variables(), expected);
    assert_eq!(set.size(), 7);
    assert_eq!(set.max_universe(), Universe { index: 2 });
    assert!(!set.references_only_placeholder_variables());
    let mut sorted = expected.clone();
    sorted.reverse();
    sorted.sort();
    assert_eq!(sorted, expected);
}

#[test]
fn variable_order_agrees_with_structural_order() {
    let all = [p(0, 0), p(0, 1), p(1, 0), i(0), i(1), b(0, 0), b(0, 1), b(1, 0), p(usize::MAX, 0), b(usize::MAX, usize::MAX)];
    for x in all.iter() {
        for y in all.iter() {
            assert_eq!(x.comes_before(y), x < y, "{:?} {:?}", x, y);
        }
    }
    assert!(3usize.comes_before(&4));
    assert!(!4usize.comes_before(&4));
    assert!(3u32.comes_before(&4));
    assert!(!5u32.comes_before(&4));
}
