use slg_core::ir::{
    ApplicationTy, Canonical, CanonicalVarKind, ConstrainedSubst, DomainGoal, Environment, ExClause,
    Goal, InEnvironment, ItemId, LeafGoal, Lifetime, Literal, Parameter, ParamKind, ProgramClause,
    ProgramClauseImplication, Substitution, TraitRef, Ty, TypeName, UniverseIndex,
};
use slg_core::debug::{AssociatedTyDatum, Program, TypeKind};
use slg_core::table::InferenceTable;
use slg_core::universes::UniverseMap;

fn u(counter: usize) -> UniverseIndex {
    UniverseIndex { counter }
}

fn item(index: usize) -> ItemId {
    ItemId { index }
}

fn nullary(name: TypeName) -> Ty {
    Ty::Apply(ApplicationTy { name, parameters: Vec::new() })
}

fn empty_env() -> Environment {
    Environment { clauses: Vec::new() }
}

fn implemented(trait_id: usize, parameters: Vec<Parameter>) -> DomainGoal {
    DomainGoal::Implemented(TraitRef { trait_id: item(trait_id), parameters })
}

fn leaf(goal: DomainGoal) -> Goal {
    Goal::Leaf(LeafGoal::DomainGoal(goal))
}

#[test]
fn shift_round_trip_concrete() {
    let t = Ty::Apply(ApplicationTy {
        name: TypeName::ItemId(item(3)),
        parameters: vec![
            Parameter::Ty(Ty::Var(2)),
            Parameter::Lifetime(Lifetime::Var(0)),
        ],
    });
    let up = t.up_shift(4);
    assert_eq!(
        up,
        Ty::Apply(ApplicationTy {
            name: TypeName::ItemId(item(3)),
            parameters: vec![
                Parameter::Ty(Ty::Var(6)),
                Parameter::Lifetime(Lifetime::Var(4)),
            ],
        })
    );
    let down = up.down_shift(4).unwrap();
    assert_eq!(down, t);
}

#[test]
fn down_shift_fails_on_small_depth() {
    let t = Ty::Var(1);
    assert!(t.down_shift(3).is_err());
}

#[test]
fn bound_variables_are_not_shifted() {
    let t = Ty::ForAll { num_binders: 1, ty: Box::new(Ty::Var(0)) };
    let up = t.up_shift(5);
    assert_eq!(up, Ty::ForAll { num_binders: 1, ty: Box::new(Ty::Var(0)) });
}

#[test]
fn universe_map_round_trip_in_range() {
    let mut map = UniverseMap::new();
    map.add(u(3));
    map.add(u(1));
    // Collected: [U0, U1, U3].
    for orig in [0usize, 1, 3] {
        let canonical = map.map_universe_to_canonical(u(orig));
        assert_eq!(map.map_universe_from_canonical(canonical), u(orig));
    }
}

#[test]
fn universe_map_compresses_uncollected_universe() {
    let mut map = UniverseMap::new();
    map.add(u(1));
    map.add(u(3));
    // U2 was never collected: it maps to the largest canonical universe
    // below it, which is U1 at position 1.
    assert_eq!(map.map_universe_to_canonical(u(2)), u(1));
    assert_eq!(map.num_canonical_universes(), 3);
}

#[test]
fn universe_map_monotone_out_of_range() {
    let mut map = UniverseMap::new();
    map.add(u(3));
    // Canonical universes: [U0, U3]; out-of-range canonicals map past
    // every collected universe, preserving order.
    assert_eq!(map.map_universe_from_canonical(u(1)), u(3));
    assert_eq!(map.map_universe_from_canonical(u(2)), u(4));
    assert_eq!(map.map_universe_from_canonical(u(3)), u(5));
}

#[test]
fn simple_existential_resolvent() {
    // Goal `?T: Clone`; clause `forall U. U: Clone :- U: Copy`.
    let mut table = InferenceTable::new();
    let tv = table.new_variable(ParamKind::Ty, u(0));
    let env = empty_env();
    let goal = implemented(0, vec![Parameter::Ty(tv.to_ty())]);
    let subst = Substitution { parameters: vec![Parameter::Ty(tv.to_ty())] };
    let clause = ProgramClause {
        binders: vec![ParamKind::Ty],
        implication: ProgramClauseImplication {
            consequence: implemented(0, vec![Parameter::Ty(Ty::Var(0))]),
            conditions: vec![leaf(implemented(1, vec![Parameter::Ty(Ty::Var(0))]))],
        },
    };
    let ex = table.resolvent_clause(&env, &goal, &subst, &clause).unwrap();
    assert_eq!(ex.subst, subst);
    assert!(ex.delayed_literals.is_empty());
    assert!(ex.constraints.is_empty());
    assert_eq!(ex.subgoals.len(), 1);
    match &ex.subgoals[0] {
        Literal::Positive(in_env) => {
            // The fresh clause variable is the second type variable.
            assert_eq!(
                in_env.goal,
                leaf(implemented(1, vec![Parameter::Ty(Ty::Var(1))]))
            );
        }
        Literal::Negative(_) => panic!("expected a positive literal"),
    }
}

#[test]
fn resolvent_fails_on_head_mismatch() {
    let mut table = InferenceTable::new();
    let tv = table.new_variable(ParamKind::Ty, u(0));
    let env = empty_env();
    let goal = implemented(0, vec![Parameter::Ty(tv.to_ty())]);
    let subst = Substitution { parameters: Vec::new() };
    let clause = ProgramClause {
        binders: Vec::new(),
        implication: ProgramClauseImplication {
            consequence: implemented(9, vec![Parameter::Ty(nullary(TypeName::ItemId(item(7))))]),
            conditions: Vec::new(),
        },
    };
    assert!(table.resolvent_clause(&env, &goal, &subst, &clause).is_err());
}

#[test]
fn universe_violation_is_no_solution() {
    // `?X : U1` cannot be unified with a skolem from U2.
    let mut table = InferenceTable::new();
    let xv = table.new_variable(ParamKind::Ty, u(1));
    let env = empty_env();
    let snapshot = table.snapshot();
    let skolem = nullary(TypeName::ForAll(u(2)));
    assert!(table.unify_tys(&env, &xv.to_ty(), &skolem).is_err());
    table.rollback_to(snapshot);
    assert_eq!(table.probe_ty_var(xv), None);
}

#[test]
fn visible_skolem_instantiates() {
    let mut table = InferenceTable::new();
    let xv = table.new_variable(ParamKind::Ty, u(2));
    let env = empty_env();
    let skolem = nullary(TypeName::ForAll(u(1)));
    let ur = table.unify_tys(&env, &xv.to_ty(), &skolem).unwrap();
    assert!(ur.goals.is_empty());
    assert!(ur.constraints.is_empty());
    assert_eq!(table.probe_ty_var(xv), Some(skolem));
}

#[test]
fn projection_defers_a_subgoal() {
    let mut table = InferenceTable::new();
    let env = empty_env();
    let proj = Ty::Projection(slg_core::ir::ProjectionTy {
        associated_ty_id: item(7),
        parameters: Vec::new(),
    });
    let other = nullary(TypeName::ItemId(item(9)));
    let ur = table.unify_tys(&env, &proj, &other).unwrap();
    assert_eq!(ur.goals.len(), 1);
    match &ur.goals[0].goal {
        DomainGoal::ProjectionEq(eq) => {
            assert_eq!(eq.projection.associated_ty_id, item(7));
            assert_eq!(eq.ty, other);
        }
        g => panic!("expected a deferred projection equality, got {:?}", g),
    }
}

#[test]
fn lifetime_skolems_yield_a_constraint() {
    let mut table = InferenceTable::new();
    let env = empty_env();
    let a = Parameter::Lifetime(Lifetime::ForAll(u(1)));
    let b = Parameter::Lifetime(Lifetime::ForAll(u(2)));
    let ur = table.unify_parameters(&env, &a, &b).unwrap();
    assert_eq!(ur.constraints.len(), 1);
}

#[test]
fn occurs_check_refuses_cycles() {
    let mut table = InferenceTable::new();
    let xv = table.new_variable(ParamKind::Ty, u(0));
    let env = empty_env();
    let cyclic = Ty::Apply(ApplicationTy {
        name: TypeName::ItemId(item(4)),
        parameters: vec![Parameter::Ty(xv.to_ty())],
    });
    assert!(table.unify_tys(&env, &xv.to_ty(), &cyclic).is_err());
}

#[test]
fn universal_instantiation_of_a_lifetime() {
    // Instantiate `for<'a> P<'a>` universally at a table whose greatest
    // universe is U1: a fresh U2 appears and the result names it.
    let mut table = InferenceTable::new();
    let first = table.new_universe();
    assert_eq!(first, u(1));
    let binders = vec![ParamKind::Lifetime];
    let goal = leaf(implemented(5, vec![Parameter::Lifetime(Lifetime::Var(0))]));
    let r = table.instantiate_binders_universally(&binders, &goal).unwrap();
    assert_eq!(
        r,
        leaf(implemented(5, vec![Parameter::Lifetime(Lifetime::ForAll(u(2)))]))
    );
    assert_eq!(table.max_universe, u(2));
}

#[test]
fn universal_instantiation_rejects_const_binders() {
    let mut table = InferenceTable::new();
    let binders = vec![ParamKind::Const];
    let goal = Goal::CannotProve;
    assert!(table.instantiate_binders_universally(&binders, &goal).is_err());
}

#[test]
fn answer_subst_instantiates_free_variable() {
    // Pending `?X: Foo`; table goal `exists<T> T: Foo` with answer
    // `?0 := Widget`.  Zipping pairs the answer variable with `?X` and
    // unification pins `?X` to `Widget`; no subgoal is added.
    let mut table = InferenceTable::new();
    let xv = table.new_variable(ParamKind::Ty, u(0));
    let widget = nullary(TypeName::ItemId(item(42)));
    let selected = InEnvironment {
        environment: empty_env(),
        goal: leaf(implemented(0, vec![Parameter::Ty(xv.to_ty())])),
    };
    let table_goal = Canonical {
        binders: vec![CanonicalVarKind { kind: ParamKind::Ty, universe: u(0) }],
        value: InEnvironment {
            environment: empty_env(),
            goal: leaf(implemented(0, vec![Parameter::Ty(Ty::Var(0))])),
        },
    };
    let answer = Canonical {
        binders: Vec::new(),
        value: ConstrainedSubst {
            subst: Substitution { parameters: vec![Parameter::Ty(widget.clone())] },
            constraints: Vec::new(),
        },
    };
    let ex = ExClause {
        subst: Substitution { parameters: Vec::new() },
        delayed_literals: Vec::new(),
        constraints: Vec::new(),
        subgoals: Vec::new(),
    };
    let out = table.apply_answer_subst(ex, &selected, &table_goal, &answer).unwrap();
    assert!(out.subgoals.is_empty());
    assert!(out.delayed_literals.is_empty());
    assert_eq!(table.probe_ty_var(xv), Some(widget));
}

#[test]
fn answer_subst_truncation_mismatch_fails() {
    // The truncated table goal pairs the answer `Widget` against the
    // pending `Holder<?X>`; unifying them is refused.
    let mut table = InferenceTable::new();
    let xv = table.new_variable(ParamKind::Ty, u(0));
    let holder = Ty::Apply(ApplicationTy {
        name: TypeName::ItemId(item(10)),
        parameters: vec![Parameter::Ty(xv.to_ty())],
    });
    let selected = InEnvironment {
        environment: empty_env(),
        goal: leaf(implemented(0, vec![Parameter::Ty(holder)])),
    };
    let table_goal = Canonical {
        binders: vec![CanonicalVarKind { kind: ParamKind::Ty, universe: u(0) }],
        value: InEnvironment {
            environment: empty_env(),
            goal: leaf(implemented(0, vec![Parameter::Ty(Ty::Var(0))])),
        },
    };
    let answer = Canonical {
        binders: Vec::new(),
        value: ConstrainedSubst {
            subst: Substitution {
                parameters: vec![Parameter::Ty(nullary(TypeName::ItemId(item(42))))],
            },
            constraints: Vec::new(),
        },
    };
    let ex = ExClause {
        subst: Substitution { parameters: Vec::new() },
        delayed_literals: Vec::new(),
        constraints: Vec::new(),
        subgoals: Vec::new(),
    };
    assert!(table.apply_answer_subst(ex, &selected, &table_goal, &answer).is_err());
}

#[test]
fn fresh_subst_allocates_per_kind() {
    let mut table = InferenceTable::new();
    let binders = vec![
        CanonicalVarKind { kind: ParamKind::Ty, universe: u(0) },
        CanonicalVarKind { kind: ParamKind::Lifetime, universe: u(1) },
    ];
    let s = table.fresh_subst(&binders);
    assert_eq!(
        s.parameters,
        vec![Parameter::Ty(Ty::Var(0)), Parameter::Lifetime(Lifetime::Var(0))]
    );
    assert_eq!(table.ty_vars.len(), 1);
    assert_eq!(table.lifetime_vars.len(), 1);
    assert_eq!(table.max_universe, u(1));
}

#[test]
fn snapshot_and_rollback_restore_the_table() {
    let mut table = InferenceTable::new();
    let xv = table.new_variable(ParamKind::Ty, u(0));
    let snapshot = table.snapshot();
    let env = empty_env();
    let widget = nullary(TypeName::ItemId(item(3)));
    table.unify_tys(&env, &xv.to_ty(), &widget).unwrap();
    assert_eq!(table.probe_ty_var(xv), Some(widget));
    table.rollback_to(snapshot);
    assert_eq!(table.probe_ty_var(xv), None);
}

#[test]
fn u_canonicalization_compression() {
    // Binders `[Ty@U2]`, payload naming skolems from U1 and U3: the
    // collected map is [U0, U1, U3]; the payload skolems become U1 and
    // U2, the binder universe falls to U1, and three canonical
    // universes remain.
    let table = InferenceTable::new();
    let payload = InEnvironment {
        environment: empty_env(),
        goal: leaf(implemented(
            0,
            vec![
                Parameter::Ty(nullary(TypeName::ForAll(u(1)))),
                Parameter::Ty(nullary(TypeName::ForAll(u(3)))),
            ],
        )),
    };
    let canonical = Canonical {
        binders: vec![CanonicalVarKind { kind: ParamKind::Ty, universe: u(2) }],
        value: payload,
    };
    let (quantified, map) = table.u_canonicalize(&canonical);
    assert_eq!(quantified.universes, 3);
    assert_eq!(
        quantified.canonical.binders,
        vec![CanonicalVarKind { kind: ParamKind::Ty, universe: u(1) }]
    );
    assert_eq!(
        quantified.canonical.value.goal,
        leaf(implemented(
            0,
            vec![
                Parameter::Ty(nullary(TypeName::ForAll(u(1)))),
                Parameter::Ty(nullary(TypeName::ForAll(u(2)))),
            ],
        ))
    );
    // The same map lifts the canonical skolems back to the originals.
    assert_eq!(
        map.map_from_canonical_ty(&nullary(TypeName::ForAll(u(1)))),
        nullary(TypeName::ForAll(u(1)))
    );
    assert_eq!(
        map.map_from_canonical_ty(&nullary(TypeName::ForAll(u(2)))),
        nullary(TypeName::ForAll(u(3)))
    );
}

#[test]
fn u_canonicalization_keeps_collected_universes() {
    let table = InferenceTable::new();
    let payload = InEnvironment {
        environment: empty_env(),
        goal: leaf(implemented(4, vec![Parameter::Ty(nullary(TypeName::ForAll(u(1))))])),
    };
    let canonical = Canonical {
        binders: vec![CanonicalVarKind { kind: ParamKind::Ty, universe: u(1) }],
        value: payload,
    };
    let (quantified, map) = table.u_canonicalize(&canonical);
    assert_eq!(quantified.universes, 2);
    // U1 was collected, so the binder keeps its (renumbered) universe
    // and the round trip restores the original.
    assert_eq!(quantified.canonical.binders[0].universe, u(1));
    assert_eq!(map.map_universe_from_canonical(u(1)), u(1));
}

#[test]
fn normalize_deep_expands_chains() {
    let mut table = InferenceTable::new();
    let a = table.new_variable(ParamKind::Ty, u(0));
    let b = table.new_variable(ParamKind::Ty, u(0));
    let env = empty_env();
    let widget = nullary(TypeName::ItemId(item(11)));
    // ?b := Widget, then ?a := Holder<?b>: deep normalization expands
    // both layers; shallow callers would see only one.
    table.unify_tys(&env, &b.to_ty(), &widget).unwrap();
    let holder_of_b = Ty::Apply(ApplicationTy {
        name: TypeName::ItemId(item(12)),
        parameters: vec![Parameter::Ty(b.to_ty())],
    });
    table.unify_tys(&env, &a.to_ty(), &holder_of_b).unwrap();
    let normalized = table.normalize_deep(&a.to_ty());
    assert_eq!(
        normalized,
        Ty::Apply(ApplicationTy {
            name: TypeName::ItemId(item(12)),
            parameters: vec![Parameter::Ty(widget)],
        })
    );
}

#[test]
fn normalize_deep_keeps_uninstantiated_variables() {
    let mut table = InferenceTable::new();
    let a = table.new_variable(ParamKind::Ty, u(0));
    assert_eq!(table.normalize_deep(&a.to_ty()), a.to_ty());
}

#[test]
fn renders_decimals_and_variables() {
    assert_eq!(slg_core::debug::render_usize(0).as_str(), "0");
    assert_eq!(slg_core::debug::render_usize(12034).as_str(), "12034");
    assert_eq!(Ty::Var(3).render(None).as_str(), "?3");
    assert_eq!(nullary(TypeName::ForAll(u(2))).render(None).as_str(), "!2");
    assert_eq!(Lifetime::ForAll(u(2)).render().as_str(), "'!2");
    assert_eq!(Lifetime::Var(0).render().as_str(), "'?0");
}

#[test]
fn renders_names_through_the_program() {
    let program = Program {
        type_kinds: vec![TypeKind { id: item(1), name: String::from("Stream") }],
        associated_ty_data: vec![AssociatedTyDatum {
            id: item(7),
            trait_id: item(1),
            name: String::from("Item"),
            num_trait_parameters: 1,
        }],
    };
    let named = nullary(TypeName::ItemId(item(1)));
    assert_eq!(named.render(Some(&program)).as_str(), "Stream");
    assert_eq!(named.render(None).as_str(), "ItemId(1)");

    let projection = Ty::Projection(slg_core::ir::ProjectionTy {
        associated_ty_id: item(7),
        parameters: vec![Parameter::Ty(Ty::Var(0)), Parameter::Ty(Ty::Var(1))],
    });
    // The program splits the parameters by the trait's arity.
    assert_eq!(
        projection.render(Some(&program)).as_str(),
        "<?0 as Stream>::Item<?1>"
    );
    // Without a program the structural fallback applies.
    assert_eq!(projection.render(None).as_str(), "(7)<?0, ?1>");
}

#[test]
fn renders_quantified_types() {
    let t = Ty::ForAll {
        num_binders: 2,
        ty: Box::new(Ty::Apply(ApplicationTy {
            name: TypeName::ItemId(item(4)),
            parameters: vec![Parameter::Ty(Ty::Var(0)), Parameter::Lifetime(Lifetime::Var(1))],
        })),
    };
    assert_eq!(t.render(None).as_str(), "for<2> ItemId(4)<?0, '?1>");
}
