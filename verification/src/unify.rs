//! The unification driver.
//!
//! Unification works at binder depth zero: quantified types are never
//! descended into but skolemized, so every variable met is an index
//! into the inference table.  Instantiating a variable runs the occurs
//! and universe check over the assigned value: a skolem from a universe
//! the variable cannot see refuses the assignment, a free existential
//! from a later universe is raised into the variable's universe, and a
//! cycle through the variable itself refuses it.  Projections are never
//! matched structurally against other types; they defer a
//! projection-equality subgoal instead.  Lifetimes yield equality
//! constraints rather than eager instantiations when skolems are
//! involved.
//!
//! Every step of the algorithm is mirrored by a specification function
//! over table views; the executable functions return exactly what the
//! specification names, including its explicit depth bound (`fuel`),
//! which the public entry points fix at `usize::MAX`.

use vstd::prelude::*;

use crate::ir::{
    ApplicationTy, ApplicationTyV, Const, ConstV, Constraint, ConstraintV, DomainGoal,
    DomainGoalV, Environment, EnvironmentV, InEnvironment, InEnvironmentV, InferenceVariable,
    Lifetime, LifetimeV, NoSolution, Parameter, ParameterV, ParamKind, ProjectionEq,
    ProjectionEqV, ProjectionTy, Ty, TyV, TypeName, TypeNameV, TraitRef, UniverseIndex,
    UnselectedNormalize, UnselectedNormalizeV, WellFormed, FromEnv, constraints_view,
    env_domain_goals_view, lemma_params_view, param_view, params_view,
};
use crate::clone_impls::{clone_environment, clone_projection, clone_ty, clone_unselected_projection};
use crate::instantiate::alloc_skolems;
use crate::subst::{apply_subst_ty, inst_ok_ty, subst_ty};
use crate::table::{InferenceTable, SlotV, TableV, VarSlot, normalize_shallow_ty_spec,
    normalize_shallow_lifetime_spec, normalize_shallow_const_spec, probe_ty, probe_lifetime,
    probe_const};

verus! {

// ---------------------------------------------------------------------------
// Outcomes and table updates, as specifications.
// ---------------------------------------------------------------------------

/// What one unification step leaves behind: the table, the deferred
/// subgoals, and the lifetime constraints — or a failed table, which the
/// caller rolls back.
#[verifier::ext_equal]
pub enum UnifyOutcomeV {
    Success { st: TableV, goals: Seq<InEnvironmentV<DomainGoalV>>, cs: Seq<ConstraintV> },
    Failure { st: TableV },
}

pub open spec fn set_ty_value(st: TableV, i: nat, v: TyV) -> TableV {
    TableV {
        ty_vars: st.ty_vars.update(
            i as int,
            SlotV { universe: st.ty_vars[i as int].universe, value: Some(v) },
        ),
        ..st
    }
}

pub open spec fn set_ty_universe(st: TableV, i: nat, u: nat) -> TableV {
    TableV {
        ty_vars: st.ty_vars.update(
            i as int,
            SlotV { universe: u, value: st.ty_vars[i as int].value },
        ),
        ..st
    }
}

pub open spec fn set_lifetime_value(st: TableV, i: nat, v: LifetimeV) -> TableV {
    TableV {
        lifetime_vars: st.lifetime_vars.update(
            i as int,
            SlotV { universe: st.lifetime_vars[i as int].universe, value: Some(v) },
        ),
        ..st
    }
}

pub open spec fn set_lifetime_universe(st: TableV, i: nat, u: nat) -> TableV {
    TableV {
        lifetime_vars: st.lifetime_vars.update(
            i as int,
            SlotV { universe: u, value: st.lifetime_vars[i as int].value },
        ),
        ..st
    }
}

pub open spec fn set_const_value(st: TableV, i: nat, v: ConstV) -> TableV {
    TableV {
        const_vars: st.const_vars.update(
            i as int,
            SlotV { universe: st.const_vars[i as int].universe, value: Some(v) },
        ),
        ..st
    }
}

pub open spec fn set_const_universe(st: TableV, i: nat, u: nat) -> TableV {
    TableV {
        const_vars: st.const_vars.update(
            i as int,
            SlotV { universe: u, value: st.const_vars[i as int].value },
        ),
        ..st
    }
}

// ---------------------------------------------------------------------------
// The occurs and universe check.
//
// `vi` and `vu` are the index and universe of the type variable about to
// be instantiated; the check walks the assigned value.  The boolean is
// false when the assignment must be refused; the table carries the
// universe raises performed along the way.
// ---------------------------------------------------------------------------

pub open spec fn occurs_ty(st: TableV, vi: nat, vu: nat, t: TyV, b: nat, fuel: nat) -> (
    TableV,
    bool,
)
    decreases fuel, t,
{
    match t {
        TyV::Var(d) => if d < b {
            (st, true)
        } else {
            let f = (d - b) as nat;
            match probe_ty(st, f) {
                Some(v) => if fuel == 0 {
                    (st, false)
                } else {
                    occurs_ty(st, vi, vu, v, 0, (fuel - 1) as nat)
                },
                None => if f >= st.ty_vars.len() {
                    (st, true)
                } else if f == vi {
                    (st, false)
                } else if st.ty_vars[f as int].universe > vu {
                    (set_ty_universe(st, f, vu), true)
                } else {
                    (st, true)
                },
            }
        },
        TyV::Apply(a) => match a.name {
            TypeNameV::ForAll(u) => if u > vu {
                (st, false)
            } else {
                occurs_params(st, vi, vu, a.parameters, b, fuel)
            },
            _ => occurs_params(st, vi, vu, a.parameters, b, fuel),
        },
        TyV::Projection(p) => occurs_params(st, vi, vu, p.parameters, b, fuel),
        TyV::UnselectedProjection(p) => occurs_params(st, vi, vu, p.parameters, b, fuel),
        TyV::ForAll(nb, inner) => if b + nb > usize::MAX {
            (st, false)
        } else {
            occurs_ty(st, vi, vu, *inner, b + nb, fuel)
        },
    }
}

pub open spec fn occurs_lifetime(st: TableV, vu: nat, l: LifetimeV, b: nat, fuel: nat) -> (
    TableV,
    bool,
)
    decreases fuel, l,
{
    match l {
        LifetimeV::Var(d) => if d < b {
            (st, true)
        } else {
            let f = (d - b) as nat;
            match probe_lifetime(st, f) {
                Some(v) => if fuel == 0 {
                    (st, false)
                } else {
                    occurs_lifetime(st, vu, v, 0, (fuel - 1) as nat)
                },
                None => if f >= st.lifetime_vars.len() {
                    (st, true)
                } else if st.lifetime_vars[f as int].universe > vu {
                    (set_lifetime_universe(st, f, vu), true)
                } else {
                    (st, true)
                },
            }
        },
        LifetimeV::ForAll(u) => if u > vu {
            (st, false)
        } else {
            (st, true)
        },
    }
}

pub open spec fn occurs_const(st: TableV, vu: nat, c: ConstV, b: nat, fuel: nat) -> (TableV, bool)
    decreases fuel, c,
{
    match c {
        ConstV::Var(d) => if d < b {
            (st, true)
        } else {
            let f = (d - b) as nat;
            match probe_const(st, f) {
                Some(v) => if fuel == 0 {
                    (st, false)
                } else {
                    occurs_const(st, vu, v, 0, (fuel - 1) as nat)
                },
                None => if f >= st.const_vars.len() {
                    (st, true)
                } else if st.const_vars[f as int].universe > vu {
                    (set_const_universe(st, f, vu), true)
                } else {
                    (st, true)
                },
            }
        },
    }
}

pub open spec fn occurs_param(st: TableV, vi: nat, vu: nat, p: ParameterV, b: nat, fuel: nat) -> (
    TableV,
    bool,
)
    decreases fuel, p,
{
    match p {
        ParameterV::Ty(t) => occurs_ty(st, vi, vu, t, b, fuel),
        ParameterV::Lifetime(l) => occurs_lifetime(st, vu, l, b, fuel),
        ParameterV::Const(c) => occurs_const(st, vu, c, b, fuel),
    }
}

pub open spec fn occurs_params(
    st: TableV,
    vi: nat,
    vu: nat,
    ps: Seq<ParameterV>,
    b: nat,
    fuel: nat,
) -> (TableV, bool)
    decreases fuel, ps,
{
    if ps.len() == 0 {
        (st, true)
    } else {
        let pre = occurs_params(st, vi, vu, ps.drop_last(), b, fuel);
        if !pre.1 {
            pre
        } else {
            occurs_param(pre.0, vi, vu, ps.last(), b, fuel)
        }
    }
}

/// A failed prefix decides the whole parameter walk.
pub proof fn lemma_occurs_params_prefix_fail(
    st: TableV,
    vi: nat,
    vu: nat,
    ps: Seq<ParameterV>,
    b: nat,
    fuel: nat,
    k: int,
)
    requires
        0 <= k <= ps.len(),
        !occurs_params(st, vi, vu, ps.take(k), b, fuel).1,
    ensures
        occurs_params(st, vi, vu, ps, b, fuel) == occurs_params(st, vi, vu, ps.take(k), b, fuel),
    decreases ps.len(),
{
    if ps.len() == k {
        assert(ps.take(k) =~= ps);
    } else {
        assert(ps.drop_last().take(k) =~= ps.take(k));
        lemma_occurs_params_prefix_fail(st, vi, vu, ps.drop_last(), b, fuel, k);
    }
}

// ---------------------------------------------------------------------------
// Unification proper.
// ---------------------------------------------------------------------------

/// The binder kinds of a quantified type: all types.
pub open spec fn ty_kinds(n: nat) -> Seq<ParamKind> {
    Seq::new(n, |i: int| ParamKind::Ty)
}

pub open spec fn unify_ty_spec(env: EnvironmentV, st: TableV, a: TyV, b: TyV, fuel: nat)
    -> UnifyOutcomeV
    decreases fuel, a,
{
    if fuel == 0 {
        UnifyOutcomeV::Failure { st }
    } else if normalize_shallow_ty_spec(st, a, 0) is Some {
        unify_ty_spec(env, st, normalize_shallow_ty_spec(st, a, 0)->Some_0, b, (fuel - 1) as nat)
    } else if normalize_shallow_ty_spec(st, b, 0) is Some {
        unify_ty_spec(env, st, a, normalize_shallow_ty_spec(st, b, 0)->Some_0, (fuel - 1) as nat)
    } else if a is Projection {
        UnifyOutcomeV::Success {
            st,
            goals: seq![
                InEnvironmentV {
                    environment: env,
                    goal: DomainGoalV::ProjectionEq(
                        ProjectionEqV { projection: a->Projection_0, ty: b },
                    ),
                },
            ],
            cs: Seq::empty(),
        }
    } else if b is Projection {
        UnifyOutcomeV::Success {
            st,
            goals: seq![
                InEnvironmentV {
                    environment: env,
                    goal: DomainGoalV::ProjectionEq(
                        ProjectionEqV { projection: b->Projection_0, ty: a },
                    ),
                },
            ],
            cs: Seq::empty(),
        }
    } else if a is UnselectedProjection {
        UnifyOutcomeV::Success {
            st,
            goals: seq![
                InEnvironmentV {
                    environment: env,
                    goal: DomainGoalV::UnselectedNormalize(
                        UnselectedNormalizeV { projection: a->UnselectedProjection_0, ty: b },
                    ),
                },
            ],
            cs: Seq::empty(),
        }
    } else if b is UnselectedProjection {
        UnifyOutcomeV::Success {
            st,
            goals: seq![
                InEnvironmentV {
                    environment: env,
                    goal: DomainGoalV::UnselectedNormalize(
                        UnselectedNormalizeV { projection: b->UnselectedProjection_0, ty: a },
                    ),
                },
            ],
            cs: Seq::empty(),
        }
    } else {
        match (a, b) {
            (TyV::Var(d1), TyV::Var(d2)) => if d1 >= st.ty_vars.len() || d2 >= st.ty_vars.len() {
                UnifyOutcomeV::Failure { st }
            } else if d1 == d2 {
                UnifyOutcomeV::Success { st, goals: Seq::empty(), cs: Seq::empty() }
            } else {
                let u1 = st.ty_vars[d1 as int].universe;
                let u2 = st.ty_vars[d2 as int].universe;
                let umin = if u1 < u2 {
                    u1
                } else {
                    u2
                };
                let st1 = set_ty_universe(st, d2, umin);
                let st2 = set_ty_value(st1, d1, TyV::Var(d2));
                UnifyOutcomeV::Success { st: st2, goals: Seq::empty(), cs: Seq::empty() }
            },
            (TyV::Var(d), _) => unify_var_ty_spec(st, d, b, fuel),
            (_, TyV::Var(d)) => unify_var_ty_spec(st, d, a, fuel),
            (TyV::Apply(a1), TyV::Apply(a2)) => if a1.name == a2.name {
                unify_params_spec(env, st, a1.parameters, a2.parameters, fuel)
            } else {
                UnifyOutcomeV::Failure { st }
            },
            (TyV::ForAll(nb1, t1), TyV::ForAll(nb2, t2)) => if nb1 != nb2 {
                UnifyOutcomeV::Failure { st }
            } else if st.max_universe + nb1 > usize::MAX {
                UnifyOutcomeV::Failure { st }
            } else {
                let alloc = alloc_skolems(st, ty_kinds(nb1));
                if inst_ok_ty(alloc.1, *t1, 0) && inst_ok_ty(alloc.1, *t2, 0) {
                    unify_ty_spec(
                        env,
                        alloc.0,
                        subst_ty(alloc.1, *t1, 0),
                        subst_ty(alloc.1, *t2, 0),
                        (fuel - 1) as nat,
                    )
                } else {
                    UnifyOutcomeV::Failure { st: alloc.0 }
                }
            },
            _ => UnifyOutcomeV::Failure { st },
        }
    }
}

/// Instantiate variable `d` with the (shallow-normalized, non-variable)
/// type `t`, after the occurs and universe check.
pub open spec fn unify_var_ty_spec(st: TableV, d: nat, t: TyV, fuel: nat) -> UnifyOutcomeV {
    if d >= st.ty_vars.len() {
        UnifyOutcomeV::Failure { st }
    } else {
        let chk = occurs_ty(st, d, st.ty_vars[d as int].universe, t, 0, fuel);
        if !chk.1 {
            UnifyOutcomeV::Failure { st: chk.0 }
        } else {
            UnifyOutcomeV::Success {
                st: set_ty_value(chk.0, d, t),
                goals: Seq::empty(),
                cs: Seq::empty(),
            }
        }
    }
}

pub open spec fn unify_lifetime_spec(st: TableV, a: LifetimeV, b: LifetimeV, fuel: nat)
    -> UnifyOutcomeV
    decreases fuel,
{
    if fuel == 0 {
        UnifyOutcomeV::Failure { st }
    } else if normalize_shallow_lifetime_spec(st, a, 0) is Some {
        unify_lifetime_spec(
            st,
            normalize_shallow_lifetime_spec(st, a, 0)->Some_0,
            b,
            (fuel - 1) as nat,
        )
    } else if normalize_shallow_lifetime_spec(st, b, 0) is Some {
        unify_lifetime_spec(
            st,
            a,
            normalize_shallow_lifetime_spec(st, b, 0)->Some_0,
            (fuel - 1) as nat,
        )
    } else {
        match (a, b) {
            (LifetimeV::Var(d1), LifetimeV::Var(d2)) => if d1 >= st.lifetime_vars.len() || d2
                >= st.lifetime_vars.len() {
                UnifyOutcomeV::Failure { st }
            } else if d1 == d2 {
                UnifyOutcomeV::Success { st, goals: Seq::empty(), cs: Seq::empty() }
            } else {
                let u1 = st.lifetime_vars[d1 as int].universe;
                let u2 = st.lifetime_vars[d2 as int].universe;
                let umin = if u1 < u2 {
                    u1
                } else {
                    u2
                };
                let st1 = set_lifetime_universe(st, d2, umin);
                let st2 = set_lifetime_value(st1, d1, LifetimeV::Var(d2));
                UnifyOutcomeV::Success { st: st2, goals: Seq::empty(), cs: Seq::empty() }
            },
            // A variable against a skolem, or two different skolems,
            // yields a constraint rather than an instantiation.
            (LifetimeV::ForAll(u1), LifetimeV::ForAll(u2)) => if u1 == u2 {
                UnifyOutcomeV::Success { st, goals: Seq::empty(), cs: Seq::empty() }
            } else {
                UnifyOutcomeV::Success {
                    st,
                    goals: Seq::empty(),
                    cs: seq![ConstraintV::LifetimeEq(a, b)],
                }
            },
            _ => UnifyOutcomeV::Success {
                st,
                goals: Seq::empty(),
                cs: seq![ConstraintV::LifetimeEq(a, b)],
            },
        }
    }
}

pub open spec fn unify_const_spec(st: TableV, a: ConstV, b: ConstV, fuel: nat) -> UnifyOutcomeV
    decreases fuel,
{
    if fuel == 0 {
        UnifyOutcomeV::Failure { st }
    } else if normalize_shallow_const_spec(st, a, 0) is Some {
        unify_const_spec(st, normalize_shallow_const_spec(st, a, 0)->Some_0, b, (fuel - 1) as nat)
    } else if normalize_shallow_const_spec(st, b, 0) is Some {
        unify_const_spec(st, a, normalize_shallow_const_spec(st, b, 0)->Some_0, (fuel - 1) as nat)
    } else {
        match (a, b) {
            (ConstV::Var(d1), ConstV::Var(d2)) => if d1 >= st.const_vars.len() || d2
                >= st.const_vars.len() {
                UnifyOutcomeV::Failure { st }
            } else if d1 == d2 {
                UnifyOutcomeV::Success { st, goals: Seq::empty(), cs: Seq::empty() }
            } else {
                let u1 = st.const_vars[d1 as int].universe;
                let u2 = st.const_vars[d2 as int].universe;
                let umin = if u1 < u2 {
                    u1
                } else {
                    u2
                };
                let st1 = set_const_universe(st, d2, umin);
                let st2 = set_const_value(st1, d1, ConstV::Var(d2));
                UnifyOutcomeV::Success { st: st2, goals: Seq::empty(), cs: Seq::empty() }
            },
        }
    }
}

pub open spec fn unify_param_spec(
    env: EnvironmentV,
    st: TableV,
    a: ParameterV,
    b: ParameterV,
    fuel: nat,
) -> UnifyOutcomeV
    decreases fuel, a,
{
    match (a, b) {
        (ParameterV::Ty(t1), ParameterV::Ty(t2)) => unify_ty_spec(env, st, t1, t2, fuel),
        (ParameterV::Lifetime(l1), ParameterV::Lifetime(l2)) => unify_lifetime_spec(
            st,
            l1,
            l2,
            fuel,
        ),
        (ParameterV::Const(c1), ParameterV::Const(c2)) => unify_const_spec(st, c1, c2, fuel),
        _ => UnifyOutcomeV::Failure { st },
    }
}

pub open spec fn unify_params_spec(
    env: EnvironmentV,
    st: TableV,
    a: Seq<ParameterV>,
    b: Seq<ParameterV>,
    fuel: nat,
) -> UnifyOutcomeV
    decreases fuel, a,
{
    if a.len() != b.len() {
        UnifyOutcomeV::Failure { st }
    } else if a.len() == 0 {
        UnifyOutcomeV::Success { st, goals: Seq::empty(), cs: Seq::empty() }
    } else {
        match unify_params_spec(env, st, a.drop_last(), b.drop_last(), fuel) {
            UnifyOutcomeV::Failure { st } => UnifyOutcomeV::Failure { st },
            UnifyOutcomeV::Success { st, goals, cs } => match unify_param_spec(
                env,
                st,
                a.last(),
                b.last(),
                fuel,
            ) {
                UnifyOutcomeV::Failure { st } => UnifyOutcomeV::Failure { st },
                UnifyOutcomeV::Success { st: st2, goals: g2, cs: c2 } => UnifyOutcomeV::Success {
                    st: st2,
                    goals: goals + g2,
                    cs: cs + c2,
                },
            },
        }
    }
}

/// A failed prefix decides the whole parameter walk.
pub proof fn lemma_unify_params_prefix_fail(
    env: EnvironmentV,
    st: TableV,
    a: Seq<ParameterV>,
    b: Seq<ParameterV>,
    fuel: nat,
    k: int,
)
    requires
        0 <= k <= a.len(),
        a.len() == b.len(),
        unify_params_spec(env, st, a.take(k), b.take(k), fuel) is Failure,
    ensures
        unify_params_spec(env, st, a, b, fuel) == unify_params_spec(
            env,
            st,
            a.take(k),
            b.take(k),
            fuel,
        ),
    decreases a.len(),
{
    if a.len() == k {
        assert(a.take(k) =~= a);
        assert(b.take(k) =~= b);
    } else {
        assert(a.drop_last().take(k) =~= a.take(k));
        assert(b.drop_last().take(k) =~= b.take(k));
        lemma_unify_params_prefix_fail(env, st, a.drop_last(), b.drop_last(), fuel, k);
    }
}

/// Unify two trait references: same trait, parameters pairwise.
pub open spec fn unify_trait_ref_pair_spec(
    env: EnvironmentV,
    st: TableV,
    t1: crate::ir::TraitRefV,
    t2: crate::ir::TraitRefV,
    fuel: nat,
) -> UnifyOutcomeV {
    if t1.trait_id == t2.trait_id {
        unify_params_spec(env, st, t1.parameters, t2.parameters, fuel)
    } else {
        UnifyOutcomeV::Failure { st }
    }
}

pub open spec fn unify_domain_goal_spec(
    env: EnvironmentV,
    st: TableV,
    a: DomainGoalV,
    b: DomainGoalV,
    fuel: nat,
) -> UnifyOutcomeV
    decreases fuel, a,
{
    match (a, b) {
        (DomainGoalV::Implemented(t1), DomainGoalV::Implemented(t2)) =>
            unify_trait_ref_pair_spec(env, st, t1, t2, fuel),
        (DomainGoalV::Normalize(n1), DomainGoalV::Normalize(n2)) => unify_projection_pair_spec(
            env,
            st,
            n1.projection.associated_ty_id,
            n1.projection.parameters,
            n1.ty,
            n2.projection.associated_ty_id,
            n2.projection.parameters,
            n2.ty,
            fuel,
        ),
        (DomainGoalV::ProjectionEq(n1), DomainGoalV::ProjectionEq(n2)) =>
            unify_projection_pair_spec(
            env,
            st,
            n1.projection.associated_ty_id,
            n1.projection.parameters,
            n1.ty,
            n2.projection.associated_ty_id,
            n2.projection.parameters,
            n2.ty,
            fuel,
        ),
        (DomainGoalV::UnselectedNormalize(n1), DomainGoalV::UnselectedNormalize(n2)) => if n1
            .projection.head_name == n2.projection.head_name {
            match unify_params_spec(
                env,
                st,
                n1.projection.parameters,
                n2.projection.parameters,
                fuel,
            ) {
                UnifyOutcomeV::Failure { st } => UnifyOutcomeV::Failure { st },
                UnifyOutcomeV::Success { st, goals, cs } => match unify_ty_spec(
                    env,
                    st,
                    n1.ty,
                    n2.ty,
                    fuel,
                ) {
                    UnifyOutcomeV::Failure { st } => UnifyOutcomeV::Failure { st },
                    UnifyOutcomeV::Success { st: st2, goals: g2, cs: c2 } => UnifyOutcomeV::Success {
                        st: st2,
                        goals: goals + g2,
                        cs: cs + c2,
                    },
                },
            }
        } else {
            UnifyOutcomeV::Failure { st }
        },
        (DomainGoalV::WellFormed(w1), DomainGoalV::WellFormed(w2)) => unify_well_formed_spec(
            env,
            st,
            w1,
            w2,
            fuel,
        ),
        (DomainGoalV::FromEnv(w1), DomainGoalV::FromEnv(w2)) => unify_from_env_spec(
            env,
            st,
            w1,
            w2,
            fuel,
        ),
        (DomainGoalV::InScope(i1), DomainGoalV::InScope(i2)) => if i1 == i2 {
            UnifyOutcomeV::Success { st, goals: Seq::empty(), cs: Seq::empty() }
        } else {
            UnifyOutcomeV::Failure { st }
        },
        _ => UnifyOutcomeV::Failure { st },
    }
}

/// Unify two projection applications and their equated types.
pub open spec fn unify_projection_pair_spec(
    env: EnvironmentV,
    st: TableV,
    id1: nat,
    ps1: Seq<ParameterV>,
    ty1: TyV,
    id2: nat,
    ps2: Seq<ParameterV>,
    ty2: TyV,
    fuel: nat,
) -> UnifyOutcomeV {
    if id1 != id2 {
        UnifyOutcomeV::Failure { st }
    } else {
        match unify_params_spec(env, st, ps1, ps2, fuel) {
            UnifyOutcomeV::Failure { st } => UnifyOutcomeV::Failure { st },
            UnifyOutcomeV::Success { st, goals, cs } => match unify_ty_spec(env, st, ty1, ty2, fuel) {
                UnifyOutcomeV::Failure { st } => UnifyOutcomeV::Failure { st },
                UnifyOutcomeV::Success { st: st2, goals: g2, cs: c2 } => UnifyOutcomeV::Success {
                    st: st2,
                    goals: goals + g2,
                    cs: cs + c2,
                },
            },
        }
    }
}

pub open spec fn unify_well_formed_spec(
    env: EnvironmentV,
    st: TableV,
    a: crate::ir::WellFormedV,
    b: crate::ir::WellFormedV,
    fuel: nat,
) -> UnifyOutcomeV {
    match (a, b) {
        (crate::ir::WellFormedV::Ty(t1), crate::ir::WellFormedV::Ty(t2)) => unify_ty_spec(
            env,
            st,
            t1,
            t2,
            fuel,
        ),
        (crate::ir::WellFormedV::TraitRef(t1), crate::ir::WellFormedV::TraitRef(t2)) =>
            unify_trait_ref_pair_spec(env, st, t1, t2, fuel),
        (crate::ir::WellFormedV::ProjectionEq(n1), crate::ir::WellFormedV::ProjectionEq(n2)) =>
            unify_projection_pair_spec(
            env,
            st,
            n1.projection.associated_ty_id,
            n1.projection.parameters,
            n1.ty,
            n2.projection.associated_ty_id,
            n2.projection.parameters,
            n2.ty,
            fuel,
        ),
        _ => UnifyOutcomeV::Failure { st },
    }
}

pub open spec fn unify_from_env_spec(
    env: EnvironmentV,
    st: TableV,
    a: crate::ir::FromEnvV,
    b: crate::ir::FromEnvV,
    fuel: nat,
) -> UnifyOutcomeV {
    match (a, b) {
        (crate::ir::FromEnvV::Ty(t1), crate::ir::FromEnvV::Ty(t2)) => unify_ty_spec(
            env,
            st,
            t1,
            t2,
            fuel,
        ),
        (crate::ir::FromEnvV::TraitRef(t1), crate::ir::FromEnvV::TraitRef(t2)) =>
            unify_trait_ref_pair_spec(env, st, t1, t2, fuel),
        (crate::ir::FromEnvV::ProjectionEq(n1), crate::ir::FromEnvV::ProjectionEq(n2)) =>
            unify_projection_pair_spec(
            env,
            st,
            n1.projection.associated_ty_id,
            n1.projection.parameters,
            n1.ty,
            n2.projection.associated_ty_id,
            n2.projection.parameters,
            n2.ty,
            fuel,
        ),
        _ => UnifyOutcomeV::Failure { st },
    }
}

// ---------------------------------------------------------------------------
// Executable side.
// ---------------------------------------------------------------------------

/// What unification hands back on success: extra subgoals from deferred
/// projection equalities, and lifetime constraints.
#[derive(Debug, PartialEq, Eq)]
pub struct UnificationResult {
    pub goals: Vec<InEnvironment<DomainGoal>>,
    pub constraints: Vec<Constraint>,
}

/// The view of a unification result as a success outcome over `st`.
pub open spec fn ur_success(st: TableV, ur: UnificationResult) -> UnifyOutcomeV {
    UnifyOutcomeV::Success {
        st,
        goals: env_domain_goals_view(ur.goals@),
        cs: constraints_view(ur.constraints@),
    }
}

impl InferenceTable {
    fn exec_set_ty_value(&mut self, i: usize, t: Ty)
        requires
            i < old(self)@.ty_vars.len(),
        ensures
            final(self)@ == set_ty_value(old(self)@, i as nat, crate::ir::ty_view(t)),
    {
        let u = self.ty_vars[i].universe;
        self.ty_vars.set(i, VarSlot { universe: u, value: Some(t) });
        proof {
            assert(self@ =~= set_ty_value(old(self)@, i as nat, crate::ir::ty_view(t)));
        }
    }

    fn exec_set_ty_universe_raise(&mut self, i: usize, u: UniverseIndex)
        requires
            i < old(self)@.ty_vars.len(),
            old(self)@.ty_vars[i as int].value is None,
        ensures
            final(self)@ == set_ty_universe(old(self)@, i as nat, u.counter as nat),
    {
        self.ty_vars.set(i, VarSlot { universe: u, value: None });
        proof {
            assert(self@ =~= set_ty_universe(old(self)@, i as nat, u.counter as nat));
        }
    }

    fn exec_set_lifetime_value(&mut self, i: usize, l: Lifetime)
        requires
            i < old(self)@.lifetime_vars.len(),
        ensures
            final(self)@ == set_lifetime_value(old(self)@, i as nat, crate::ir::lifetime_view(l)),
    {
        let u = self.lifetime_vars[i].universe;
        self.lifetime_vars.set(i, VarSlot { universe: u, value: Some(l) });
        proof {
            assert(self@ =~= set_lifetime_value(old(self)@, i as nat, crate::ir::lifetime_view(l)));
        }
    }

    fn exec_set_lifetime_universe(&mut self, i: usize, u: UniverseIndex)
        requires
            i < old(self)@.lifetime_vars.len(),
        ensures
            final(self)@ == set_lifetime_universe(old(self)@, i as nat, u.counter as nat),
    {
        let value = self.lifetime_vars[i].value;
        self.lifetime_vars.set(i, VarSlot { universe: u, value });
        proof {
            assert(self@ =~= set_lifetime_universe(old(self)@, i as nat, u.counter as nat));
        }
    }

    fn exec_set_const_value(&mut self, i: usize, c: Const)
        requires
            i < old(self)@.const_vars.len(),
        ensures
            final(self)@ == set_const_value(old(self)@, i as nat, crate::ir::const_view(c)),
    {
        let u = self.const_vars[i].universe;
        self.const_vars.set(i, VarSlot { universe: u, value: Some(c) });
        proof {
            assert(self@ =~= set_const_value(old(self)@, i as nat, crate::ir::const_view(c)));
        }
    }

    fn exec_set_const_universe(&mut self, i: usize, u: UniverseIndex)
        requires
            i < old(self)@.const_vars.len(),
        ensures
            final(self)@ == set_const_universe(old(self)@, i as nat, u.counter as nat),
    {
        let value = self.const_vars[i].value;
        self.const_vars.set(i, VarSlot { universe: u, value });
        proof {
            assert(self@ =~= set_const_universe(old(self)@, i as nat, u.counter as nat));
        }
    }

    // -----------------------------------------------------------------
    // The occurs and universe check, executable.
    // -----------------------------------------------------------------

    fn exec_occurs_ty(&mut self, vi: usize, vu: UniverseIndex, t: &Ty, b: usize, fuel: usize) -> (r:
        bool)
        ensures
            (final(self)@, r) == occurs_ty(
                old(self)@,
                vi as nat,
                vu.counter as nat,
                t@,
                b as nat,
                fuel as nat,
            ),
        decreases fuel, *t,
    {
        match t {
            Ty::Var(d) => {
                if *d < b {
                    true
                } else {
                    let f = *d - b;
                    match self.probe_ty_var(InferenceVariable { index: f }) {
                        Some(v) => {
                            if fuel == 0 {
                                false
                            } else {
                                self.exec_occurs_ty(vi, vu, &v, 0, fuel - 1)
                            }
                        },
                        None => {
                            if f >= self.ty_vars.len() {
                                true
                            } else if f == vi {
                                false
                            } else if self.ty_vars[f].universe.counter > vu.counter {
                                self.exec_set_ty_universe_raise(f, vu);
                                true
                            } else {
                                true
                            }
                        },
                    }
                }
            },
            Ty::Apply(a) => {
                match a.name {
                    TypeName::ForAll(u) => {
                        if u.counter > vu.counter {
                            false
                        } else {
                            self.exec_occurs_params(vi, vu, &a.parameters, b, fuel)
                        }
                    },
                    _ => self.exec_occurs_params(vi, vu, &a.parameters, b, fuel),
                }
            },
            Ty::Projection(p) => self.exec_occurs_params(vi, vu, &p.parameters, b, fuel),
            Ty::UnselectedProjection(p) => self.exec_occurs_params(vi, vu, &p.parameters, b, fuel),
            Ty::ForAll { num_binders, ty } => {
                if b > usize::MAX - *num_binders {
                    false
                } else {
                    self.exec_occurs_ty(vi, vu, &**ty, b + *num_binders, fuel)
                }
            },
        }
    }

    fn exec_occurs_lifetime(&mut self, vu: UniverseIndex, l: &Lifetime, b: usize, fuel: usize) -> (r:
        bool)
        ensures
            (final(self)@, r) == occurs_lifetime(
                old(self)@,
                vu.counter as nat,
                l@,
                b as nat,
                fuel as nat,
            ),
        decreases fuel,
    {
        match l {
            Lifetime::Var(d) => {
                if *d < b {
                    true
                } else {
                    let f = *d - b;
                    match self.probe_lifetime_var(InferenceVariable { index: f }) {
                        Some(v) => {
                            if fuel == 0 {
                                false
                            } else {
                                self.exec_occurs_lifetime(vu, &v, 0, fuel - 1)
                            }
                        },
                        None => {
                            if f >= self.lifetime_vars.len() {
                                true
                            } else if self.lifetime_vars[f].universe.counter > vu.counter {
                                self.exec_set_lifetime_universe(f, vu);
                                true
                            } else {
                                true
                            }
                        },
                    }
                }
            },
            Lifetime::ForAll(u) => u.counter <= vu.counter,
        }
    }

    fn exec_occurs_const(&mut self, vu: UniverseIndex, c: &Const, b: usize, fuel: usize) -> (r:
        bool)
        ensures
            (final(self)@, r) == occurs_const(
                old(self)@,
                vu.counter as nat,
                c@,
                b as nat,
                fuel as nat,
            ),
        decreases fuel,
    {
        match c {
            Const::Var(d) => {
                if *d < b {
                    true
                } else {
                    let f = *d - b;
                    match self.probe_const_var(InferenceVariable { index: f }) {
                        Some(v) => {
                            if fuel == 0 {
                                false
                            } else {
                                self.exec_occurs_const(vu, &v, 0, fuel - 1)
                            }
                        },
                        None => {
                            if f >= self.const_vars.len() {
                                true
                            } else if self.const_vars[f].universe.counter > vu.counter {
                                self.exec_set_const_universe(f, vu);
                                true
                            } else {
                                true
                            }
                        },
                    }
                }
            },
        }
    }

    fn exec_occurs_param(
        &mut self,
        vi: usize,
        vu: UniverseIndex,
        p: &Parameter,
        b: usize,
        fuel: usize,
    ) -> (r: bool)
        ensures
            (final(self)@, r) == occurs_param(
                old(self)@,
                vi as nat,
                vu.counter as nat,
                p@,
                b as nat,
                fuel as nat,
            ),
        decreases fuel, *p,
    {
        match p {
            Parameter::Ty(t) => self.exec_occurs_ty(vi, vu, t, b, fuel),
            Parameter::Lifetime(l) => self.exec_occurs_lifetime(vu, l, b, fuel),
            Parameter::Const(c) => self.exec_occurs_const(vu, c, b, fuel),
        }
    }

    fn exec_occurs_params(
        &mut self,
        vi: usize,
        vu: UniverseIndex,
        ps: &Vec<Parameter>,
        b: usize,
        fuel: usize,
    ) -> (r: bool)
        ensures
            (final(self)@, r) == occurs_params(
                old(self)@,
                vi as nat,
                vu.counter as nat,
                params_view(ps@),
                b as nat,
                fuel as nat,
            ),
        decreases fuel, *ps,
    {
        proof {
            lemma_params_view(ps@);
        }
        let ghost st0 = self@;
        let ghost ps_v = params_view(ps@);
        let mut i: usize = 0;
        while i < ps.len()
            invariant
                i <= ps@.len(),
                st0 == old(self)@,
                ps_v == params_view(ps@),
                ps_v.len() == ps@.len(),
                forall|j: int| 0 <= j < ps@.len() ==> ps_v[j] == param_view(ps@[j]),
                occurs_params(
                    st0,
                    vi as nat,
                    vu.counter as nat,
                    ps_v.take(i as int),
                    b as nat,
                    fuel as nat,
                ) == (self@, true),
            decreases ps@.len() - i,
        {
            proof {
                assert(ps_v.take(i + 1).drop_last() =~= ps_v.take(i as int));
                assert(ps_v.take(i + 1).last() == ps_v[i as int]);
            }
            let ghost st_i = self@;
            let ok = self.exec_occurs_param(vi, vu, &ps[i], b, fuel);
            if !ok {
                proof {
                    assert(occurs_params(
                        st0,
                        vi as nat,
                        vu.counter as nat,
                        ps_v.take(i as int),
                        b as nat,
                        fuel as nat,
                    ) == (st_i, true));
                    assert(occurs_param(st_i, vi as nat, vu.counter as nat, ps_v[i as int],
                        b as nat, fuel as nat) == (self@, false));
                    assert(occurs_params(
                        st0,
                        vi as nat,
                        vu.counter as nat,
                        ps_v.take(i + 1),
                        b as nat,
                        fuel as nat,
                    ) == (self@, false));
                    lemma_occurs_params_prefix_fail(
                        st0,
                        vi as nat,
                        vu.counter as nat,
                        ps_v,
                        b as nat,
                        fuel as nat,
                        i + 1,
                    );
                }
                return false;
            }
            i += 1;
        }
        proof {
            assert(ps_v.take(ps@.len() as int) =~= ps_v);
        }
        true
    }
}

// ---------------------------------------------------------------------------
// Unification, executable.
// ---------------------------------------------------------------------------

/// A skolem parameter: a nullary type application.
pub open spec fn is_ty_skolem(p: ParameterV) -> bool {
    match p {
        ParameterV::Ty(t) => match t {
            TyV::Apply(app) => app.parameters.len() == 0,
            _ => false,
        },
        _ => false,
    }
}

/// Two type names are equal exactly when their views are.
proof fn lemma_head_name_view_eq(n1: TypeName, n2: TypeName)
    ensures
        (n1 == n2) <==> (crate::ir::head_name_view(n1) == crate::ir::head_name_view(n2)),
{
}

/// Merge the by-products of two unification steps, in order.
pub(crate) fn merge_ur(ur1: UnificationResult, ur2: UnificationResult) -> (r: UnificationResult)
    ensures
        env_domain_goals_view(r.goals@) == env_domain_goals_view(ur1.goals@)
            + env_domain_goals_view(ur2.goals@),
        constraints_view(r.constraints@) == constraints_view(ur1.constraints@) + constraints_view(
            ur2.constraints@,
        ),
{
    let UnificationResult { goals: mut g1, constraints: mut c1 } = ur1;
    let UnificationResult { goals: mut g2, constraints: mut c2 } = ur2;
    let ghost g1v = g1@;
    let ghost g2v = g2@;
    let ghost c1v = c1@;
    let ghost c2v = c2@;
    g1.append(&mut g2);
    c1.append(&mut c2);
    proof {
        assert(env_domain_goals_view(g1v + g2v) =~= env_domain_goals_view(g1v)
            + env_domain_goals_view(g2v));
        assert(constraints_view(c1v + c2v) =~= constraints_view(c1v) + constraints_view(c2v));
    }
    UnificationResult { goals: g1, constraints: c1 }
}

pub(crate) fn empty_ur() -> (r: UnificationResult)
    ensures
        env_domain_goals_view(r.goals@) =~= Seq::<InEnvironmentV<DomainGoalV>>::empty(),
        constraints_view(r.constraints@) =~= Seq::<ConstraintV>::empty(),
{
    UnificationResult { goals: Vec::new(), constraints: Vec::new() }
}

impl InferenceTable {
    /// Allocate `n` fresh type skolems, each in a fresh universe.
    fn alloc_ty_skolems(&mut self, n: usize) -> (r: Vec<Parameter>)
        requires
            old(self)@.max_universe + n <= usize::MAX,
        ensures
            final(self)@ == alloc_skolems(old(self)@, ty_kinds(n as nat)).0,
            params_view(r@) == alloc_skolems(old(self)@, ty_kinds(n as nat)).1,
            forall|i: int| 0 <= i < r@.len() ==> is_ty_skolem(#[trigger] params_view(r@)[i]),
            r@.len() == n,
    {
        let ghost st0 = self@;
        let ghost ks = ty_kinds(n as nat);
        let mut out: Vec<Parameter> = Vec::new();
        let mut k: usize = 0;
        while k < n
            invariant
                k <= n,
                out@.len() == k,
                st0 == old(self)@,
                ks == ty_kinds(n as nat),
                st0.max_universe + n <= usize::MAX,
                self@.max_universe == st0.max_universe + k,
                self@ == alloc_skolems(st0, ks.take(k as int)).0,
                params_view(out@) == alloc_skolems(st0, ks.take(k as int)).1,
                forall|i: int| 0 <= i < k ==> is_ty_skolem(#[trigger] params_view(out@)[i]),
            decreases n - k,
        {
            let ghost prev = out@;
            let new_universe = self.new_universe();
            let p = Parameter::Ty(
                Ty::Apply(
                    ApplicationTy { name: TypeName::ForAll(new_universe), parameters: Vec::new() },
                ),
            );
            out.push(p);
            proof {
                let as0 = alloc_skolems(st0, ks.take(k as int));
                let as1 = alloc_skolems(st0, ks.take(k + 1));
                crate::instantiate::lemma_alloc_skolems_len(st0, ks.take(k as int));
                crate::instantiate::lemma_alloc_skolems_len(st0, ks.take(k + 1));
                lemma_params_view(prev);
                lemma_params_view(out@);
                assert(ks.take(k + 1).drop_last() =~= ks.take(k as int));
                assert(ks.take(k + 1).last() == ParamKind::Ty);
                assert(alloc_skolems(st0, ks.take(k + 1).drop_last()) == as0);
                assert(self@ =~= as1.0);
                assert forall|j: int| 0 <= j < k + 1 implies params_view(out@)[j] == as1.1[j] by {
                    if j < k {
                        assert(params_view(out@)[j] == param_view(prev[j]));
                        assert(param_view(prev[j]) == params_view(prev)[j]);
                    } else {
                        assert(params_view(out@)[j] == param_view(p));
                        assert(param_view(p) == as1.1.last());
                    }
                }
                assert(params_view(out@) =~= as1.1);
                assert(is_ty_skolem(param_view(p)));
            }
            k += 1;
        }
        proof {
            assert(ks.take(n as int) =~= ks);
        }
        out
    }

    // -----------------------------------------------------------------
    // Deciding whether a skolem substitution can be applied: kinds line
    // up and no binder counter can overflow.
    // -----------------------------------------------------------------

    fn check_skolem_inst_ty(ps: &Vec<Parameter>, t: &Ty, b: usize) -> (r: bool)
        requires
            forall|i: int| 0 <= i < ps@.len() ==> is_ty_skolem(#[trigger] params_view(ps@)[i]),
        ensures
            r == inst_ok_ty(params_view(ps@), t@, b as nat),
        decreases *t,
    {
        proof {
            lemma_params_view(ps@);
        }
        match t {
            Ty::Var(d) => {
                if *d < b {
                    true
                } else if *d - b < ps.len() {
                    proof {
                        let pv = params_view(ps@)[*d - b];
                        assert(is_ty_skolem(pv));
                        assert(crate::shift::up_fits_param(pv, 0, b as nat));
                    }
                    true
                } else {
                    true
                }
            },
            Ty::Apply(a) => Self::check_skolem_inst_params(ps, &a.parameters, b),
            Ty::Projection(p) => Self::check_skolem_inst_params(ps, &p.parameters, b),
            Ty::UnselectedProjection(p) => Self::check_skolem_inst_params(ps, &p.parameters, b),
            Ty::ForAll { num_binders, ty } => {
                if b > usize::MAX - *num_binders {
                    false
                } else {
                    Self::check_skolem_inst_ty(ps, &**ty, b + *num_binders)
                }
            },
        }
    }

    fn check_skolem_inst_param(ps: &Vec<Parameter>, p: &Parameter, b: usize) -> (r: bool)
        requires
            forall|i: int| 0 <= i < ps@.len() ==> is_ty_skolem(#[trigger] params_view(ps@)[i]),
        ensures
            r == crate::subst::inst_ok_param(params_view(ps@), p@, b as nat),
        decreases *p,
    {
        proof {
            lemma_params_view(ps@);
        }
        match p {
            Parameter::Ty(t) => Self::check_skolem_inst_ty(ps, t, b),
            Parameter::Lifetime(l) => {
                match l {
                    Lifetime::Var(d) => {
                        if *d < b {
                            true
                        } else if *d - b < ps.len() {
                            proof {
                                assert(is_ty_skolem(params_view(ps@)[*d - b]));
                            }
                            false
                        } else {
                            true
                        }
                    },
                    Lifetime::ForAll(_) => true,
                }
            },
            Parameter::Const(c) => {
                match c {
                    Const::Var(d) => {
                        if *d < b {
                            true
                        } else if *d - b < ps.len() {
                            proof {
                                assert(is_ty_skolem(params_view(ps@)[*d - b]));
                            }
                            false
                        } else {
                            true
                        }
                    },
                }
            },
        }
    }

    fn check_skolem_inst_params(ps: &Vec<Parameter>, target: &Vec<Parameter>, b: usize) -> (r:
        bool)
        requires
            forall|i: int| 0 <= i < ps@.len() ==> is_ty_skolem(#[trigger] params_view(ps@)[i]),
        ensures
            r == crate::subst::inst_ok_params(params_view(ps@), params_view(target@), b as nat),
        decreases *target,
    {
        proof {
            lemma_params_view(target@);
        }
        let mut i: usize = 0;
        while i < target.len()
            invariant
                i <= target@.len(),
                params_view(target@).len() == target@.len(),
                forall|j: int|
                    0 <= j < ps@.len() ==> is_ty_skolem(#[trigger] params_view(ps@)[j]),
                forall|j: int| 0 <= j < target@.len() ==> params_view(target@)[j] == param_view(
                    target@[j],
                ),
                forall|j: int|
                    0 <= j < i ==> crate::subst::inst_ok_param(
                        params_view(ps@),
                        #[trigger] params_view(target@)[j],
                        b as nat,
                    ),
            decreases target@.len() - i,
        {
            if !Self::check_skolem_inst_param(ps, &target[i], b) {
                proof {
                    assert(!crate::subst::inst_ok_param(
                        params_view(ps@),
                        params_view(target@)[i as int],
                        b as nat,
                    ));
                }
                return false;
            }
            i += 1;
        }
        true
    }

    // -----------------------------------------------------------------
    // The driver.
    // -----------------------------------------------------------------

    fn exec_unify_ty(&mut self, env: &Environment, a: &Ty, b: &Ty, fuel: usize) -> (r: Result<
        UnificationResult,
        NoSolution,
    >)
        ensures
            match r {
                Ok(ur) => unify_ty_spec(env@, old(self)@, a@, b@, fuel as nat) == ur_success(
                    final(self)@,
                    ur,
                ),
                Err(_) => unify_ty_spec(env@, old(self)@, a@, b@, fuel as nat)
                    == (UnifyOutcomeV::Failure { st: final(self)@ }),
            },
        decreases fuel, *a,
    {
        if fuel == 0 {
            return Err(NoSolution);
        }
        if let Some(na) = self.normalize_shallow(a, 0) {
            return self.exec_unify_ty(env, &na, b, fuel - 1);
        }
        if let Some(nb) = self.normalize_shallow(b, 0) {
            return self.exec_unify_ty(env, a, &nb, fuel - 1);
        }
        if let Ty::Projection(p) = a {
            let goal = DomainGoal::ProjectionEq(
                ProjectionEq { projection: clone_projection(p), ty: clone_ty(b) },
            );
            let in_env = InEnvironment { environment: clone_environment(env), goal };
            let mut goals: Vec<InEnvironment<DomainGoal>> = Vec::new();
            goals.push(in_env);
            let ur = UnificationResult { goals, constraints: Vec::new() };
            proof {
                assert(constraints_view(ur.constraints@) =~= Seq::<ConstraintV>::empty());
                assert(unify_ty_spec(env@, self@, a@, b@, fuel as nat) =~= ur_success(self@, ur));
            }
            return Ok(ur);
        }
        if let Ty::Projection(p) = b {
            let goal = DomainGoal::ProjectionEq(
                ProjectionEq { projection: clone_projection(p), ty: clone_ty(a) },
            );
            let in_env = InEnvironment { environment: clone_environment(env), goal };
            let mut goals: Vec<InEnvironment<DomainGoal>> = Vec::new();
            goals.push(in_env);
            let ur = UnificationResult { goals, constraints: Vec::new() };
            proof {
                assert(constraints_view(ur.constraints@) =~= Seq::<ConstraintV>::empty());
                assert(unify_ty_spec(env@, self@, a@, b@, fuel as nat) =~= ur_success(self@, ur));
            }
            return Ok(ur);
        }
        if let Ty::UnselectedProjection(p) = a {
            let goal = DomainGoal::UnselectedNormalize(
                UnselectedNormalize { projection: clone_unselected_projection(p), ty: clone_ty(b) },
            );
            let in_env = InEnvironment { environment: clone_environment(env), goal };
            let mut goals: Vec<InEnvironment<DomainGoal>> = Vec::new();
            goals.push(in_env);
            let ur = UnificationResult { goals, constraints: Vec::new() };
            proof {
                assert(constraints_view(ur.constraints@) =~= Seq::<ConstraintV>::empty());
                assert(unify_ty_spec(env@, self@, a@, b@, fuel as nat) =~= ur_success(self@, ur));
            }
            return Ok(ur);
        }
        if let Ty::UnselectedProjection(p) = b {
            let goal = DomainGoal::UnselectedNormalize(
                UnselectedNormalize { projection: clone_unselected_projection(p), ty: clone_ty(a) },
            );
            let in_env = InEnvironment { environment: clone_environment(env), goal };
            let mut goals: Vec<InEnvironment<DomainGoal>> = Vec::new();
            goals.push(in_env);
            let ur = UnificationResult { goals, constraints: Vec::new() };
            proof {
                assert(constraints_view(ur.constraints@) =~= Seq::<ConstraintV>::empty());
                assert(unify_ty_spec(env@, self@, a@, b@, fuel as nat) =~= ur_success(self@, ur));
            }
            return Ok(ur);
        }
        match (a, b) {
            (Ty::Var(d1), Ty::Var(d2)) => {
                if *d1 >= self.ty_vars.len() || *d2 >= self.ty_vars.len() {
                    Err(NoSolution)
                } else if *d1 == *d2 {
                    Ok(empty_ur())
                } else {
                    let u1 = self.ty_vars[*d1].universe;
                    let u2 = self.ty_vars[*d2].universe;
                    let umin = if u1.counter < u2.counter {
                        u1
                    } else {
                        u2
                    };
                    let ghost st0 = self@;
                    self.exec_set_ty_universe_any(*d2, umin);
                    self.exec_set_ty_value(*d1, Ty::Var(*d2));
                    Ok(empty_ur())
                }
            },
            (Ty::Var(d), _) => self.exec_unify_var_ty(*d, b, fuel),
            (_, Ty::Var(d)) => self.exec_unify_var_ty(*d, a, fuel),
            (Ty::Apply(a1), Ty::Apply(a2)) => {
                proof {
                    lemma_head_name_view_eq(a1.name, a2.name);
                }
                if a1.name == a2.name {
                    self.exec_unify_params(env, &a1.parameters, &a2.parameters, fuel)
                } else {
                    Err(NoSolution)
                }
            },
            (
                Ty::ForAll { num_binders: nb1, ty: t1 },
                Ty::ForAll { num_binders: nb2, ty: t2 },
            ) => {
                if *nb1 != *nb2 {
                    return Err(NoSolution);
                }
                if self.max_universe.counter > usize::MAX - *nb1 {
                    return Err(NoSolution);
                }
                let sk = self.alloc_ty_skolems(*nb1);
                let ok1 = Self::check_skolem_inst_ty(&sk, &**t1, 0);
                let ok2 = Self::check_skolem_inst_ty(&sk, &**t2, 0);
                if !ok1 || !ok2 {
                    return Err(NoSolution);
                }
                let s1 = apply_subst_ty(&sk, &**t1, 0);
                let s2 = apply_subst_ty(&sk, &**t2, 0);
                self.exec_unify_ty(env, &s1, &s2, fuel - 1)
            },
            _ => Err(NoSolution),
        }
    }

    /// Raise or lower a type variable's universe, preserving its value.
    fn exec_set_ty_universe_any(&mut self, i: usize, u: UniverseIndex)
        requires
            i < old(self)@.ty_vars.len(),
        ensures
            final(self)@ == set_ty_universe(old(self)@, i as nat, u.counter as nat),
    {
        let value = match &self.ty_vars[i].value {
            Some(t) => Some(clone_ty(t)),
            None => None,
        };
        self.ty_vars.set(i, VarSlot { universe: u, value });
        proof {
            assert(self@ =~= set_ty_universe(old(self)@, i as nat, u.counter as nat));
        }
    }

    fn exec_unify_var_ty(&mut self, d: usize, t: &Ty, fuel: usize) -> (r: Result<
        UnificationResult,
        NoSolution,
    >)
        ensures
            match r {
                Ok(ur) => unify_var_ty_spec(old(self)@, d as nat, t@, fuel as nat) == ur_success(
                    final(self)@,
                    ur,
                ),
                Err(_) => unify_var_ty_spec(old(self)@, d as nat, t@, fuel as nat)
                    == (UnifyOutcomeV::Failure { st: final(self)@ }),
            },
    {
        if d >= self.ty_vars.len() {
            return Err(NoSolution);
        }
        let vu = self.ty_vars[d].universe;
        let ok = self.exec_occurs_ty(d, vu, t, 0, fuel);
        if !ok {
            return Err(NoSolution);
        }
        proof {
            assert(occurs_ty(old(self)@, d as nat, vu.counter as nat, t@, 0, fuel as nat).0
                == self@);
            assert(self@.ty_vars.len() == old(self)@.ty_vars.len()) by {
                lemma_occurs_preserves_ty_len(
                    old(self)@,
                    d as nat,
                    vu.counter as nat,
                    t@,
                    0,
                    fuel as nat,
                );
            }
        }
        self.exec_set_ty_value(d, clone_ty(t));
        Ok(empty_ur())
    }

    fn exec_unify_lifetime(&mut self, a: &Lifetime, b: &Lifetime, fuel: usize) -> (r: Result<
        UnificationResult,
        NoSolution,
    >)
        ensures
            match r {
                Ok(ur) => unify_lifetime_spec(old(self)@, a@, b@, fuel as nat) == ur_success(
                    final(self)@,
                    ur,
                ),
                Err(_) => unify_lifetime_spec(old(self)@, a@, b@, fuel as nat)
                    == (UnifyOutcomeV::Failure { st: final(self)@ }),
            },
        decreases fuel,
    {
        if fuel == 0 {
            return Err(NoSolution);
        }
        if let Some(na) = self.normalize_lifetime(a, 0) {
            return self.exec_unify_lifetime(&na, b, fuel - 1);
        }
        if let Some(nb) = self.normalize_lifetime(b, 0) {
            return self.exec_unify_lifetime(a, &nb, fuel - 1);
        }
        match (a, b) {
            (Lifetime::Var(d1), Lifetime::Var(d2)) => {
                if *d1 >= self.lifetime_vars.len() || *d2 >= self.lifetime_vars.len() {
                    Err(NoSolution)
                } else if *d1 == *d2 {
                    Ok(empty_ur())
                } else {
                    let u1 = self.lifetime_vars[*d1].universe;
                    let u2 = self.lifetime_vars[*d2].universe;
                    let umin = if u1.counter < u2.counter {
                        u1
                    } else {
                        u2
                    };
                    self.exec_set_lifetime_universe(*d2, umin);
                    self.exec_set_lifetime_value(*d1, Lifetime::Var(*d2));
                    Ok(empty_ur())
                }
            },
            (Lifetime::ForAll(u1), Lifetime::ForAll(u2)) => {
                if u1.counter == u2.counter {
                    Ok(empty_ur())
                } else {
                    let mut constraints: Vec<Constraint> = Vec::new();
                    constraints.push(Constraint::LifetimeEq(*a, *b));
                    let ur = UnificationResult { goals: Vec::new(), constraints };
                    proof {
                        assert(constraints_view(ur.constraints@) =~= seq![
                            ConstraintV::LifetimeEq(a@, b@),
                        ]);
                        assert(env_domain_goals_view(ur.goals@) =~= Seq::<
                            InEnvironmentV<DomainGoalV>,
                        >::empty());
                    }
                    Ok(ur)
                }
            },
            _ => {
                let mut constraints: Vec<Constraint> = Vec::new();
                constraints.push(Constraint::LifetimeEq(*a, *b));
                let ur = UnificationResult { goals: Vec::new(), constraints };
                proof {
                    assert(constraints_view(ur.constraints@) =~= seq![
                        ConstraintV::LifetimeEq(a@, b@),
                    ]);
                    assert(env_domain_goals_view(ur.goals@) =~= Seq::<
                        InEnvironmentV<DomainGoalV>,
                    >::empty());
                }
                Ok(ur)
            },
        }
    }

    fn exec_unify_const(&mut self, a: &Const, b: &Const, fuel: usize) -> (r: Result<
        UnificationResult,
        NoSolution,
    >)
        ensures
            match r {
                Ok(ur) => unify_const_spec(old(self)@, a@, b@, fuel as nat) == ur_success(
                    final(self)@,
                    ur,
                ),
                Err(_) => unify_const_spec(old(self)@, a@, b@, fuel as nat)
                    == (UnifyOutcomeV::Failure { st: final(self)@ }),
            },
        decreases fuel,
    {
        if fuel == 0 {
            return Err(NoSolution);
        }
        if let Some(na) = self.normalize_const(a, 0) {
            return self.exec_unify_const(&na, b, fuel - 1);
        }
        if let Some(nb) = self.normalize_const(b, 0) {
            return self.exec_unify_const(a, &nb, fuel - 1);
        }
        match (a, b) {
            (Const::Var(d1), Const::Var(d2)) => {
                if *d1 >= self.const_vars.len() || *d2 >= self.const_vars.len() {
                    Err(NoSolution)
                } else if *d1 == *d2 {
                    Ok(empty_ur())
                } else {
                    let u1 = self.const_vars[*d1].universe;
                    let u2 = self.const_vars[*d2].universe;
                    let umin = if u1.counter < u2.counter {
                        u1
                    } else {
                        u2
                    };
                    self.exec_set_const_universe(*d2, umin);
                    self.exec_set_const_value(*d1, Const::Var(*d2));
                    Ok(empty_ur())
                }
            },
        }
    }

    pub(crate) fn exec_unify_param(&mut self, env: &Environment, a: &Parameter, b: &Parameter, fuel: usize)
        -> (r: Result<UnificationResult, NoSolution>)
        ensures
            match r {
                Ok(ur) => unify_param_spec(env@, old(self)@, a@, b@, fuel as nat) == ur_success(
                    final(self)@,
                    ur,
                ),
                Err(_) => unify_param_spec(env@, old(self)@, a@, b@, fuel as nat)
                    == (UnifyOutcomeV::Failure { st: final(self)@ }),
            },
        decreases fuel, *a,
    {
        match (a, b) {
            (Parameter::Ty(t1), Parameter::Ty(t2)) => self.exec_unify_ty(env, t1, t2, fuel),
            (Parameter::Lifetime(l1), Parameter::Lifetime(l2)) => self.exec_unify_lifetime(
                l1,
                l2,
                fuel,
            ),
            (Parameter::Const(c1), Parameter::Const(c2)) => self.exec_unify_const(c1, c2, fuel),
            _ => Err(NoSolution),
        }
    }

    fn exec_unify_params(
        &mut self,
        env: &Environment,
        a: &Vec<Parameter>,
        b: &Vec<Parameter>,
        fuel: usize,
    ) -> (r: Result<UnificationResult, NoSolution>)
        ensures
            match r {
                Ok(ur) => unify_params_spec(
                    env@,
                    old(self)@,
                    params_view(a@),
                    params_view(b@),
                    fuel as nat,
                ) == ur_success(final(self)@, ur),
                Err(_) => unify_params_spec(
                    env@,
                    old(self)@,
                    params_view(a@),
                    params_view(b@),
                    fuel as nat,
                ) == (UnifyOutcomeV::Failure { st: final(self)@ }),
            },
        decreases fuel, *a,
    {
        proof {
            lemma_params_view(a@);
            lemma_params_view(b@);
        }
        if a.len() != b.len() {
            return Err(NoSolution);
        }
        let ghost st0 = self@;
        let ghost av = params_view(a@);
        let ghost bv = params_view(b@);
        let mut acc = empty_ur();
        let mut i: usize = 0;
        while i < a.len()
            invariant
                i <= a@.len(),
                a@.len() == b@.len(),
                st0 == old(self)@,
                av == params_view(a@),
                bv == params_view(b@),
                av.len() == a@.len(),
                bv.len() == b@.len(),
                forall|j: int| 0 <= j < a@.len() ==> av[j] == param_view(a@[j]),
                forall|j: int| 0 <= j < b@.len() ==> bv[j] == param_view(b@[j]),
                unify_params_spec(env@, st0, av.take(i as int), bv.take(i as int), fuel as nat)
                    == ur_success(self@, acc),
            decreases a@.len() - i,
        {
            proof {
                assert(av.take(i + 1).drop_last() =~= av.take(i as int));
                assert(bv.take(i + 1).drop_last() =~= bv.take(i as int));
                assert(av.take(i + 1).last() == av[i as int]);
                assert(bv.take(i + 1).last() == bv[i as int]);
            }
            let ghost st_i = self@;
            match self.exec_unify_param(env, &a[i], &b[i], fuel) {
                Ok(step) => {
                    proof {
                        assert(unify_param_spec(env@, st_i, av[i as int], bv[i as int],
                            fuel as nat) == ur_success(self@, step));
                    }
                    acc = merge_ur(acc, step);
                    proof {
                        assert(unify_params_spec(env@, st0, av.take(i + 1), bv.take(i + 1),
                            fuel as nat) == ur_success(self@, acc));
                    }
                },
                Err(e) => {
                    proof {
                        assert(unify_params_spec(env@, st0, av.take(i + 1), bv.take(i + 1),
                            fuel as nat) == (UnifyOutcomeV::Failure { st: self@ }));
                        lemma_unify_params_prefix_fail(env@, st0, av, bv, fuel as nat, i + 1);
                    }
                    return Err(e);
                },
            }
            i += 1;
        }
        proof {
            assert(av.take(a@.len() as int) =~= av);
            assert(bv.take(b@.len() as int) =~= bv);
        }
        Ok(acc)
    }
}

/// The occurs check never changes the number of variables.
pub proof fn lemma_occurs_preserves_ty_len(
    st: TableV,
    vi: nat,
    vu: nat,
    t: TyV,
    b: nat,
    fuel: nat,
)
    ensures
        occurs_ty(st, vi, vu, t, b, fuel).0.ty_vars.len() == st.ty_vars.len(),
    decreases fuel, t,
{
    match t {
        TyV::Var(d) => {
            if d >= b {
                let f = (d - b) as nat;
                match probe_ty(st, f) {
                    Some(v) => {
                        if fuel > 0 {
                            lemma_occurs_preserves_ty_len(st, vi, vu, v, 0, (fuel - 1) as nat);
                        }
                    },
                    None => {},
                }
            }
        },
        TyV::Apply(a) => {
            lemma_occurs_params_preserves_ty_len(st, vi, vu, a.parameters, b, fuel);
        },
        TyV::Projection(p) => {
            lemma_occurs_params_preserves_ty_len(st, vi, vu, p.parameters, b, fuel);
        },
        TyV::UnselectedProjection(p) => {
            lemma_occurs_params_preserves_ty_len(st, vi, vu, p.parameters, b, fuel);
        },
        TyV::ForAll(nb, inner) => {
            if b + nb <= usize::MAX {
                lemma_occurs_preserves_ty_len(st, vi, vu, *inner, b + nb, fuel);
            }
        },
    }
}

pub proof fn lemma_occurs_param_preserves_ty_len(
    st: TableV,
    vi: nat,
    vu: nat,
    p: ParameterV,
    b: nat,
    fuel: nat,
)
    ensures
        occurs_param(st, vi, vu, p, b, fuel).0.ty_vars.len() == st.ty_vars.len(),
    decreases fuel, p,
{
    match p {
        ParameterV::Ty(t) => {
            lemma_occurs_preserves_ty_len(st, vi, vu, t, b, fuel);
        },
        ParameterV::Lifetime(l) => {
            lemma_occurs_lifetime_preserves_ty_len(st, vu, l, b, fuel);
        },
        ParameterV::Const(c) => {
            lemma_occurs_const_preserves_ty_len(st, vu, c, b, fuel);
        },
    }
}

pub proof fn lemma_occurs_lifetime_preserves_ty_len(
    st: TableV,
    vu: nat,
    l: LifetimeV,
    b: nat,
    fuel: nat,
)
    ensures
        occurs_lifetime(st, vu, l, b, fuel).0.ty_vars.len() == st.ty_vars.len(),
    decreases fuel, l,
{
    match l {
        LifetimeV::Var(d) => {
            if d >= b {
                match probe_lifetime(st, (d - b) as nat) {
                    Some(v) => {
                        if fuel > 0 {
                            lemma_occurs_lifetime_preserves_ty_len(st, vu, v, 0, (fuel - 1) as nat);
                        }
                    },
                    None => {},
                }
            }
        },
        LifetimeV::ForAll(_) => {},
    }
}

pub proof fn lemma_occurs_const_preserves_ty_len(
    st: TableV,
    vu: nat,
    c: ConstV,
    b: nat,
    fuel: nat,
)
    ensures
        occurs_const(st, vu, c, b, fuel).0.ty_vars.len() == st.ty_vars.len(),
    decreases fuel, c,
{
    match c {
        ConstV::Var(d) => {
            if d >= b {
                match probe_const(st, (d - b) as nat) {
                    Some(v) => {
                        if fuel > 0 {
                            lemma_occurs_const_preserves_ty_len(st, vu, v, 0, (fuel - 1) as nat);
                        }
                    },
                    None => {},
                }
            }
        },
    }
}

pub proof fn lemma_occurs_params_preserves_ty_len(
    st: TableV,
    vi: nat,
    vu: nat,
    ps: Seq<ParameterV>,
    b: nat,
    fuel: nat,
)
    ensures
        occurs_params(st, vi, vu, ps, b, fuel).0.ty_vars.len() == st.ty_vars.len(),
    decreases fuel, ps,
{
    if ps.len() > 0 {
        lemma_occurs_params_preserves_ty_len(st, vi, vu, ps.drop_last(), b, fuel);
        let pre = occurs_params(st, vi, vu, ps.drop_last(), b, fuel);
        if pre.1 {
            lemma_occurs_param_preserves_ty_len(pre.0, vi, vu, ps.last(), b, fuel);
        }
    }
}

impl InferenceTable {
    fn exec_unify_projection_pair(
        &mut self,
        env: &Environment,
        p1: &ProjectionTy,
        ty1: &Ty,
        p2: &ProjectionTy,
        ty2: &Ty,
        fuel: usize,
    ) -> (r: Result<UnificationResult, NoSolution>)
        ensures
            match r {
                Ok(ur) => unify_projection_pair_spec(
                    env@,
                    old(self)@,
                    p1.associated_ty_id.index as nat,
                    crate::ir::projection_view(*p1).parameters,
                    ty1@,
                    p2.associated_ty_id.index as nat,
                    crate::ir::projection_view(*p2).parameters,
                    ty2@,
                    fuel as nat,
                ) == ur_success(final(self)@, ur),
                Err(_) => unify_projection_pair_spec(
                    env@,
                    old(self)@,
                    p1.associated_ty_id.index as nat,
                    crate::ir::projection_view(*p1).parameters,
                    ty1@,
                    p2.associated_ty_id.index as nat,
                    crate::ir::projection_view(*p2).parameters,
                    ty2@,
                    fuel as nat,
                ) == (UnifyOutcomeV::Failure { st: final(self)@ }),
            },
    {
        if p1.associated_ty_id.index != p2.associated_ty_id.index {
            return Err(NoSolution);
        }
        let ghost st_mid0 = self@;
        let ur1 = match self.exec_unify_params(env, &p1.parameters, &p2.parameters, fuel) {
            Ok(ur) => ur,
            Err(e) => {
                return Err(e);
            },
        };
        let ghost st_mid = self@;
        match self.exec_unify_ty(env, ty1, ty2, fuel) {
            Ok(ur2) => Ok(merge_ur(ur1, ur2)),
            Err(e) => Err(e),
        }
    }

    fn exec_unify_trait_refs(&mut self, env: &Environment, t1: &TraitRef, t2: &TraitRef,
        fuel: usize) -> (r: Result<UnificationResult, NoSolution>)
        ensures
            match r {
                Ok(ur) => unify_trait_ref_pair_spec(
                    env@,
                    old(self)@,
                    crate::ir::trait_ref_view(*t1),
                    crate::ir::trait_ref_view(*t2),
                    fuel as nat,
                ) == ur_success(final(self)@, ur),
                Err(_) => unify_trait_ref_pair_spec(
                    env@,
                    old(self)@,
                    crate::ir::trait_ref_view(*t1),
                    crate::ir::trait_ref_view(*t2),
                    fuel as nat,
                ) == (UnifyOutcomeV::Failure { st: final(self)@ }),
            },
    {
        if t1.trait_id.index != t2.trait_id.index {
            return Err(NoSolution);
        }
        self.exec_unify_params(env, &t1.parameters, &t2.parameters, fuel)
    }

    fn exec_unify_domain_goal(
        &mut self,
        env: &Environment,
        a: &DomainGoal,
        b: &DomainGoal,
        fuel: usize,
    ) -> (r: Result<UnificationResult, NoSolution>)
        ensures
            match r {
                Ok(ur) => unify_domain_goal_spec(env@, old(self)@, a@, b@, fuel as nat)
                    == ur_success(final(self)@, ur),
                Err(_) => unify_domain_goal_spec(env@, old(self)@, a@, b@, fuel as nat)
                    == (UnifyOutcomeV::Failure { st: final(self)@ }),
            },
    {
        match (a, b) {
            (DomainGoal::Implemented(t1), DomainGoal::Implemented(t2)) => self
                .exec_unify_trait_refs(env, t1, t2, fuel),
            (DomainGoal::Normalize(n1), DomainGoal::Normalize(n2)) => self
                .exec_unify_projection_pair(env, &n1.projection, &n1.ty, &n2.projection, &n2.ty,
                fuel),
            (DomainGoal::ProjectionEq(n1), DomainGoal::ProjectionEq(n2)) => self
                .exec_unify_projection_pair(env, &n1.projection, &n1.ty, &n2.projection, &n2.ty,
                fuel),
            (DomainGoal::UnselectedNormalize(n1), DomainGoal::UnselectedNormalize(n2)) => {
                if n1.projection.head_name.index != n2.projection.head_name.index {
                    return Err(NoSolution);
                }
                let ur1 = match self.exec_unify_params(
                    env,
                    &n1.projection.parameters,
                    &n2.projection.parameters,
                    fuel,
                ) {
                    Ok(ur) => ur,
                    Err(e) => {
                        return Err(e);
                    },
                };
                match self.exec_unify_ty(env, &n1.ty, &n2.ty, fuel) {
                    Ok(ur2) => Ok(merge_ur(ur1, ur2)),
                    Err(e) => Err(e),
                }
            },
            (DomainGoal::WellFormed(w1), DomainGoal::WellFormed(w2)) => {
                match (w1, w2) {
                    (WellFormed::Ty(t1), WellFormed::Ty(t2)) => self.exec_unify_ty(
                        env,
                        t1,
                        t2,
                        fuel,
                    ),
                    (WellFormed::TraitRef(t1), WellFormed::TraitRef(t2)) => self
                        .exec_unify_trait_refs(env, t1, t2, fuel),
                    (WellFormed::ProjectionEq(n1), WellFormed::ProjectionEq(n2)) => self
                        .exec_unify_projection_pair(env, &n1.projection, &n1.ty, &n2.projection,
                        &n2.ty, fuel),
                    _ => Err(NoSolution),
                }
            },
            (DomainGoal::FromEnv(w1), DomainGoal::FromEnv(w2)) => {
                match (w1, w2) {
                    (FromEnv::Ty(t1), FromEnv::Ty(t2)) => self.exec_unify_ty(env, t1, t2, fuel),
                    (FromEnv::TraitRef(t1), FromEnv::TraitRef(t2)) => self.exec_unify_trait_refs(
                        env,
                        t1,
                        t2,
                        fuel,
                    ),
                    (FromEnv::ProjectionEq(n1), FromEnv::ProjectionEq(n2)) => self
                        .exec_unify_projection_pair(env, &n1.projection, &n1.ty, &n2.projection,
                        &n2.ty, fuel),
                    _ => Err(NoSolution),
                }
            },
            (DomainGoal::InScope(i1), DomainGoal::InScope(i2)) => {
                if i1.index == i2.index {
                    Ok(empty_ur())
                } else {
                    Err(NoSolution)
                }
            },
            _ => Err(NoSolution),
        }
    }

    /// Solve `a = b` in `env`: the public unification entry point for
    /// domain goals, at the driver's full depth budget.
    pub fn unify(&mut self, env: &Environment, a: &DomainGoal, b: &DomainGoal) -> (r: Result<
        UnificationResult,
        NoSolution,
    >)
        ensures
            match r {
                Ok(ur) => unify_domain_goal_spec(env@, old(self)@, a@, b@, unify_fuel())
                    == ur_success(final(self)@, ur),
                Err(_) => unify_domain_goal_spec(env@, old(self)@, a@, b@, unify_fuel())
                    == (UnifyOutcomeV::Failure { st: final(self)@ }),
            },
    {
        self.exec_unify_domain_goal(env, a, b, usize::MAX)
    }

    /// Solve `a = b` for two types.
    pub fn unify_tys(&mut self, env: &Environment, a: &Ty, b: &Ty) -> (r: Result<
        UnificationResult,
        NoSolution,
    >)
        ensures
            match r {
                Ok(ur) => unify_ty_spec(env@, old(self)@, a@, b@, unify_fuel()) == ur_success(
                    final(self)@,
                    ur,
                ),
                Err(_) => unify_ty_spec(env@, old(self)@, a@, b@, unify_fuel())
                    == (UnifyOutcomeV::Failure { st: final(self)@ }),
            },
    {
        self.exec_unify_ty(env, a, b, usize::MAX)
    }

    /// Solve `a = b` for two parameters of any kind.
    pub fn unify_parameters(&mut self, env: &Environment, a: &Parameter, b: &Parameter) -> (r:
        Result<UnificationResult, NoSolution>)
        ensures
            match r {
                Ok(ur) => unify_param_spec(env@, old(self)@, a@, b@, unify_fuel()) == ur_success(
                    final(self)@,
                    ur,
                ),
                Err(_) => unify_param_spec(env@, old(self)@, a@, b@, unify_fuel())
                    == (UnifyOutcomeV::Failure { st: final(self)@ }),
            },
    {
        self.exec_unify_param(env, a, b, usize::MAX)
    }
}

/// The depth budget of the public unification entry points.
pub open spec fn unify_fuel() -> nat {
    usize::MAX as nat
}

} // verus!
