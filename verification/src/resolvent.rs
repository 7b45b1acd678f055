//! SLG resolvents.
//!
//! The resolvent combines a goal with a program clause or with an
//! answer from a completed subgoal table.  `resolvent_clause` unifies
//! the selected goal with a freshly instantiated clause head and turns
//! the clause body into new literals.  `apply_answer_subst` zips the
//! canonical table goal against the pending selected goal and, wherever
//! the answer side presents a free variable, unifies the corresponding
//! answer parameter with the pending side — never re-unifying whole
//! projections, which could spawn fresh subgoals and diverge.
//!
//! The zipper distinguishes recoverable failures (unification refuses,
//! the strand dies) from logic bugs (structural mismatch between answer
//! and pending, a binder leaking out of scope): the latter are ruled
//! out by the preconditions, mirroring the aborts of an engine that
//! trusts its own table keys.

use vstd::prelude::*;

use crate::clone_impls::{clone_constraints, clone_goal, clone_literal, clone_substitution};
use crate::ir::{
    Canonical, CanonicalV, Const, Constraint, ConstraintV, ConstrainedSubst, ConstrainedSubstV,
    DomainGoal, DomainGoalV, Environment, FromEnv, WellFormed,
    EnvironmentV, ExClause, ExClauseV, Goal, GoalV, InEnvironment, InEnvironmentV, LeafGoal,
    LeafGoalV, Lifetime, LifetimeV, Literal, LiteralV, NoSolution, Parameter, ParameterV,
    ProgramClause, ProgramClauseV, Substitution, SubstitutionV, Ty, TyV, clause_view,
    clauses_view, constraints_view, env_domain_goals_view, goals_view, goal_view,
    constraint_view, lemma_clauses_view, lemma_goals_view, lemma_params_view, literal_view,
    literals_view, params_view, param_view, subst_view,
};
use crate::shift::{shift_down_ty, shift_down_lifetime, shift_down_const, up_fits_ty,
    up_fits_lifetime, up_fits_const};
use crate::table::{InferenceTable, TableV, normalize_shallow_ty_spec,
    normalize_shallow_lifetime_spec, normalize_shallow_const_spec, probe_ty, probe_lifetime,
    probe_const};
use crate::unify::{UnificationResult, UnifyOutcomeV, empty_ur, merge_ur, unify_param_spec,
    unify_fuel, ur_success};

verus! {

// ---------------------------------------------------------------------------
// Outcomes.
// ---------------------------------------------------------------------------

/// What one zipping step leaves behind.  `Bug` marks the paths that a
/// sound engine can never reach — structural mismatch between an answer
/// and the pending goal it was canonicalized from, a pending value
/// referencing a binder it leaks, an answer variable outside the answer
/// substitution, or an overflowed binder counter.
#[verifier::ext_equal]
pub enum ZipOutcomeV {
    Success { st: TableV, goals: Seq<InEnvironmentV<DomainGoalV>>, cs: Seq<ConstraintV> },
    Failure { st: TableV },
    Bug,
}

/// Chain a second step after a successful first one.
pub open spec fn zip_then(first: ZipOutcomeV, second: ZipOutcomeV) -> ZipOutcomeV {
    match second {
        ZipOutcomeV::Success { st, goals, cs } => match first {
            ZipOutcomeV::Success { st: _, goals: g1, cs: c1 } => ZipOutcomeV::Success {
                st,
                goals: g1 + goals,
                cs: c1 + cs,
            },
            _ => ZipOutcomeV::Bug,
        },
        other => other,
    }
}

/// The contract every executable zipping step meets: success returns
/// exactly the specified by-products, failure the specified table.
pub open spec fn zip_post(
    outcome: ZipOutcomeV,
    st2: TableV,
    r: Result<UnificationResult, NoSolution>,
) -> bool {
    match r {
        Ok(ur) => outcome == zip_ok(st2, ur),
        Err(_) => outcome == (ZipOutcomeV::Failure { st: st2 }),
    }
}

// ---------------------------------------------------------------------------
// The zipper, as a specification.
//
// `asubst` is the instantiated answer substitution; `ab` and `pb` are
// the running binder counts of the answer and pending sides.
// ---------------------------------------------------------------------------

/// Whether shallow-normalizing the pending side at this depth would
/// overflow a machine shift: a bug-class condition.
pub open spec fn zip_norm_bug_ty(st: TableV, pending: TyV, pb: nat) -> bool {
    match pending {
        TyV::Var(pd) => pd >= pb && (match probe_ty(st, (pd - pb) as nat) {
            Some(v) => !up_fits_ty(v, 0, pb),
            None => false,
        }),
        _ => false,
    }
}

pub open spec fn zip_norm_bug_lifetime(st: TableV, pending: LifetimeV, pb: nat) -> bool {
    match pending {
        LifetimeV::Var(pd) => pd >= pb && (match probe_lifetime(st, (pd - pb) as nat) {
            Some(v) => !up_fits_lifetime(v, 0, pb),
            None => false,
        }),
        _ => false,
    }
}

pub open spec fn zip_norm_bug_const(st: TableV, pending: crate::ir::ConstV, pb: nat) -> bool {
    match pending {
        crate::ir::ConstV::Var(pd) => pd >= pb && (match probe_const(st, (pd - pb) as nat) {
            Some(v) => !up_fits_const(v, 0, pb),
            None => false,
        }),
    }
}

pub open spec fn zip_ty_spec(
    st: TableV,
    asubst: Seq<ParameterV>,
    env: EnvironmentV,
    ab: nat,
    pb: nat,
    answer: TyV,
    pending: TyV,
    fuel: nat,
) -> ZipOutcomeV
    decreases fuel, answer,
{
    if fuel == 0 {
        ZipOutcomeV::Failure { st }
    } else if normalize_shallow_ty_spec(st, pending, pb) is Some {
        let np = normalize_shallow_ty_spec(st, pending, pb)->Some_0;
        if zip_norm_bug_ty(st, pending, pb) {
            ZipOutcomeV::Bug
        } else {
            zip_ty_spec(st, asubst, env, ab, pb, answer, np, (fuel - 1) as nat)
        }
    } else {
        match (answer, pending) {
            (TyV::Var(ad), _) if ad >= ab => zip_free_answer_ty(
                st,
                asubst,
                env,
                ab,
                pb,
                (ad - ab) as nat,
                pending,
                fuel,
            ),
            (TyV::Var(ad), TyV::Var(pd)) => if ad - ab == pd - pb {
                ZipOutcomeV::Success { st, goals: Seq::empty(), cs: Seq::empty() }
            } else {
                ZipOutcomeV::Bug
            },
            (TyV::Apply(a1), TyV::Apply(a2)) => if a1.name == a2.name {
                zip_params_spec(st, asubst, env, ab, pb, a1.parameters, a2.parameters, fuel)
            } else {
                ZipOutcomeV::Bug
            },
            (TyV::Projection(p1), TyV::Projection(p2)) => if p1.associated_ty_id
                == p2.associated_ty_id {
                zip_params_spec(st, asubst, env, ab, pb, p1.parameters, p2.parameters, fuel)
            } else {
                ZipOutcomeV::Bug
            },
            (TyV::UnselectedProjection(p1), TyV::UnselectedProjection(p2)) => if p1.head_name
                == p2.head_name {
                zip_params_spec(st, asubst, env, ab, pb, p1.parameters, p2.parameters, fuel)
            } else {
                ZipOutcomeV::Bug
            },
            (TyV::ForAll(anb, at), TyV::ForAll(pnb, pt)) => if ab + anb <= usize::MAX && pb + pnb
                <= usize::MAX {
                zip_ty_spec(st, asubst, env, ab + anb, pb + pnb, *at, *pt, fuel)
            } else {
                ZipOutcomeV::Bug
            },
            _ => ZipOutcomeV::Bug,
        }
    }
}

/// The answer side met a free variable: look its parameter up in the
/// answer substitution, down-shift the pending side out of its binders,
/// and unify the two.
pub open spec fn zip_free_answer_ty(
    st: TableV,
    asubst: Seq<ParameterV>,
    env: EnvironmentV,
    ab: nat,
    pb: nat,
    index: nat,
    pending: TyV,
    fuel: nat,
) -> ZipOutcomeV {
    if index >= asubst.len() {
        ZipOutcomeV::Bug
    } else if !crate::shift::depth_ok_ty(pending, 0) {
        ZipOutcomeV::Bug
    } else {
        match shift_down_ty(pending, 0, pb) {
            None => ZipOutcomeV::Bug,
            Some(shifted) => match unify_param_spec(
                env,
                st,
                asubst[index as int],
                ParameterV::Ty(shifted),
                fuel,
            ) {
                UnifyOutcomeV::Success { st, goals, cs } => ZipOutcomeV::Success { st, goals, cs },
                UnifyOutcomeV::Failure { st } => ZipOutcomeV::Failure { st },
            },
        }
    }
}

pub open spec fn zip_lifetime_spec(
    st: TableV,
    asubst: Seq<ParameterV>,
    env: EnvironmentV,
    ab: nat,
    pb: nat,
    answer: LifetimeV,
    pending: LifetimeV,
    fuel: nat,
) -> ZipOutcomeV
    decreases fuel,
{
    if fuel == 0 {
        ZipOutcomeV::Failure { st }
    } else if normalize_shallow_lifetime_spec(st, pending, pb) is Some {
        let np = normalize_shallow_lifetime_spec(st, pending, pb)->Some_0;
        if zip_norm_bug_lifetime(st, pending, pb) {
            ZipOutcomeV::Bug
        } else {
            zip_lifetime_spec(st, asubst, env, ab, pb, answer, np, (fuel - 1) as nat)
        }
    } else {
        match (answer, pending) {
            (LifetimeV::Var(ad), _) if ad >= ab => zip_free_answer_lifetime(
                st,
                asubst,
                env,
                ab,
                pb,
                (ad - ab) as nat,
                pending,
                fuel,
            ),
            (LifetimeV::Var(ad), LifetimeV::Var(pd)) => if ad - ab == pd - pb {
                ZipOutcomeV::Success { st, goals: Seq::empty(), cs: Seq::empty() }
            } else {
                ZipOutcomeV::Bug
            },
            (LifetimeV::ForAll(u1), LifetimeV::ForAll(u2)) => if u1 == u2 {
                ZipOutcomeV::Success { st, goals: Seq::empty(), cs: Seq::empty() }
            } else {
                ZipOutcomeV::Bug
            },
            _ => ZipOutcomeV::Bug,
        }
    }
}

/// The answer side met a free lifetime variable: look its parameter up
/// in the answer substitution and unify it with the down-shifted
/// pending side.
pub open spec fn zip_free_answer_lifetime(
    st: TableV,
    asubst: Seq<ParameterV>,
    env: EnvironmentV,
    ab: nat,
    pb: nat,
    index: nat,
    pending: LifetimeV,
    fuel: nat,
) -> ZipOutcomeV {
    if index >= asubst.len() {
        ZipOutcomeV::Bug
    } else {
        match shift_down_lifetime(pending, 0, pb) {
            None => ZipOutcomeV::Bug,
            Some(shifted) => match unify_param_spec(
                env,
                st,
                asubst[index as int],
                ParameterV::Lifetime(shifted),
                fuel,
            ) {
                UnifyOutcomeV::Success { st, goals, cs } => ZipOutcomeV::Success {
                    st,
                    goals,
                    cs,
                },
                UnifyOutcomeV::Failure { st } => ZipOutcomeV::Failure { st },
            },
        }
    }
}

pub open spec fn zip_const_spec(
    st: TableV,
    asubst: Seq<ParameterV>,
    env: EnvironmentV,
    ab: nat,
    pb: nat,
    answer: crate::ir::ConstV,
    pending: crate::ir::ConstV,
    fuel: nat,
) -> ZipOutcomeV
    decreases fuel,
{
    if fuel == 0 {
        ZipOutcomeV::Failure { st }
    } else if normalize_shallow_const_spec(st, pending, pb) is Some {
        let np = normalize_shallow_const_spec(st, pending, pb)->Some_0;
        if zip_norm_bug_const(st, pending, pb) {
            ZipOutcomeV::Bug
        } else {
            zip_const_spec(st, asubst, env, ab, pb, answer, np, (fuel - 1) as nat)
        }
    } else {
        match (answer, pending) {
            (crate::ir::ConstV::Var(ad), crate::ir::ConstV::Var(pd)) => if ad >= ab {
                let index = (ad - ab) as nat;
                if index >= asubst.len() {
                    ZipOutcomeV::Bug
                } else {
                    match shift_down_const(pending, 0, pb) {
                        None => ZipOutcomeV::Bug,
                        Some(shifted) => match unify_param_spec(
                            env,
                            st,
                            asubst[index as int],
                            ParameterV::Const(shifted),
                            fuel,
                        ) {
                            UnifyOutcomeV::Success { st, goals, cs } => ZipOutcomeV::Success {
                                st,
                                goals,
                                cs,
                            },
                            UnifyOutcomeV::Failure { st } => ZipOutcomeV::Failure { st },
                        },
                    }
                }
            } else if ad - ab == pd - pb {
                ZipOutcomeV::Success { st, goals: Seq::empty(), cs: Seq::empty() }
            } else {
                ZipOutcomeV::Bug
            },
        }
    }
}

pub open spec fn zip_param_spec(
    st: TableV,
    asubst: Seq<ParameterV>,
    env: EnvironmentV,
    ab: nat,
    pb: nat,
    answer: ParameterV,
    pending: ParameterV,
    fuel: nat,
) -> ZipOutcomeV
    decreases fuel, answer,
{
    match (answer, pending) {
        (ParameterV::Ty(t1), ParameterV::Ty(t2)) => zip_ty_spec(
            st,
            asubst,
            env,
            ab,
            pb,
            t1,
            t2,
            fuel,
        ),
        (ParameterV::Lifetime(l1), ParameterV::Lifetime(l2)) => zip_lifetime_spec(
            st,
            asubst,
            env,
            ab,
            pb,
            l1,
            l2,
            fuel,
        ),
        (ParameterV::Const(c1), ParameterV::Const(c2)) => zip_const_spec(
            st,
            asubst,
            env,
            ab,
            pb,
            c1,
            c2,
            fuel,
        ),
        _ => ZipOutcomeV::Bug,
    }
}

pub open spec fn zip_params_spec(
    st: TableV,
    asubst: Seq<ParameterV>,
    env: EnvironmentV,
    ab: nat,
    pb: nat,
    answer: Seq<ParameterV>,
    pending: Seq<ParameterV>,
    fuel: nat,
) -> ZipOutcomeV
    decreases fuel, answer,
{
    if answer.len() != pending.len() {
        ZipOutcomeV::Bug
    } else if answer.len() == 0 {
        ZipOutcomeV::Success { st, goals: Seq::empty(), cs: Seq::empty() }
    } else {
        match zip_params_spec(
            st,
            asubst,
            env,
            ab,
            pb,
            answer.drop_last(),
            pending.drop_last(),
            fuel,
        ) {
            ZipOutcomeV::Success { st: st1, goals, cs } => zip_then(
                ZipOutcomeV::Success { st: st1, goals, cs },
                zip_param_spec(st1, asubst, env, ab, pb, answer.last(), pending.last(), fuel),
            ),
            other => other,
        }
    }
}

pub open spec fn zip_domain_goal_spec(
    st: TableV,
    asubst: Seq<ParameterV>,
    env: EnvironmentV,
    ab: nat,
    pb: nat,
    answer: DomainGoalV,
    pending: DomainGoalV,
    fuel: nat,
) -> ZipOutcomeV
    decreases fuel, answer,
{
    match (answer, pending) {
        (DomainGoalV::Implemented(t1), DomainGoalV::Implemented(t2)) => if t1.trait_id
            == t2.trait_id {
            zip_params_spec(st, asubst, env, ab, pb, t1.parameters, t2.parameters, fuel)
        } else {
            ZipOutcomeV::Bug
        },
        (DomainGoalV::Normalize(n1), DomainGoalV::Normalize(n2)) => if n1.projection
            .associated_ty_id == n2.projection.associated_ty_id {
            zip_pair_then_ty_spec(
                st,
                asubst,
                env,
                ab,
                pb,
                n1.projection.parameters,
                n2.projection.parameters,
                n1.ty,
                n2.ty,
                fuel,
            )
        } else {
            ZipOutcomeV::Bug
        },
        (DomainGoalV::ProjectionEq(n1), DomainGoalV::ProjectionEq(n2)) => if n1.projection
            .associated_ty_id == n2.projection.associated_ty_id {
            zip_pair_then_ty_spec(
                st,
                asubst,
                env,
                ab,
                pb,
                n1.projection.parameters,
                n2.projection.parameters,
                n1.ty,
                n2.ty,
                fuel,
            )
        } else {
            ZipOutcomeV::Bug
        },
        (DomainGoalV::UnselectedNormalize(n1), DomainGoalV::UnselectedNormalize(n2)) => if n1
            .projection.head_name == n2.projection.head_name {
            zip_pair_then_ty_spec(
                st,
                asubst,
                env,
                ab,
                pb,
                n1.projection.parameters,
                n2.projection.parameters,
                n1.ty,
                n2.ty,
                fuel,
            )
        } else {
            ZipOutcomeV::Bug
        },
        (DomainGoalV::WellFormed(w1), DomainGoalV::WellFormed(w2)) => match (w1, w2) {
            (crate::ir::WellFormedV::Ty(t1), crate::ir::WellFormedV::Ty(t2)) => zip_ty_spec(
                st,
                asubst,
                env,
                ab,
                pb,
                t1,
                t2,
                fuel,
            ),
            (crate::ir::WellFormedV::TraitRef(t1), crate::ir::WellFormedV::TraitRef(t2)) => if t1
                .trait_id == t2.trait_id {
                zip_params_spec(st, asubst, env, ab, pb, t1.parameters, t2.parameters, fuel)
            } else {
                ZipOutcomeV::Bug
            },
            (
                crate::ir::WellFormedV::ProjectionEq(n1),
                crate::ir::WellFormedV::ProjectionEq(n2),
            ) => if n1.projection.associated_ty_id == n2.projection.associated_ty_id {
                zip_pair_then_ty_spec(
                    st,
                    asubst,
                    env,
                    ab,
                    pb,
                    n1.projection.parameters,
                    n2.projection.parameters,
                    n1.ty,
                    n2.ty,
                    fuel,
                )
            } else {
                ZipOutcomeV::Bug
            },
            _ => ZipOutcomeV::Bug,
        },
        (DomainGoalV::FromEnv(w1), DomainGoalV::FromEnv(w2)) => match (w1, w2) {
            (crate::ir::FromEnvV::Ty(t1), crate::ir::FromEnvV::Ty(t2)) => zip_ty_spec(
                st,
                asubst,
                env,
                ab,
                pb,
                t1,
                t2,
                fuel,
            ),
            (crate::ir::FromEnvV::TraitRef(t1), crate::ir::FromEnvV::TraitRef(t2)) => if t1
                .trait_id == t2.trait_id {
                zip_params_spec(st, asubst, env, ab, pb, t1.parameters, t2.parameters, fuel)
            } else {
                ZipOutcomeV::Bug
            },
            (crate::ir::FromEnvV::ProjectionEq(n1), crate::ir::FromEnvV::ProjectionEq(n2)) => if n1
                .projection.associated_ty_id == n2.projection.associated_ty_id {
                zip_pair_then_ty_spec(
                    st,
                    asubst,
                    env,
                    ab,
                    pb,
                    n1.projection.parameters,
                    n2.projection.parameters,
                    n1.ty,
                    n2.ty,
                    fuel,
                )
            } else {
                ZipOutcomeV::Bug
            },
            _ => ZipOutcomeV::Bug,
        },
        (DomainGoalV::InScope(i1), DomainGoalV::InScope(i2)) => if i1 == i2 {
            ZipOutcomeV::Success { st, goals: Seq::empty(), cs: Seq::empty() }
        } else {
            ZipOutcomeV::Bug
        },
        _ => ZipOutcomeV::Bug,
    }
}

pub open spec fn zip_leaf_goal_spec(
    st: TableV,
    asubst: Seq<ParameterV>,
    env: EnvironmentV,
    ab: nat,
    pb: nat,
    answer: LeafGoalV,
    pending: LeafGoalV,
    fuel: nat,
) -> ZipOutcomeV
    decreases fuel, answer,
{
    match (answer, pending) {
        (LeafGoalV::EqGoal(e1), LeafGoalV::EqGoal(e2)) => match zip_param_spec(
            st,
            asubst,
            env,
            ab,
            pb,
            e1.a,
            e2.a,
            fuel,
        ) {
            ZipOutcomeV::Success { st: st1, goals, cs } => zip_then(
                ZipOutcomeV::Success { st: st1, goals, cs },
                zip_param_spec(st1, asubst, env, ab, pb, e1.b, e2.b, fuel),
            ),
            other => other,
        },
        (LeafGoalV::DomainGoal(d1), LeafGoalV::DomainGoal(d2)) => zip_domain_goal_spec(
            st,
            asubst,
            env,
            ab,
            pb,
            d1,
            d2,
            fuel,
        ),
        _ => ZipOutcomeV::Bug,
    }
}

pub open spec fn zip_goal_spec(
    st: TableV,
    asubst: Seq<ParameterV>,
    env: EnvironmentV,
    ab: nat,
    pb: nat,
    answer: GoalV,
    pending: GoalV,
    fuel: nat,
) -> ZipOutcomeV
    decreases fuel, answer,
{
    match (answer, pending) {
        (
            GoalV::Quantified { qkind: q1, binders: b1, goal: g1 },
            GoalV::Quantified { qkind: q2, binders: b2, goal: g2 },
        ) => if q1 == q2 && ab + b1.len() <= usize::MAX && pb + b2.len() <= usize::MAX {
            zip_goal_spec(st, asubst, env, ab + b1.len(), pb + b2.len(), *g1, *g2, fuel)
        } else {
            ZipOutcomeV::Bug
        },
        (GoalV::Implies(c1, g1), GoalV::Implies(c2, g2)) => match zip_clauses_spec(
            st,
            asubst,
            env,
            ab,
            pb,
            c1,
            c2,
            fuel,
        ) {
            ZipOutcomeV::Success { st: st1, goals, cs } => zip_then(
                ZipOutcomeV::Success { st: st1, goals, cs },
                zip_goal_spec(st1, asubst, env, ab, pb, *g1, *g2, fuel),
            ),
            other => other,
        },
        (GoalV::And(a1, a2), GoalV::And(p1, p2)) => match zip_goal_spec(
            st,
            asubst,
            env,
            ab,
            pb,
            *a1,
            *p1,
            fuel,
        ) {
            ZipOutcomeV::Success { st: st1, goals, cs } => zip_then(
                ZipOutcomeV::Success { st: st1, goals, cs },
                zip_goal_spec(st1, asubst, env, ab, pb, *a2, *p2, fuel),
            ),
            other => other,
        },
        (GoalV::Not(a1), GoalV::Not(p1)) => zip_goal_spec(st, asubst, env, ab, pb, *a1, *p1, fuel),
        (GoalV::Leaf(l1), GoalV::Leaf(l2)) => zip_leaf_goal_spec(
            st,
            asubst,
            env,
            ab,
            pb,
            l1,
            l2,
            fuel,
        ),
        (GoalV::CannotProve, GoalV::CannotProve) => ZipOutcomeV::Success {
            st,
            goals: Seq::empty(),
            cs: Seq::empty(),
        },
        _ => ZipOutcomeV::Bug,
    }
}

pub open spec fn zip_clause_spec(
    st: TableV,
    asubst: Seq<ParameterV>,
    env: EnvironmentV,
    ab: nat,
    pb: nat,
    answer: ProgramClauseV,
    pending: ProgramClauseV,
    fuel: nat,
) -> ZipOutcomeV
    decreases fuel, answer,
{
    if ab + answer.binders.len() <= usize::MAX && pb + pending.binders.len() <= usize::MAX {
        let ab2 = ab + answer.binders.len();
        let pb2 = pb + pending.binders.len();
        match zip_domain_goal_spec(
            st,
            asubst,
            env,
            ab2,
            pb2,
            answer.implication.consequence,
            pending.implication.consequence,
            fuel,
        ) {
            ZipOutcomeV::Success { st: st1, goals, cs } => zip_then(
                ZipOutcomeV::Success { st: st1, goals, cs },
                zip_goals_spec(
                    st1,
                    asubst,
                    env,
                    ab2,
                    pb2,
                    answer.implication.conditions,
                    pending.implication.conditions,
                    fuel,
                ),
            ),
            other => other,
        }
    } else {
        ZipOutcomeV::Bug
    }
}

pub open spec fn zip_goals_spec(
    st: TableV,
    asubst: Seq<ParameterV>,
    env: EnvironmentV,
    ab: nat,
    pb: nat,
    answer: Seq<GoalV>,
    pending: Seq<GoalV>,
    fuel: nat,
) -> ZipOutcomeV
    decreases fuel, answer,
{
    if answer.len() != pending.len() {
        ZipOutcomeV::Bug
    } else if answer.len() == 0 {
        ZipOutcomeV::Success { st, goals: Seq::empty(), cs: Seq::empty() }
    } else {
        match zip_goals_spec(
            st,
            asubst,
            env,
            ab,
            pb,
            answer.drop_last(),
            pending.drop_last(),
            fuel,
        ) {
            ZipOutcomeV::Success { st: st1, goals, cs } => zip_then(
                ZipOutcomeV::Success { st: st1, goals, cs },
                zip_goal_spec(st1, asubst, env, ab, pb, answer.last(), pending.last(), fuel),
            ),
            other => other,
        }
    }
}

pub open spec fn zip_clauses_spec(
    st: TableV,
    asubst: Seq<ParameterV>,
    env: EnvironmentV,
    ab: nat,
    pb: nat,
    answer: Seq<ProgramClauseV>,
    pending: Seq<ProgramClauseV>,
    fuel: nat,
) -> ZipOutcomeV
    decreases fuel, answer,
{
    if answer.len() != pending.len() {
        ZipOutcomeV::Bug
    } else if answer.len() == 0 {
        ZipOutcomeV::Success { st, goals: Seq::empty(), cs: Seq::empty() }
    } else {
        match zip_clauses_spec(
            st,
            asubst,
            env,
            ab,
            pb,
            answer.drop_last(),
            pending.drop_last(),
            fuel,
        ) {
            ZipOutcomeV::Success { st: st1, goals, cs } => zip_then(
                ZipOutcomeV::Success { st: st1, goals, cs },
                zip_clause_spec(st1, asubst, env, ab, pb, answer.last(), pending.last(), fuel),
            ),
            other => other,
        }
    }
}

pub open spec fn zip_environment_spec(
    st: TableV,
    asubst: Seq<ParameterV>,
    env: EnvironmentV,
    ab: nat,
    pb: nat,
    answer: EnvironmentV,
    pending: EnvironmentV,
    fuel: nat,
) -> ZipOutcomeV {
    zip_clauses_spec(st, asubst, env, ab, pb, answer.clauses, pending.clauses, fuel)
}

pub open spec fn zip_in_env_goal_spec(
    st: TableV,
    asubst: Seq<ParameterV>,
    env: EnvironmentV,
    answer: InEnvironmentV<GoalV>,
    pending: InEnvironmentV<GoalV>,
    fuel: nat,
) -> ZipOutcomeV {
    match zip_environment_spec(
        st,
        asubst,
        env,
        0,
        0,
        answer.environment,
        pending.environment,
        fuel,
    ) {
        ZipOutcomeV::Success { st: st1, goals, cs } => zip_then(
            ZipOutcomeV::Success { st: st1, goals, cs },
            zip_goal_spec(st1, asubst, env, 0, 0, answer.goal, pending.goal, fuel),
        ),
        other => other,
    }
}

/// A prefix of a sequence walk that does not succeed decides the whole
/// walk.
pub proof fn lemma_zip_params_prefix(
    st: TableV,
    asubst: Seq<ParameterV>,
    env: EnvironmentV,
    ab: nat,
    pb: nat,
    answer: Seq<ParameterV>,
    pending: Seq<ParameterV>,
    fuel: nat,
    k: int,
)
    requires
        0 <= k <= answer.len(),
        answer.len() == pending.len(),
        !(zip_params_spec(st, asubst, env, ab, pb, answer.take(k), pending.take(k), fuel)
            is Success),
    ensures
        zip_params_spec(st, asubst, env, ab, pb, answer, pending, fuel) == zip_params_spec(
            st,
            asubst,
            env,
            ab,
            pb,
            answer.take(k),
            pending.take(k),
            fuel,
        ),
    decreases answer.len(),
{
    if answer.len() == k {
        assert(answer.take(k) =~= answer);
        assert(pending.take(k) =~= pending);
    } else {
        assert(answer.drop_last().take(k) =~= answer.take(k));
        assert(pending.drop_last().take(k) =~= pending.take(k));
        lemma_zip_params_prefix(
            st,
            asubst,
            env,
            ab,
            pb,
            answer.drop_last(),
            pending.drop_last(),
            fuel,
            k,
        );
    }
}

pub proof fn lemma_zip_goals_prefix(
    st: TableV,
    asubst: Seq<ParameterV>,
    env: EnvironmentV,
    ab: nat,
    pb: nat,
    answer: Seq<GoalV>,
    pending: Seq<GoalV>,
    fuel: nat,
    k: int,
)
    requires
        0 <= k <= answer.len(),
        answer.len() == pending.len(),
        !(zip_goals_spec(st, asubst, env, ab, pb, answer.take(k), pending.take(k), fuel)
            is Success),
    ensures
        zip_goals_spec(st, asubst, env, ab, pb, answer, pending, fuel) == zip_goals_spec(
            st,
            asubst,
            env,
            ab,
            pb,
            answer.take(k),
            pending.take(k),
            fuel,
        ),
    decreases answer.len(),
{
    if answer.len() == k {
        assert(answer.take(k) =~= answer);
        assert(pending.take(k) =~= pending);
    } else {
        assert(answer.drop_last().take(k) =~= answer.take(k));
        assert(pending.drop_last().take(k) =~= pending.take(k));
        lemma_zip_goals_prefix(
            st,
            asubst,
            env,
            ab,
            pb,
            answer.drop_last(),
            pending.drop_last(),
            fuel,
            k,
        );
    }
}

pub proof fn lemma_zip_clauses_prefix(
    st: TableV,
    asubst: Seq<ParameterV>,
    env: EnvironmentV,
    ab: nat,
    pb: nat,
    answer: Seq<ProgramClauseV>,
    pending: Seq<ProgramClauseV>,
    fuel: nat,
    k: int,
)
    requires
        0 <= k <= answer.len(),
        answer.len() == pending.len(),
        !(zip_clauses_spec(st, asubst, env, ab, pb, answer.take(k), pending.take(k), fuel)
            is Success),
    ensures
        zip_clauses_spec(st, asubst, env, ab, pb, answer, pending, fuel) == zip_clauses_spec(
            st,
            asubst,
            env,
            ab,
            pb,
            answer.take(k),
            pending.take(k),
            fuel,
        ),
    decreases answer.len(),
{
    if answer.len() == k {
        assert(answer.take(k) =~= answer);
        assert(pending.take(k) =~= pending);
    } else {
        assert(answer.drop_last().take(k) =~= answer.take(k));
        assert(pending.drop_last().take(k) =~= pending.take(k));
        lemma_zip_clauses_prefix(
            st,
            asubst,
            env,
            ab,
            pb,
            answer.drop_last(),
            pending.drop_last(),
            fuel,
            k,
        );
    }
}

// ---------------------------------------------------------------------------
// The zipper, executable.
//
// Every function requires that its specification does not end in `Bug`:
// the bug-class paths are statically unreachable, so the zipper as a
// whole cannot panic.
// ---------------------------------------------------------------------------

impl InferenceTable {
    fn exec_zip_ty(
        &mut self,
        asubst: &Vec<Parameter>,
        env: &Environment,
        ab: usize,
        pb: usize,
        answer: &Ty,
        pending: &Ty,
        fuel: usize,
    ) -> (r: Result<UnificationResult, NoSolution>)
        requires
            !(zip_ty_spec(
                old(self)@,
                params_view(asubst@),
                env@,
                ab as nat,
                pb as nat,
                answer@,
                pending@,
                fuel as nat,
            ) is Bug),
        ensures
            match r {
                Ok(ur) => zip_ty_spec(
                    old(self)@,
                    params_view(asubst@),
                    env@,
                    ab as nat,
                    pb as nat,
                    answer@,
                    pending@,
                    fuel as nat,
                ) == zip_ok(final(self)@, ur),
                Err(_) => zip_ty_spec(
                    old(self)@,
                    params_view(asubst@),
                    env@,
                    ab as nat,
                    pb as nat,
                    answer@,
                    pending@,
                    fuel as nat,
                ) == (ZipOutcomeV::Failure { st: final(self)@ }),
            },
        decreases fuel, *answer,
    {
        if fuel == 0 {
            return Err(NoSolution);
        }
        proof {
            if pb != 0 {
                assert(match pending@ {
                    TyV::Var(d) => d >= pb ==> (match probe_ty(self@, (d - pb) as nat) {
                        Some(v) => up_fits_ty(v, 0, pb as nat),
                        None => true,
                    }),
                    _ => true,
                });
            }
        }
        if let Some(np) = self.normalize_shallow(pending, pb) {
            return self.exec_zip_ty(asubst, env, ab, pb, answer, &np, fuel - 1);
        }
        match (answer, pending) {
            (Ty::Var(ad), _) if *ad >= ab => self.exec_zip_free_answer_ty(
                asubst,
                env,
                ab,
                pb,
                *ad - ab,
                pending,
                fuel,
            ),
            (Ty::Var(ad), Ty::Var(pd)) => {
                proof {
                    assert(ad - ab == pd - pb);
                }
                Ok(empty_ur())
            },
            (Ty::Apply(a1), Ty::Apply(a2)) => self.exec_zip_params(
                asubst,
                env,
                ab,
                pb,
                &a1.parameters,
                &a2.parameters,
                fuel,
            ),
            (Ty::Projection(p1), Ty::Projection(p2)) => self.exec_zip_params(
                asubst,
                env,
                ab,
                pb,
                &p1.parameters,
                &p2.parameters,
                fuel,
            ),
            (Ty::UnselectedProjection(p1), Ty::UnselectedProjection(p2)) => self.exec_zip_params(
                asubst,
                env,
                ab,
                pb,
                &p1.parameters,
                &p2.parameters,
                fuel,
            ),
            (
                Ty::ForAll { num_binders: anb, ty: at },
                Ty::ForAll { num_binders: pnb, ty: pt },
            ) => self.exec_zip_ty(asubst, env, ab + *anb, pb + *pnb, &**at, &**pt, fuel),
            _ => {
                proof {
                    assert(false);
                }
                Err(NoSolution)
            },
        }
    }

    fn exec_zip_free_answer_ty(
        &mut self,
        asubst: &Vec<Parameter>,
        env: &Environment,
        ab: usize,
        pb: usize,
        index: usize,
        pending: &Ty,
        fuel: usize,
    ) -> (r: Result<UnificationResult, NoSolution>)
        requires
            !(zip_free_answer_ty(
                old(self)@,
                params_view(asubst@),
                env@,
                ab as nat,
                pb as nat,
                index as nat,
                pending@,
                fuel as nat,
            ) is Bug),
        ensures
            match r {
                Ok(ur) => zip_free_answer_ty(
                    old(self)@,
                    params_view(asubst@),
                    env@,
                    ab as nat,
                    pb as nat,
                    index as nat,
                    pending@,
                    fuel as nat,
                ) == zip_ok(final(self)@, ur),
                Err(_) => zip_free_answer_ty(
                    old(self)@,
                    params_view(asubst@),
                    env@,
                    ab as nat,
                    pb as nat,
                    index as nat,
                    pending@,
                    fuel as nat,
                ) == (ZipOutcomeV::Failure { st: final(self)@ }),
            },
    {
        proof {
            lemma_params_view(asubst@);
        }
        if index >= asubst.len() {
            proof {
                assert(false);
            }
            return Err(NoSolution);
        }
        match crate::shift::down_shift_ty_at(pending, 0, pb) {
            Ok(shifted) => {
                let shifted_param = Parameter::Ty(shifted);
                match self.exec_unify_param(env, &asubst[index], &shifted_param, fuel) {
                    Ok(ur) => Ok(ur),
                    Err(e) => Err(e),
                }
            },
            Err(_) => {
                proof {
                    assert(false);
                }
                Err(NoSolution)
            },
        }
    }

    #[verifier::rlimit(100)]
    #[verifier::spinoff_prover]
    fn exec_zip_lifetime(
        &mut self,
        asubst: &Vec<Parameter>,
        env: &Environment,
        ab: usize,
        pb: usize,
        answer: &Lifetime,
        pending: &Lifetime,
        fuel: usize,
    ) -> (r: Result<UnificationResult, NoSolution>)
        requires
            !(zip_lifetime_spec(
                old(self)@,
                params_view(asubst@),
                env@,
                ab as nat,
                pb as nat,
                answer@,
                pending@,
                fuel as nat,
            ) is Bug),
        ensures
            zip_post(
                zip_lifetime_spec(
                    old(self)@,
                    params_view(asubst@),
                    env@,
                    ab as nat,
                    pb as nat,
                    answer@,
                    pending@,
                    fuel as nat,
                ),
                final(self)@,
                r,
            ),
        decreases fuel,
    {
        proof {
            lemma_params_view(asubst@);
        }
        if fuel == 0 {
            return Err(NoSolution);
        }
        if let Some(np) = self.normalize_lifetime(pending, pb) {
            let ghost st0 = self@;
            proof {
                assert(normalize_shallow_lifetime_spec(st0, pending@, pb as nat) == Some(np@));
                assert(!zip_norm_bug_lifetime(st0, pending@, pb as nat));
            }
            return match self.exec_zip_lifetime(asubst, env, ab, pb, answer, &np, fuel - 1) {
                Ok(ur) => {
                    proof {
                        assert(zip_lifetime_spec(st0, params_view(asubst@), env@, ab as nat,
                            pb as nat, answer@, np@, (fuel - 1) as nat) == zip_ok(self@, ur));
                        assert(zip_lifetime_spec(st0, params_view(asubst@), env@, ab as nat,
                            pb as nat, answer@, pending@, fuel as nat) == zip_ok(self@, ur));
                    }
                    Ok(ur)
                },
                Err(e) => Err(e),
            };
        }
        match answer {
            Lifetime::Var(ad) => {
                if *ad >= ab {
                    let index = *ad - ab;
                    if index >= asubst.len() {
                        proof {
                            assert(false);
                        }
                        return Err(NoSolution);
                    }
                    match crate::shift::down_shift_lifetime_at(pending, 0, pb) {
                        Ok(shifted) => {
                            let shifted_param = Parameter::Lifetime(shifted);
                            let ghost st_call = self@;
                            match self.exec_unify_param(env, &asubst[index], &shifted_param, fuel) {
                                Ok(ur) => {
                                    proof {
                                        assert(param_view(asubst@[index as int]) == params_view(
                                            asubst@,
                                        )[index as int]);
                                    }
                                    Ok(ur)
                                },
                                Err(e) => Err(e),
                            }
                        },
                        Err(_) => {
                            proof {
                                assert(false);
                            }
                            Err(NoSolution)
                        },
                    }
                } else {
                    match pending {
                        Lifetime::Var(pd) => {
                            proof {
                                assert(ad - ab == pd - pb);
                            }
                            Ok(empty_ur())
                        },
                        _ => {
                            proof {
                                assert(false);
                            }
                            Err(NoSolution)
                        },
                    }
                }
            },
            Lifetime::ForAll(u1) => {
                match pending {
                    Lifetime::ForAll(u2) => {
                        proof {
                            assert(u1.counter == u2.counter);
                        }
                        Ok(empty_ur())
                    },
                    _ => {
                        proof {
                            assert(false);
                        }
                        Err(NoSolution)
                    },
                }
            },
        }
    }

    fn exec_zip_const(
        &mut self,
        asubst: &Vec<Parameter>,
        env: &Environment,
        ab: usize,
        pb: usize,
        answer: &Const,
        pending: &Const,
        fuel: usize,
    ) -> (r: Result<UnificationResult, NoSolution>)
        requires
            !(zip_const_spec(
                old(self)@,
                params_view(asubst@),
                env@,
                ab as nat,
                pb as nat,
                answer@,
                pending@,
                fuel as nat,
            ) is Bug),
        ensures
            match r {
                Ok(ur) => zip_const_spec(
                    old(self)@,
                    params_view(asubst@),
                    env@,
                    ab as nat,
                    pb as nat,
                    answer@,
                    pending@,
                    fuel as nat,
                ) == zip_ok(final(self)@, ur),
                Err(_) => zip_const_spec(
                    old(self)@,
                    params_view(asubst@),
                    env@,
                    ab as nat,
                    pb as nat,
                    answer@,
                    pending@,
                    fuel as nat,
                ) == (ZipOutcomeV::Failure { st: final(self)@ }),
            },
        decreases fuel,
    {
        proof {
            lemma_params_view(asubst@);
        }
        if fuel == 0 {
            return Err(NoSolution);
        }
        if let Some(np) = self.normalize_const(pending, pb) {
            return self.exec_zip_const(asubst, env, ab, pb, answer, &np, fuel - 1);
        }
        match (answer, pending) {
            (Const::Var(ad), Const::Var(pd)) => {
                if *ad >= ab {
                    let index = *ad - ab;
                    if index >= asubst.len() {
                        proof {
                            assert(false);
                        }
                        return Err(NoSolution);
                    }
                    match crate::shift::down_shift_const_at(pending, 0, pb) {
                        Ok(shifted) => {
                            let shifted_param = Parameter::Const(shifted);
                            self.exec_unify_param(env, &asubst[index], &shifted_param, fuel)
                        },
                        Err(_) => {
                            proof {
                                assert(false);
                            }
                            Err(NoSolution)
                        },
                    }
                } else {
                    proof {
                        assert(ad - ab == pd - pb);
                    }
                    Ok(empty_ur())
                }
            },
        }
    }

    fn exec_zip_param(
        &mut self,
        asubst: &Vec<Parameter>,
        env: &Environment,
        ab: usize,
        pb: usize,
        answer: &Parameter,
        pending: &Parameter,
        fuel: usize,
    ) -> (r: Result<UnificationResult, NoSolution>)
        requires
            !(zip_param_spec(
                old(self)@,
                params_view(asubst@),
                env@,
                ab as nat,
                pb as nat,
                answer@,
                pending@,
                fuel as nat,
            ) is Bug),
        ensures
            match r {
                Ok(ur) => zip_param_spec(
                    old(self)@,
                    params_view(asubst@),
                    env@,
                    ab as nat,
                    pb as nat,
                    answer@,
                    pending@,
                    fuel as nat,
                ) == zip_ok(final(self)@, ur),
                Err(_) => zip_param_spec(
                    old(self)@,
                    params_view(asubst@),
                    env@,
                    ab as nat,
                    pb as nat,
                    answer@,
                    pending@,
                    fuel as nat,
                ) == (ZipOutcomeV::Failure { st: final(self)@ }),
            },
        decreases fuel, *answer,
    {
        match (answer, pending) {
            (Parameter::Ty(t1), Parameter::Ty(t2)) => self.exec_zip_ty(
                asubst,
                env,
                ab,
                pb,
                t1,
                t2,
                fuel,
            ),
            (Parameter::Lifetime(l1), Parameter::Lifetime(l2)) => self.exec_zip_lifetime(
                asubst,
                env,
                ab,
                pb,
                l1,
                l2,
                fuel,
            ),
            (Parameter::Const(c1), Parameter::Const(c2)) => self.exec_zip_const(
                asubst,
                env,
                ab,
                pb,
                c1,
                c2,
                fuel,
            ),
            _ => {
                proof {
                    assert(false);
                }
                Err(NoSolution)
            },
        }
    }

    fn exec_zip_params(
        &mut self,
        asubst: &Vec<Parameter>,
        env: &Environment,
        ab: usize,
        pb: usize,
        answer: &Vec<Parameter>,
        pending: &Vec<Parameter>,
        fuel: usize,
    ) -> (r: Result<UnificationResult, NoSolution>)
        requires
            !(zip_params_spec(
                old(self)@,
                params_view(asubst@),
                env@,
                ab as nat,
                pb as nat,
                params_view(answer@),
                params_view(pending@),
                fuel as nat,
            ) is Bug),
        ensures
            match r {
                Ok(ur) => zip_params_spec(
                    old(self)@,
                    params_view(asubst@),
                    env@,
                    ab as nat,
                    pb as nat,
                    params_view(answer@),
                    params_view(pending@),
                    fuel as nat,
                ) == zip_ok(final(self)@, ur),
                Err(_) => zip_params_spec(
                    old(self)@,
                    params_view(asubst@),
                    env@,
                    ab as nat,
                    pb as nat,
                    params_view(answer@),
                    params_view(pending@),
                    fuel as nat,
                ) == (ZipOutcomeV::Failure { st: final(self)@ }),
            },
        decreases fuel, *answer,
    {
        proof {
            lemma_params_view(answer@);
            lemma_params_view(pending@);
        }
        let ghost st0 = self@;
        let ghost av = params_view(answer@);
        let ghost pv = params_view(pending@);
        let ghost asv = params_view(asubst@);
        if answer.len() != pending.len() {
            proof {
                assert(false);
            }
            return Err(NoSolution);
        }
        let mut acc = empty_ur();
        let mut i: usize = 0;
        while i < answer.len()
            invariant
                i <= answer@.len(),
                answer@.len() == pending@.len(),
                st0 == old(self)@,
                av == params_view(answer@),
                pv == params_view(pending@),
                asv == params_view(asubst@),
                av.len() == answer@.len(),
                pv.len() == pending@.len(),
                forall|j: int| 0 <= j < answer@.len() ==> av[j] == param_view(answer@[j]),
                forall|j: int| 0 <= j < pending@.len() ==> pv[j] == param_view(pending@[j]),
                !(zip_params_spec(st0, asv, env@, ab as nat, pb as nat, av, pv, fuel as nat)
                    is Bug),
                zip_params_spec(
                    st0,
                    asv,
                    env@,
                    ab as nat,
                    pb as nat,
                    av.take(i as int),
                    pv.take(i as int),
                    fuel as nat,
                ) == zip_ok(self@, acc),
            decreases answer@.len() - i,
        {
            proof {
                assert(av.take(i + 1).drop_last() =~= av.take(i as int));
                assert(pv.take(i + 1).drop_last() =~= pv.take(i as int));
                assert(av.take(i + 1).last() == av[i as int]);
                assert(pv.take(i + 1).last() == pv[i as int]);
            }
            let ghost st_i = self@;
            proof {
                if zip_param_spec(st_i, asv, env@, ab as nat, pb as nat, av[i as int],
                    pv[i as int], fuel as nat) is Bug {
                    assert(zip_params_spec(st0, asv, env@, ab as nat, pb as nat, av.take(i + 1),
                        pv.take(i + 1), fuel as nat) is Bug);
                    lemma_zip_params_prefix(st0, asv, env@, ab as nat, pb as nat, av, pv,
                        fuel as nat, i + 1);
                    assert(false);
                }
            }
            match self.exec_zip_param(asubst, env, ab, pb, &answer[i], &pending[i], fuel) {
                Ok(step) => {
                    acc = merge_ur(acc, step);
                    proof {
                        assert(zip_params_spec(st0, asv, env@, ab as nat, pb as nat,
                            av.take(i + 1), pv.take(i + 1), fuel as nat) == zip_ok(self@, acc));
                    }
                },
                Err(e) => {
                    proof {
                        assert(zip_params_spec(st0, asv, env@, ab as nat, pb as nat,
                            av.take(i + 1), pv.take(i + 1), fuel as nat)
                            == (ZipOutcomeV::Failure { st: self@ }));
                        lemma_zip_params_prefix(st0, asv, env@, ab as nat, pb as nat, av, pv,
                            fuel as nat, i + 1);
                    }
                    return Err(e);
                },
            }
            i += 1;
        }
        proof {
            assert(av.take(answer@.len() as int) =~= av);
            assert(pv.take(pending@.len() as int) =~= pv);
        }
        Ok(acc)
    }
}

/// The view of a unification result as a successful zip outcome.
pub open spec fn zip_ok(st: TableV, ur: UnificationResult) -> ZipOutcomeV {
    ZipOutcomeV::Success {
        st,
        goals: env_domain_goals_view(ur.goals@),
        cs: constraints_view(ur.constraints@),
    }
}

impl InferenceTable {
    fn exec_zip_domain_goal(
        &mut self,
        asubst: &Vec<Parameter>,
        env: &Environment,
        ab: usize,
        pb: usize,
        answer: &DomainGoal,
        pending: &DomainGoal,
        fuel: usize,
    ) -> (r: Result<UnificationResult, NoSolution>)
        requires
            !(zip_domain_goal_spec(
                old(self)@,
                params_view(asubst@),
                env@,
                ab as nat,
                pb as nat,
                answer@,
                pending@,
                fuel as nat,
            ) is Bug),
        ensures
            zip_post(
                zip_domain_goal_spec(
                    old(self)@,
                    params_view(asubst@),
                    env@,
                    ab as nat,
                    pb as nat,
                    answer@,
                    pending@,
                    fuel as nat,
                ),
                final(self)@,
                r,
            ),
        decreases fuel, *answer,
    {
        match answer {
            DomainGoal::Implemented(t1) => match pending {
                DomainGoal::Implemented(t2) => self.exec_zip_params(
                    asubst,
                    env,
                    ab,
                    pb,
                    &t1.parameters,
                    &t2.parameters,
                    fuel,
                ),
                _ => {
                    proof {
                        assert(false);
                    }
                    Err(NoSolution)
                },
            },
            DomainGoal::Normalize(n1) => match pending {
                DomainGoal::Normalize(n2) => self.exec_zip_projection_pair(
                    asubst,
                    env,
                    ab,
                    pb,
                    &n1.projection.parameters,
                    &n1.ty,
                    &n2.projection.parameters,
                    &n2.ty,
                    fuel,
                ),
                _ => {
                    proof {
                        assert(false);
                    }
                    Err(NoSolution)
                },
            },
            DomainGoal::ProjectionEq(n1) => match pending {
                DomainGoal::ProjectionEq(n2) => self.exec_zip_projection_pair(
                    asubst,
                    env,
                    ab,
                    pb,
                    &n1.projection.parameters,
                    &n1.ty,
                    &n2.projection.parameters,
                    &n2.ty,
                    fuel,
                ),
                _ => {
                    proof {
                        assert(false);
                    }
                    Err(NoSolution)
                },
            },
            DomainGoal::UnselectedNormalize(n1) => match pending {
                DomainGoal::UnselectedNormalize(n2) => self.exec_zip_projection_pair(
                    asubst,
                    env,
                    ab,
                    pb,
                    &n1.projection.parameters,
                    &n1.ty,
                    &n2.projection.parameters,
                    &n2.ty,
                    fuel,
                ),
                _ => {
                    proof {
                        assert(false);
                    }
                    Err(NoSolution)
                },
            },
            DomainGoal::WellFormed(w1) => match pending {
                DomainGoal::WellFormed(w2) => match w1 {
                    WellFormed::Ty(t1) => match w2 {
                        WellFormed::Ty(t2) => self.exec_zip_ty(asubst, env, ab, pb, t1, t2, fuel),
                        _ => {
                            proof {
                                assert(false);
                            }
                            Err(NoSolution)
                        },
                    },
                    WellFormed::TraitRef(t1) => match w2 {
                        WellFormed::TraitRef(t2) => self.exec_zip_params(
                            asubst,
                            env,
                            ab,
                            pb,
                            &t1.parameters,
                            &t2.parameters,
                            fuel,
                        ),
                        _ => {
                            proof {
                                assert(false);
                            }
                            Err(NoSolution)
                        },
                    },
                    WellFormed::ProjectionEq(n1) => match w2 {
                        WellFormed::ProjectionEq(n2) => self.exec_zip_projection_pair(
                            asubst,
                            env,
                            ab,
                            pb,
                            &n1.projection.parameters,
                            &n1.ty,
                            &n2.projection.parameters,
                            &n2.ty,
                            fuel,
                        ),
                        _ => {
                            proof {
                                assert(false);
                            }
                            Err(NoSolution)
                        },
                    },
                },
                _ => {
                    proof {
                        assert(false);
                    }
                    Err(NoSolution)
                },
            },
            DomainGoal::FromEnv(w1) => match pending {
                DomainGoal::FromEnv(w2) => match w1 {
                    FromEnv::Ty(t1) => match w2 {
                        FromEnv::Ty(t2) => self.exec_zip_ty(asubst, env, ab, pb, t1, t2, fuel),
                        _ => {
                            proof {
                                assert(false);
                            }
                            Err(NoSolution)
                        },
                    },
                    FromEnv::TraitRef(t1) => match w2 {
                        FromEnv::TraitRef(t2) => self.exec_zip_params(
                            asubst,
                            env,
                            ab,
                            pb,
                            &t1.parameters,
                            &t2.parameters,
                            fuel,
                        ),
                        _ => {
                            proof {
                                assert(false);
                            }
                            Err(NoSolution)
                        },
                    },
                    FromEnv::ProjectionEq(n1) => match w2 {
                        FromEnv::ProjectionEq(n2) => self.exec_zip_projection_pair(
                            asubst,
                            env,
                            ab,
                            pb,
                            &n1.projection.parameters,
                            &n1.ty,
                            &n2.projection.parameters,
                            &n2.ty,
                            fuel,
                        ),
                        _ => {
                            proof {
                                assert(false);
                            }
                            Err(NoSolution)
                        },
                    },
                },
                _ => {
                    proof {
                        assert(false);
                    }
                    Err(NoSolution)
                },
            },
            DomainGoal::InScope(_) => match pending {
                DomainGoal::InScope(_) => Ok(empty_ur()),
                _ => {
                    proof {
                        assert(false);
                    }
                    Err(NoSolution)
                },
            },
        }
    }
}

/// The shared shape of the projection-carrying goals: zip the
/// projection parameters, then the equated type.
pub open spec fn zip_pair_then_ty_spec(
    st: TableV,
    asubst: Seq<ParameterV>,
    env: EnvironmentV,
    ab: nat,
    pb: nat,
    ps1: Seq<ParameterV>,
    ps2: Seq<ParameterV>,
    ty1: TyV,
    ty2: TyV,
    fuel: nat,
) -> ZipOutcomeV {
    match zip_params_spec(st, asubst, env, ab, pb, ps1, ps2, fuel) {
        ZipOutcomeV::Success { st: st1, goals, cs } => zip_then(
            ZipOutcomeV::Success { st: st1, goals, cs },
            zip_ty_spec(st1, asubst, env, ab, pb, ty1, ty2, fuel),
        ),
        other => other,
    }
}

impl InferenceTable {
    fn exec_zip_projection_pair(
        &mut self,
        asubst: &Vec<Parameter>,
        env: &Environment,
        ab: usize,
        pb: usize,
        ps1: &Vec<Parameter>,
        ty1: &Ty,
        ps2: &Vec<Parameter>,
        ty2: &Ty,
        fuel: usize,
    ) -> (r: Result<UnificationResult, NoSolution>)
        requires
            !(zip_pair_then_ty_spec(
                old(self)@,
                params_view(asubst@),
                env@,
                ab as nat,
                pb as nat,
                params_view(ps1@),
                params_view(ps2@),
                ty1@,
                ty2@,
                fuel as nat,
            ) is Bug),
        ensures
            zip_post(
                zip_pair_then_ty_spec(
                    old(self)@,
                    params_view(asubst@),
                    env@,
                    ab as nat,
                    pb as nat,
                    params_view(ps1@),
                    params_view(ps2@),
                    ty1@,
                    ty2@,
                    fuel as nat,
                ),
                final(self)@,
                r,
            ),
    {
        let ghost st0 = self@;
        let ur1 = match self.exec_zip_params(asubst, env, ab, pb, ps1, ps2, fuel) {
            Ok(ur) => ur,
            Err(e) => {
                return Err(e);
            },
        };
        let ghost st1 = self@;
        proof {
            if zip_ty_spec(st1, params_view(asubst@), env@, ab as nat, pb as nat, ty1@, ty2@,
                fuel as nat) is Bug {
                assert(false);
            }
        }
        match self.exec_zip_ty(asubst, env, ab, pb, ty1, ty2, fuel) {
            Ok(ur2) => Ok(merge_ur(ur1, ur2)),
            Err(e) => Err(e),
        }
    }

    fn exec_zip_leaf_goal(
        &mut self,
        asubst: &Vec<Parameter>,
        env: &Environment,
        ab: usize,
        pb: usize,
        answer: &LeafGoal,
        pending: &LeafGoal,
        fuel: usize,
    ) -> (r: Result<UnificationResult, NoSolution>)
        requires
            !(zip_leaf_goal_spec(
                old(self)@,
                params_view(asubst@),
                env@,
                ab as nat,
                pb as nat,
                crate::ir::leaf_goal_view(*answer),
                crate::ir::leaf_goal_view(*pending),
                fuel as nat,
            ) is Bug),
        ensures
            zip_post(
                zip_leaf_goal_spec(
                    old(self)@,
                    params_view(asubst@),
                    env@,
                    ab as nat,
                    pb as nat,
                    crate::ir::leaf_goal_view(*answer),
                    crate::ir::leaf_goal_view(*pending),
                    fuel as nat,
                ),
                final(self)@,
                r,
            ),
        decreases fuel, *answer,
    {
        match answer {
            LeafGoal::EqGoal(e1) => {
                match pending {
                    LeafGoal::EqGoal(e2) => {
                        let ur1 = match self.exec_zip_param(asubst, env, ab, pb, &e1.a, &e2.a,
                            fuel) {
                            Ok(ur) => ur,
                            Err(e) => {
                                return Err(e);
                            },
                        };
                        let ghost st1 = self@;
                        proof {
                            if zip_param_spec(st1, params_view(asubst@), env@, ab as nat,
                                pb as nat, param_view(e1.b), param_view(e2.b), fuel as nat)
                                is Bug {
                                assert(false);
                            }
                        }
                        match self.exec_zip_param(asubst, env, ab, pb, &e1.b, &e2.b, fuel) {
                            Ok(ur2) => Ok(merge_ur(ur1, ur2)),
                            Err(e) => Err(e),
                        }
                    },
                    _ => {
                        proof {
                            assert(false);
                        }
                        Err(NoSolution)
                    },
                }
            },
            LeafGoal::DomainGoal(d1) => {
                match pending {
                    LeafGoal::DomainGoal(d2) => self.exec_zip_domain_goal(
                        asubst,
                        env,
                        ab,
                        pb,
                        d1,
                        d2,
                        fuel,
                    ),
                    _ => {
                        proof {
                            assert(false);
                        }
                        Err(NoSolution)
                    },
                }
            },
        }
    }

    fn exec_zip_goal(
        &mut self,
        asubst: &Vec<Parameter>,
        env: &Environment,
        ab: usize,
        pb: usize,
        answer: &Goal,
        pending: &Goal,
        fuel: usize,
    ) -> (r: Result<UnificationResult, NoSolution>)
        requires
            !(zip_goal_spec(
                old(self)@,
                params_view(asubst@),
                env@,
                ab as nat,
                pb as nat,
                answer@,
                pending@,
                fuel as nat,
            ) is Bug),
        ensures
            zip_post(
                zip_goal_spec(
                    old(self)@,
                    params_view(asubst@),
                    env@,
                    ab as nat,
                    pb as nat,
                    answer@,
                    pending@,
                    fuel as nat,
                ),
                final(self)@,
                r,
            ),
        decreases fuel, *answer,
    {
        match answer {
            Goal::Quantified { qkind: _, binders: b1, goal: g1 } => {
                match pending {
                    Goal::Quantified { qkind: _, binders: b2, goal: g2 } => self.exec_zip_goal(
                        asubst,
                        env,
                        ab + b1.len(),
                        pb + b2.len(),
                        &**g1,
                        &**g2,
                        fuel,
                    ),
                    _ => {
                        proof {
                            assert(false);
                        }
                        Err(NoSolution)
                    },
                }
            },
            Goal::Implies(c1, g1) => {
                match pending {
                    Goal::Implies(c2, g2) => {
                        let ur1 = match self.exec_zip_clauses(asubst, env, ab, pb, c1, c2, fuel) {
                            Ok(ur) => ur,
                            Err(e) => {
                                return Err(e);
                            },
                        };
                        let ghost st1 = self@;
                        proof {
                            if zip_goal_spec(st1, params_view(asubst@), env@, ab as nat,
                                pb as nat, goal_view(*(*g1)), goal_view(*(*g2)), fuel as nat)
                                is Bug {
                                assert(false);
                            }
                        }
                        match self.exec_zip_goal(asubst, env, ab, pb, &**g1, &**g2, fuel) {
                            Ok(ur2) => Ok(merge_ur(ur1, ur2)),
                            Err(e) => Err(e),
                        }
                    },
                    _ => {
                        proof {
                            assert(false);
                        }
                        Err(NoSolution)
                    },
                }
            },
            Goal::And(a1, a2) => {
                match pending {
                    Goal::And(p1, p2) => {
                        let ur1 = match self.exec_zip_goal(asubst, env, ab, pb, &**a1, &**p1,
                            fuel) {
                            Ok(ur) => ur,
                            Err(e) => {
                                return Err(e);
                            },
                        };
                        let ghost st1 = self@;
                        proof {
                            if zip_goal_spec(st1, params_view(asubst@), env@, ab as nat,
                                pb as nat, goal_view(*(*a2)), goal_view(*(*p2)), fuel as nat)
                                is Bug {
                                assert(false);
                            }
                        }
                        match self.exec_zip_goal(asubst, env, ab, pb, &**a2, &**p2, fuel) {
                            Ok(ur2) => Ok(merge_ur(ur1, ur2)),
                            Err(e) => Err(e),
                        }
                    },
                    _ => {
                        proof {
                            assert(false);
                        }
                        Err(NoSolution)
                    },
                }
            },
            Goal::Not(a1) => {
                match pending {
                    Goal::Not(p1) => self.exec_zip_goal(asubst, env, ab, pb, &**a1, &**p1, fuel),
                    _ => {
                        proof {
                            assert(false);
                        }
                        Err(NoSolution)
                    },
                }
            },
            Goal::Leaf(l1) => {
                match pending {
                    Goal::Leaf(l2) => self.exec_zip_leaf_goal(asubst, env, ab, pb, l1, l2, fuel),
                    _ => {
                        proof {
                            assert(false);
                        }
                        Err(NoSolution)
                    },
                }
            },
            Goal::CannotProve => {
                match pending {
                    Goal::CannotProve => Ok(empty_ur()),
                    _ => {
                        proof {
                            assert(false);
                        }
                        Err(NoSolution)
                    },
                }
            },
        }
    }

    fn exec_zip_clause(
        &mut self,
        asubst: &Vec<Parameter>,
        env: &Environment,
        ab: usize,
        pb: usize,
        answer: &ProgramClause,
        pending: &ProgramClause,
        fuel: usize,
    ) -> (r: Result<UnificationResult, NoSolution>)
        requires
            !(zip_clause_spec(
                old(self)@,
                params_view(asubst@),
                env@,
                ab as nat,
                pb as nat,
                answer@,
                pending@,
                fuel as nat,
            ) is Bug),
        ensures
            zip_post(
                zip_clause_spec(
                    old(self)@,
                    params_view(asubst@),
                    env@,
                    ab as nat,
                    pb as nat,
                    answer@,
                    pending@,
                    fuel as nat,
                ),
                final(self)@,
                r,
            ),
        decreases fuel, *answer,
    {
        let ab2 = ab + answer.binders.len();
        let pb2 = pb + pending.binders.len();
        let ur1 = match self.exec_zip_domain_goal(
            asubst,
            env,
            ab2,
            pb2,
            &answer.implication.consequence,
            &pending.implication.consequence,
            fuel,
        ) {
            Ok(ur) => ur,
            Err(e) => {
                return Err(e);
            },
        };
        let ghost st1 = self@;
        proof {
            if zip_goals_spec(st1, params_view(asubst@), env@, ab2 as nat, pb2 as nat,
                goals_view(answer.implication.conditions@),
                goals_view(pending.implication.conditions@), fuel as nat) is Bug {
                assert(false);
            }
        }
        match self.exec_zip_goals(
            asubst,
            env,
            ab2,
            pb2,
            &answer.implication.conditions,
            &pending.implication.conditions,
            fuel,
        ) {
            Ok(ur2) => Ok(merge_ur(ur1, ur2)),
            Err(e) => Err(e),
        }
    }

    fn exec_zip_goals(
        &mut self,
        asubst: &Vec<Parameter>,
        env: &Environment,
        ab: usize,
        pb: usize,
        answer: &Vec<Goal>,
        pending: &Vec<Goal>,
        fuel: usize,
    ) -> (r: Result<UnificationResult, NoSolution>)
        requires
            !(zip_goals_spec(
                old(self)@,
                params_view(asubst@),
                env@,
                ab as nat,
                pb as nat,
                goals_view(answer@),
                goals_view(pending@),
                fuel as nat,
            ) is Bug),
        ensures
            zip_post(
                zip_goals_spec(
                    old(self)@,
                    params_view(asubst@),
                    env@,
                    ab as nat,
                    pb as nat,
                    goals_view(answer@),
                    goals_view(pending@),
                    fuel as nat,
                ),
                final(self)@,
                r,
            ),
        decreases fuel, *answer,
    {
        proof {
            lemma_goals_view(answer@);
            lemma_goals_view(pending@);
        }
        let ghost st0 = self@;
        let ghost av = goals_view(answer@);
        let ghost pv = goals_view(pending@);
        let ghost asv = params_view(asubst@);
        if answer.len() != pending.len() {
            proof {
                assert(false);
            }
            return Err(NoSolution);
        }
        let mut acc = empty_ur();
        let mut i: usize = 0;
        while i < answer.len()
            invariant
                i <= answer@.len(),
                answer@.len() == pending@.len(),
                st0 == old(self)@,
                av == goals_view(answer@),
                pv == goals_view(pending@),
                asv == params_view(asubst@),
                av.len() == answer@.len(),
                pv.len() == pending@.len(),
                forall|j: int| 0 <= j < answer@.len() ==> av[j] == goal_view(answer@[j]),
                forall|j: int| 0 <= j < pending@.len() ==> pv[j] == goal_view(pending@[j]),
                !(zip_goals_spec(st0, asv, env@, ab as nat, pb as nat, av, pv, fuel as nat)
                    is Bug),
                zip_goals_spec(
                    st0,
                    asv,
                    env@,
                    ab as nat,
                    pb as nat,
                    av.take(i as int),
                    pv.take(i as int),
                    fuel as nat,
                ) == zip_ok(self@, acc),
            decreases answer@.len() - i,
        {
            proof {
                assert(av.take(i + 1).drop_last() =~= av.take(i as int));
                assert(pv.take(i + 1).drop_last() =~= pv.take(i as int));
                assert(av.take(i + 1).last() == av[i as int]);
                assert(pv.take(i + 1).last() == pv[i as int]);
            }
            let ghost st_i = self@;
            proof {
                if zip_goal_spec(st_i, asv, env@, ab as nat, pb as nat, av[i as int],
                    pv[i as int], fuel as nat) is Bug {
                    assert(zip_goals_spec(st0, asv, env@, ab as nat, pb as nat, av.take(i + 1),
                        pv.take(i + 1), fuel as nat) is Bug);
                    lemma_zip_goals_prefix(st0, asv, env@, ab as nat, pb as nat, av, pv,
                        fuel as nat, i + 1);
                    assert(false);
                }
            }
            match self.exec_zip_goal(asubst, env, ab, pb, &answer[i], &pending[i], fuel) {
                Ok(step) => {
                    acc = merge_ur(acc, step);
                    proof {
                        assert(zip_goals_spec(st0, asv, env@, ab as nat, pb as nat,
                            av.take(i + 1), pv.take(i + 1), fuel as nat) == zip_ok(self@, acc));
                    }
                },
                Err(e) => {
                    proof {
                        assert(zip_goals_spec(st0, asv, env@, ab as nat, pb as nat,
                            av.take(i + 1), pv.take(i + 1), fuel as nat)
                            == (ZipOutcomeV::Failure { st: self@ }));
                        lemma_zip_goals_prefix(st0, asv, env@, ab as nat, pb as nat, av, pv,
                            fuel as nat, i + 1);
                    }
                    return Err(e);
                },
            }
            i += 1;
        }
        proof {
            assert(av.take(answer@.len() as int) =~= av);
            assert(pv.take(pending@.len() as int) =~= pv);
        }
        Ok(acc)
    }

    fn exec_zip_clauses(
        &mut self,
        asubst: &Vec<Parameter>,
        env: &Environment,
        ab: usize,
        pb: usize,
        answer: &Vec<ProgramClause>,
        pending: &Vec<ProgramClause>,
        fuel: usize,
    ) -> (r: Result<UnificationResult, NoSolution>)
        requires
            !(zip_clauses_spec(
                old(self)@,
                params_view(asubst@),
                env@,
                ab as nat,
                pb as nat,
                clauses_view(answer@),
                clauses_view(pending@),
                fuel as nat,
            ) is Bug),
        ensures
            zip_post(
                zip_clauses_spec(
                    old(self)@,
                    params_view(asubst@),
                    env@,
                    ab as nat,
                    pb as nat,
                    clauses_view(answer@),
                    clauses_view(pending@),
                    fuel as nat,
                ),
                final(self)@,
                r,
            ),
        decreases fuel, *answer,
    {
        proof {
            lemma_clauses_view(answer@);
            lemma_clauses_view(pending@);
        }
        let ghost st0 = self@;
        let ghost av = clauses_view(answer@);
        let ghost pv = clauses_view(pending@);
        let ghost asv = params_view(asubst@);
        if answer.len() != pending.len() {
            proof {
                assert(false);
            }
            return Err(NoSolution);
        }
        let mut acc = empty_ur();
        let mut i: usize = 0;
        while i < answer.len()
            invariant
                i <= answer@.len(),
                answer@.len() == pending@.len(),
                st0 == old(self)@,
                av == clauses_view(answer@),
                pv == clauses_view(pending@),
                asv == params_view(asubst@),
                av.len() == answer@.len(),
                pv.len() == pending@.len(),
                forall|j: int| 0 <= j < answer@.len() ==> av[j] == clause_view(answer@[j]),
                forall|j: int| 0 <= j < pending@.len() ==> pv[j] == clause_view(pending@[j]),
                !(zip_clauses_spec(st0, asv, env@, ab as nat, pb as nat, av, pv, fuel as nat)
                    is Bug),
                zip_clauses_spec(
                    st0,
                    asv,
                    env@,
                    ab as nat,
                    pb as nat,
                    av.take(i as int),
                    pv.take(i as int),
                    fuel as nat,
                ) == zip_ok(self@, acc),
            decreases answer@.len() - i,
        {
            proof {
                assert(av.take(i + 1).drop_last() =~= av.take(i as int));
                assert(pv.take(i + 1).drop_last() =~= pv.take(i as int));
                assert(av.take(i + 1).last() == av[i as int]);
                assert(pv.take(i + 1).last() == pv[i as int]);
            }
            let ghost st_i = self@;
            proof {
                if zip_clause_spec(st_i, asv, env@, ab as nat, pb as nat, av[i as int],
                    pv[i as int], fuel as nat) is Bug {
                    assert(zip_clauses_spec(st0, asv, env@, ab as nat, pb as nat, av.take(i + 1),
                        pv.take(i + 1), fuel as nat) is Bug);
                    lemma_zip_clauses_prefix(st0, asv, env@, ab as nat, pb as nat, av, pv,
                        fuel as nat, i + 1);
                    assert(false);
                }
            }
            match self.exec_zip_clause(asubst, env, ab, pb, &answer[i], &pending[i], fuel) {
                Ok(step) => {
                    acc = merge_ur(acc, step);
                    proof {
                        assert(zip_clauses_spec(st0, asv, env@, ab as nat, pb as nat,
                            av.take(i + 1), pv.take(i + 1), fuel as nat) == zip_ok(self@, acc));
                    }
                },
                Err(e) => {
                    proof {
                        assert(zip_clauses_spec(st0, asv, env@, ab as nat, pb as nat,
                            av.take(i + 1), pv.take(i + 1), fuel as nat)
                            == (ZipOutcomeV::Failure { st: self@ }));
                        lemma_zip_clauses_prefix(st0, asv, env@, ab as nat, pb as nat, av, pv,
                            fuel as nat, i + 1);
                    }
                    return Err(e);
                },
            }
            i += 1;
        }
        proof {
            assert(av.take(answer@.len() as int) =~= av);
            assert(pv.take(pending@.len() as int) =~= pv);
        }
        Ok(acc)
    }

    fn exec_zip_in_env_goal(
        &mut self,
        asubst: &Vec<Parameter>,
        env: &Environment,
        answer: &InEnvironment<Goal>,
        pending: &InEnvironment<Goal>,
        fuel: usize,
    ) -> (r: Result<UnificationResult, NoSolution>)
        requires
            !(zip_in_env_goal_spec(
                old(self)@,
                params_view(asubst@),
                env@,
                answer@,
                pending@,
                fuel as nat,
            ) is Bug),
        ensures
            zip_post(
                zip_in_env_goal_spec(
                    old(self)@,
                    params_view(asubst@),
                    env@,
                    answer@,
                    pending@,
                    fuel as nat,
                ),
                final(self)@,
                r,
            ),
    {
        let ur1 = match self.exec_zip_clauses(
            asubst,
            env,
            0,
            0,
            &answer.environment.clauses,
            &pending.environment.clauses,
            fuel,
        ) {
            Ok(ur) => ur,
            Err(e) => {
                return Err(e);
            },
        };
        let ghost st1 = self@;
        proof {
            if zip_goal_spec(st1, params_view(asubst@), env@, 0, 0, goal_view(answer.goal),
                goal_view(pending.goal), fuel as nat) is Bug {
                assert(false);
            }
        }
        match self.exec_zip_goal(asubst, env, 0, 0, &answer.goal, &pending.goal, fuel) {
            Ok(ur2) => Ok(merge_ur(ur1, ur2)),
            Err(e) => Err(e),
        }
    }
}

// ---------------------------------------------------------------------------
// Building X-clauses.
// ---------------------------------------------------------------------------

/// Deferred unification subgoals become positive literals.
pub open spec fn literals_of_env_goals(gs: Seq<InEnvironmentV<DomainGoalV>>) -> Seq<LiteralV> {
    gs.map_values(
        |g: InEnvironmentV<DomainGoalV>|
            LiteralV::Positive(
                InEnvironmentV {
                    environment: g.environment,
                    goal: GoalV::Leaf(LeafGoalV::DomainGoal(g.goal)),
                },
            ),
    )
}

/// A clause body becomes literals: a negated condition becomes a
/// negative literal on its inner goal, everything else a positive one.
pub open spec fn conditions_to_literals(env: EnvironmentV, conds: Seq<GoalV>) -> Seq<LiteralV> {
    conds.map_values(
        |c: GoalV|
            match c {
                GoalV::Not(inner) => LiteralV::Negative(
                    InEnvironmentV { environment: env, goal: *inner },
                ),
                _ => LiteralV::Positive(InEnvironmentV { environment: env, goal: c }),
            },
    )
}

/// What a resolvent operation leaves behind: the table and the new
/// X-clause, or a failed table, or a bug-class path that the
/// preconditions rule out.
#[verifier::ext_equal]
pub enum ResolventOutcomeV {
    Success { st: TableV, ex: ExClauseV },
    Failure { st: TableV },
    Bug,
}

/// The SLG resolvent of a selected goal with a program clause: the
/// clause is instantiated existentially in the table's current greatest
/// universe, its head is unified with the goal, and the new X-clause
/// carries the caller's substitution, the unification's by-products,
/// and the clause body as literals.
pub open spec fn resolvent_clause_spec(
    st: TableV,
    env: EnvironmentV,
    goal: DomainGoalV,
    subst: SubstitutionV,
    clause: ProgramClauseV,
) -> ResolventOutcomeV {
    let fp = crate::instantiate::fresh_params(
        st,
        crate::instantiate::kinds_at(clause.binders, st.max_universe),
    );
    let imp = crate::subst::subst_implication(fp.1, clause.implication, 0);
    match crate::unify::unify_domain_goal_spec(env, fp.0, goal, imp.consequence, unify_fuel()) {
        UnifyOutcomeV::Failure { st } => ResolventOutcomeV::Failure { st },
        UnifyOutcomeV::Success { st, goals, cs } => ResolventOutcomeV::Success {
            st,
            ex: ExClauseV {
                subst,
                delayed_literals: Seq::empty(),
                constraints: cs,
                subgoals: literals_of_env_goals(goals) + conditions_to_literals(
                    env,
                    imp.conditions,
                ),
            },
        },
    }
}

/// Incorporating a canonical answer into the pending X-clause: the
/// answer substitution is instantiated, the table goal is zipped
/// against the selected goal, and the answer's constraints join the
/// X-clause.  The zipper adds exactly the subgoals its leaf
/// unifications produced.
pub open spec fn apply_answer_subst_spec(
    st: TableV,
    ex: ExClauseV,
    selected: InEnvironmentV<GoalV>,
    table_goal: CanonicalV<InEnvironmentV<GoalV>>,
    ans: CanonicalV<ConstrainedSubstV>,
) -> ResolventOutcomeV {
    let fp = crate::instantiate::fresh_params(st, ans.binders);
    let asub = crate::subst::subst_params(fp.1, ans.value.subst.parameters, 0);
    let acs = crate::subst::subst_constraints(fp.1, ans.value.constraints, 0);
    match zip_in_env_goal_spec(
        fp.0,
        asub,
        selected.environment,
        table_goal.value,
        selected,
        unify_fuel(),
    ) {
        ZipOutcomeV::Success { st, goals, cs } => ResolventOutcomeV::Success {
            st,
            ex: ExClauseV {
                subst: ex.subst,
                delayed_literals: ex.delayed_literals,
                constraints: ex.constraints + cs + acs,
                subgoals: ex.subgoals + literals_of_env_goals(goals),
            },
        },
        ZipOutcomeV::Failure { st } => ResolventOutcomeV::Failure { st },
        ZipOutcomeV::Bug => ResolventOutcomeV::Bug,
    }
}

/// Fold a unification's by-products into an X-clause: its deferred
/// goals become positive literals, its constraints are appended.  The
/// substitution and the delayed literals are untouched.
fn push_positive_literals(ex: &mut ExClause, goals: &Vec<InEnvironment<DomainGoal>>)
    ensures
        final(ex)@.subst == old(ex)@.subst,
        final(ex)@.delayed_literals == old(ex)@.delayed_literals,
        final(ex)@.constraints == old(ex)@.constraints,
        final(ex)@.subgoals == old(ex)@.subgoals + literals_of_env_goals(
            env_domain_goals_view(goals@),
        ),
{
    let ghost base = ex@;
    let ghost base_n = ex.subgoals@.len();
    let ghost gv = env_domain_goals_view(goals@);
    let mut i: usize = 0;
    while i < goals.len()
        invariant
            i <= goals@.len(),
            gv == env_domain_goals_view(goals@),
            gv.len() == goals@.len(),
            ex@.subst == base.subst,
            ex@.delayed_literals == base.delayed_literals,
            ex@.constraints == base.constraints,
            ex.subgoals@.len() == base_n + i,
            base.subgoals.len() == base_n,
            forall|k: int| 0 <= k < base_n ==> literal_view(#[trigger] ex.subgoals@[k])
                == base.subgoals[k],
            forall|k: int|
                0 <= k < i ==> literal_view(#[trigger] ex.subgoals@[base_n + k])
                    == literals_of_env_goals(gv)[k],
        decreases goals@.len() - i,
    {
        let g = &goals[i];
        let lit = Literal::Positive(
            InEnvironment {
                environment: crate::clone_impls::clone_environment(&g.environment),
                goal: Goal::Leaf(LeafGoal::DomainGoal(crate::clone_impls::clone_domain_goal(
                    &g.goal,
                ))),
            },
        );
        ex.subgoals.push(lit);
        proof {
            assert(gv[i as int] == crate::ir::in_env_domain_goal_view(goals@[i as int]));
            assert(literals_of_env_goals(gv)[i as int] == (LiteralV::Positive(
                InEnvironmentV {
                    environment: gv[i as int].environment,
                    goal: GoalV::Leaf(LeafGoalV::DomainGoal(gv[i as int].goal)),
                },
            )));
        }
        i += 1;
    }
    proof {
        assert forall|idx: int|
            0 <= idx < literals_view(ex.subgoals@).len() implies #[trigger] literals_view(
            ex.subgoals@,
        )[idx] == (base.subgoals + literals_of_env_goals(gv))[idx] by {
            assert(literals_view(ex.subgoals@)[idx] == literal_view(ex.subgoals@[idx]));
            if idx >= base_n {
                let k = idx - base_n;
                assert(literal_view(ex.subgoals@[base_n + k]) == literals_of_env_goals(gv)[k]);
            }
        }
        assert(literals_view(ex.subgoals@) =~= base.subgoals + literals_of_env_goals(gv));
    }
}

fn append_constraints(ex: &mut ExClause, cs: &Vec<Constraint>)
    ensures
        final(ex)@.subst == old(ex)@.subst,
        final(ex)@.delayed_literals == old(ex)@.delayed_literals,
        final(ex)@.subgoals == old(ex)@.subgoals,
        final(ex)@.constraints == old(ex)@.constraints + constraints_view(cs@),
{
    let ghost base = ex@;
    let ghost base_c = ex.constraints@.len();
    let mut j: usize = 0;
    while j < cs.len()
        invariant
            j <= cs@.len(),
            ex@.subst == base.subst,
            ex@.delayed_literals == base.delayed_literals,
            ex@.subgoals == base.subgoals,
            ex.constraints@.len() == base_c + j,
            base.constraints.len() == base_c,
            forall|k: int| 0 <= k < base_c ==> constraint_view(#[trigger] ex.constraints@[k])
                == base.constraints[k],
            forall|k: int|
                0 <= k < j ==> constraint_view(#[trigger] ex.constraints@[base_c + k])
                    == constraints_view(cs@)[k],
        decreases cs@.len() - j,
    {
        ex.constraints.push(cs[j]);
        proof {
            assert(constraints_view(cs@)[j as int] == constraint_view(cs@[j as int]));
        }
        j += 1;
    }
    proof {
        assert forall|idx: int|
            0 <= idx < constraints_view(ex.constraints@).len() implies #[trigger] constraints_view(
            ex.constraints@,
        )[idx] == (base.constraints + constraints_view(cs@))[idx] by {
            assert(constraints_view(ex.constraints@)[idx] == constraint_view(
                ex.constraints@[idx],
            ));
            if idx >= base_c {
                let k = idx - base_c;
                assert(constraint_view(ex.constraints@[base_c + k]) == constraints_view(cs@)[k]);
            }
        }
        assert(constraints_view(ex.constraints@) =~= base.constraints + constraints_view(cs@));
    }
}

fn push_condition_literals(ex: &mut ExClause, environment: &Environment, conds: &Vec<Goal>)
    ensures
        final(ex)@.subst == old(ex)@.subst,
        final(ex)@.delayed_literals == old(ex)@.delayed_literals,
        final(ex)@.constraints == old(ex)@.constraints,
        final(ex)@.subgoals == old(ex)@.subgoals + conditions_to_literals(
            environment@,
            goals_view(conds@),
        ),
{
    let ghost base = ex@;
    let ghost base_n = ex.subgoals@.len();
    let ghost cv = goals_view(conds@);
    proof {
        lemma_goals_view(conds@);
    }
    let mut i: usize = 0;
    while i < conds.len()
        invariant
            i <= conds@.len(),
            cv == goals_view(conds@),
            cv.len() == conds@.len(),
            forall|j: int| 0 <= j < conds@.len() ==> cv[j] == goal_view(conds@[j]),
            ex@.subst == base.subst,
            ex@.delayed_literals == base.delayed_literals,
            ex@.constraints == base.constraints,
            ex.subgoals@.len() == base_n + i,
            base.subgoals.len() == base_n,
            forall|k: int| 0 <= k < base_n ==> literal_view(#[trigger] ex.subgoals@[k])
                == base.subgoals[k],
            forall|k: int|
                0 <= k < i ==> literal_view(#[trigger] ex.subgoals@[base_n + k])
                    == conditions_to_literals(environment@, cv)[k],
        decreases conds@.len() - i,
    {
        let c = &conds[i];
        let lit = match c {
            Goal::Not(inner) => Literal::Negative(
                InEnvironment {
                    environment: crate::clone_impls::clone_environment(environment),
                    goal: clone_goal(&**inner),
                },
            ),
            _ => Literal::Positive(
                InEnvironment {
                    environment: crate::clone_impls::clone_environment(environment),
                    goal: clone_goal(c),
                },
            ),
        };
        ex.subgoals.push(lit);
        proof {
            assert(conditions_to_literals(environment@, cv)[i as int] == (match cv[i as int] {
                GoalV::Not(inner) => LiteralV::Negative(
                    InEnvironmentV { environment: environment@, goal: *inner },
                ),
                _ => LiteralV::Positive(
                    InEnvironmentV { environment: environment@, goal: cv[i as int] },
                ),
            }));
        }
        i += 1;
    }
    proof {
        assert forall|idx: int|
            0 <= idx < literals_view(ex.subgoals@).len() implies #[trigger] literals_view(
            ex.subgoals@,
        )[idx] == (base.subgoals + conditions_to_literals(environment@, cv))[idx] by {
            assert(literals_view(ex.subgoals@)[idx] == literal_view(ex.subgoals@[idx]));
            if idx >= base_n {
                let k = idx - base_n;
                assert(literal_view(ex.subgoals@[base_n + k]) == conditions_to_literals(
                    environment@,
                    cv,
                )[k]);
            }
        }
        assert(literals_view(ex.subgoals@) =~= base.subgoals + conditions_to_literals(
            environment@,
            cv,
        ));
    }
}

/// Fold a unification's by-products into an X-clause: its deferred
/// goals become positive literals, its constraints are appended.  The
/// substitution and the delayed literals are untouched.
pub fn into_ex_clause(ur: UnificationResult, ex: &mut ExClause)
    ensures
        final(ex)@.subst == old(ex)@.subst,
        final(ex)@.delayed_literals == old(ex)@.delayed_literals,
        final(ex)@.constraints == old(ex)@.constraints + constraints_view(ur.constraints@),
        final(ex)@.subgoals == old(ex)@.subgoals + literals_of_env_goals(
            env_domain_goals_view(ur.goals@),
        ),
{
    push_positive_literals(ex, &ur.goals);
    append_constraints(ex, &ur.constraints);
}

impl InferenceTable {
    /// Apply the SLG resolvent algorithm to incorporate a program
    /// clause into the main X-clause: unify the selected goal with the
    /// clause head, then append the clause body as new literals.
    #[verifier::rlimit(100)]
    #[verifier::spinoff_prover]
    pub fn resolvent_clause(
        &mut self,
        environment: &Environment,
        goal: &DomainGoal,
        subst: &Substitution,
        clause: &ProgramClause,
    ) -> (r: Result<ExClause, NoSolution>)
        requires
            crate::subst::inst_ok_implication(
                crate::instantiate::fresh_params(
                    old(self)@,
                    crate::instantiate::kinds_at(clause.binders@, old(self)@.max_universe),
                ).1,
                crate::subst::implication_view(clause.implication),
                0,
            ),
        ensures
            match r {
                Ok(ex) => resolvent_clause_spec(old(self)@, environment@, goal@, subst@, clause@)
                    == (ResolventOutcomeV::Success { st: final(self)@, ex: ex@ }),
                Err(_) => resolvent_clause_spec(old(self)@, environment@, goal@, subst@, clause@)
                    == (ResolventOutcomeV::Failure { st: final(self)@ }),
            },
    {
        let ghost st0 = self@;
        let imp = self.instantiate_binders_existentially(clause);
        let ur = match self.unify(environment, goal, &imp.consequence) {
            Ok(ur) => ur,
            Err(e) => {
                return Err(e);
            },
        };
        let mut ex = ExClause {
            subst: clone_substitution(subst),
            delayed_literals: Vec::new(),
            constraints: Vec::new(),
            subgoals: Vec::new(),
        };
        proof {
            assert(ex@.delayed_literals =~= Seq::<crate::ir::DelayedLiteralV>::empty());
            assert(ex@.constraints =~= Seq::<ConstraintV>::empty());
            assert(ex@.subgoals =~= Seq::<LiteralV>::empty());
        }
        into_ex_clause(ur, &mut ex);
        push_condition_literals(&mut ex, environment, &imp.conditions);
        proof {
            assert(ex@.subgoals =~= literals_of_env_goals(env_domain_goals_view(ur.goals@))
                + conditions_to_literals(environment@, goals_view(imp.conditions@)));
            assert(ex@.constraints =~= constraints_view(ur.constraints@));
            assert(ex@.delayed_literals =~= Seq::<crate::ir::DelayedLiteralV>::empty());
            assert(resolvent_clause_spec(st0, environment@, goal@, subst@, clause@)
                =~= (ResolventOutcomeV::Success { st: self@, ex: ex@ }));
        }
        Ok(ex)
    }

    /// Plug the answer of a completed subgoal table into the pending
    /// X-clause.  The table goal is zipped against the selected goal:
    /// answer-side free variables are unified with the pending side
    /// through the instantiated answer substitution, so projections are
    /// never re-unified and no clause selection ever runs.  The number
    /// of subgoals added equals what those leaf unifications produced.
    #[verifier::rlimit(100)]
    #[verifier::spinoff_prover]
    pub fn apply_answer_subst(
        &mut self,
        ex_clause: ExClause,
        selected_goal: &InEnvironment<Goal>,
        answer_table_goal: &Canonical<InEnvironment<Goal>>,
        canonical_answer_subst: &Canonical<ConstrainedSubst>,
    ) -> (r: Result<ExClause, NoSolution>)
        requires
            crate::subst::inst_ok_params(
                crate::instantiate::fresh_params(
                    old(self)@,
                    crate::ir::cvks_view(canonical_answer_subst.binders@),
                ).1,
                subst_view(canonical_answer_subst.value.subst).parameters,
                0,
            ),
            crate::subst::inst_ok_constraints(
                crate::instantiate::fresh_params(
                    old(self)@,
                    crate::ir::cvks_view(canonical_answer_subst.binders@),
                ).1,
                constraints_view(canonical_answer_subst.value.constraints@),
                0,
            ),
            !(apply_answer_subst_spec(
                old(self)@,
                ex_clause@,
                selected_goal@,
                answer_table_goal@,
                canonical_answer_subst@,
            ) is Bug),
        ensures
            match r {
                Ok(ex) => apply_answer_subst_spec(
                    old(self)@,
                    ex_clause@,
                    selected_goal@,
                    answer_table_goal@,
                    canonical_answer_subst@,
                ) == (ResolventOutcomeV::Success { st: final(self)@, ex: ex@ }),
                Err(_) => apply_answer_subst_spec(
                    old(self)@,
                    ex_clause@,
                    selected_goal@,
                    answer_table_goal@,
                    canonical_answer_subst@,
                ) == (ResolventOutcomeV::Failure { st: final(self)@ }),
            },
    {
        let ghost st0 = self@;
        let answer = self.instantiate_canonical_constrained_subst(canonical_answer_subst);
        let ghost st1 = self@;
        proof {
            if zip_in_env_goal_spec(st1, params_view(answer.subst.parameters@),
                env_view_of(selected_goal), answer_table_goal.value@, selected_goal@,
                unify_fuel()) is Bug {
                assert(false);
            }
        }
        let ur = match self.exec_zip_in_env_goal(
            &answer.subst.parameters,
            &selected_goal.environment,
            &answer_table_goal.value,
            selected_goal,
            usize::MAX,
        ) {
            Ok(ur) => ur,
            Err(e) => {
                return Err(e);
            },
        };
        let mut ex = ex_clause;
        into_ex_clause(ur, &mut ex);
        append_constraints(&mut ex, &answer.constraints);
        proof {
            assert(ex@.constraints =~= ex_clause@.constraints + constraints_view(ur.constraints@)
                + constraints_view(answer.constraints@));
            assert(apply_answer_subst_spec(st0, ex_clause@, selected_goal@, answer_table_goal@,
                canonical_answer_subst@) =~= (ResolventOutcomeV::Success {
                st: self@,
                ex: ex@,
            }));
        }
        Ok(ex)
    }
}

/// The environment of a selected goal, as the zipping specification
/// names it.
pub open spec fn env_view_of(g: &InEnvironment<Goal>) -> EnvironmentV {
    crate::ir::env_view(g.environment)
}

} // verus!
