//! U-canonicalization: compressing the universes of a canonical value.
//!
//! Two passes, as §4.3-style engines do it.  The first collects every
//! universe that appears free in the payload into a [`UniverseMap`] —
//! a sorted vector seeded with the root universe.  The second rewrites
//! every skolem `ForAll(u)` to the position of `u` in that vector, and
//! renumbers the binder universes the same way; a binder universe that
//! was never collected falls to the largest collected universe below
//! it, which is sound because everything visible from there is visible
//! from the original universe too.  The map also lifts values back out
//! of the canonical space, `ForAll(c)` becoming the original universe
//! at position `c`, or a fresh universe past everything collected when
//! `c` is out of range.

use vstd::prelude::*;

use crate::clone_impls::clone_param_kinds;
use crate::ir::{
    ApplicationTy, Canonical, CanonicalVarKind, CanonicalVarKindV, Const, ConstrainedSubst,
    Constraint, ConstraintV, DomainGoal, DomainGoalV, Environment, EnvironmentV, EqGoal, FromEnv,
    FromEnvV, Goal, GoalV, InEnvironment, InEnvironmentV, LeafGoal, LeafGoalV, Lifetime,
    LifetimeV, Normalize, NormalizeV, Parameter, ParameterV, ProgramClause,
    ProgramClauseImplication, ProgramClauseImplicationV, ProgramClauseV, ProjectionEq,
    ProjectionEqV, ProjectionTy, ProjectionTyV, Substitution, TraitRef, TraitRefV, Ty, TyV,
    TypeName, TypeNameV, UCanonical, UniverseIndex, UnselectedNormalize, UnselectedNormalizeV,
    UnselectedProjectionTy, UnselectedProjectionTyV, WellFormed, WellFormedV, ApplicationTyV,
    clause_view, clauses_view, constraint_view, constraints_view, cvk_view, goal_view, goals_view,
    lemma_clauses_view, lemma_goals_view, lemma_params_view, param_view, params_view, subst_view,
};
use crate::table::InferenceTable;
use crate::universes::{UniverseMap, umap_contains, umap_from_canonical, umap_to_canonical, umap_wf};

verus! {

// ---------------------------------------------------------------------------
// Which universes appear free in a value.
// ---------------------------------------------------------------------------

pub open spec fn mentions_lifetime(l: LifetimeV, u: nat) -> bool {
    match l {
        LifetimeV::Var(_) => false,
        LifetimeV::ForAll(u2) => u2 == u,
    }
}

pub open spec fn mentions_ty(t: TyV, u: nat) -> bool
    decreases t,
{
    match t {
        TyV::Var(_) => false,
        TyV::Apply(a) => (a.name matches TypeNameV::ForAll(u2) && u2 == u) || mentions_params(
            a.parameters,
            u,
        ),
        TyV::Projection(p) => mentions_params(p.parameters, u),
        TyV::UnselectedProjection(p) => mentions_params(p.parameters, u),
        TyV::ForAll(_, inner) => mentions_ty(*inner, u),
    }
}

pub open spec fn mentions_param(p: ParameterV, u: nat) -> bool
    decreases p,
{
    match p {
        ParameterV::Ty(t) => mentions_ty(t, u),
        ParameterV::Lifetime(l) => mentions_lifetime(l, u),
        ParameterV::Const(_) => false,
    }
}

pub open spec fn mentions_params(ps: Seq<ParameterV>, u: nat) -> bool
    decreases ps,
{
    if ps.len() == 0 {
        false
    } else {
        mentions_params(ps.drop_last(), u) || mentions_param(ps.last(), u)
    }
}

pub open spec fn mentions_domain_goal(g: DomainGoalV, u: nat) -> bool
    decreases g,
{
    match g {
        DomainGoalV::Implemented(t) => mentions_params(t.parameters, u),
        DomainGoalV::Normalize(n) => mentions_params(n.projection.parameters, u) || mentions_ty(
            n.ty,
            u,
        ),
        DomainGoalV::ProjectionEq(n) => mentions_params(n.projection.parameters, u) || mentions_ty(
            n.ty,
            u,
        ),
        DomainGoalV::UnselectedNormalize(n) => mentions_params(n.projection.parameters, u)
            || mentions_ty(n.ty, u),
        DomainGoalV::WellFormed(w) => match w {
            WellFormedV::Ty(t) => mentions_ty(t, u),
            WellFormedV::TraitRef(t) => mentions_params(t.parameters, u),
            WellFormedV::ProjectionEq(n) => mentions_params(n.projection.parameters, u)
                || mentions_ty(n.ty, u),
        },
        DomainGoalV::FromEnv(w) => match w {
            FromEnvV::Ty(t) => mentions_ty(t, u),
            FromEnvV::TraitRef(t) => mentions_params(t.parameters, u),
            FromEnvV::ProjectionEq(n) => mentions_params(n.projection.parameters, u)
                || mentions_ty(n.ty, u),
        },
        DomainGoalV::InScope(_) => false,
    }
}

pub open spec fn mentions_goal(g: GoalV, u: nat) -> bool
    decreases g,
{
    match g {
        GoalV::Quantified { qkind: _, binders: _, goal } => mentions_goal(*goal, u),
        GoalV::Implies(clauses, goal) => mentions_clauses(clauses, u) || mentions_goal(*goal, u),
        GoalV::And(g1, g2) => mentions_goal(*g1, u) || mentions_goal(*g2, u),
        GoalV::Not(g1) => mentions_goal(*g1, u),
        GoalV::Leaf(l) => match l {
            LeafGoalV::EqGoal(e) => mentions_param(e.a, u) || mentions_param(e.b, u),
            LeafGoalV::DomainGoal(d) => mentions_domain_goal(d, u),
        },
        GoalV::CannotProve => false,
    }
}

pub open spec fn mentions_goals(gs: Seq<GoalV>, u: nat) -> bool
    decreases gs,
{
    if gs.len() == 0 {
        false
    } else {
        mentions_goals(gs.drop_last(), u) || mentions_goal(gs.last(), u)
    }
}

pub open spec fn mentions_clause(c: ProgramClauseV, u: nat) -> bool
    decreases c,
{
    mentions_domain_goal(c.implication.consequence, u) || mentions_goals(
        c.implication.conditions,
        u,
    )
}

pub open spec fn mentions_clauses(cs: Seq<ProgramClauseV>, u: nat) -> bool
    decreases cs,
{
    if cs.len() == 0 {
        false
    } else {
        mentions_clauses(cs.drop_last(), u) || mentions_clause(cs.last(), u)
    }
}

pub open spec fn mentions_in_env_goal(g: InEnvironmentV<GoalV>, u: nat) -> bool {
    mentions_clauses(g.environment.clauses, u) || mentions_goal(g.goal, u)
}

pub open spec fn mentions_constraint(c: ConstraintV, u: nat) -> bool {
    match c {
        ConstraintV::LifetimeEq(l1, l2) => mentions_lifetime(l1, u) || mentions_lifetime(l2, u),
    }
}

pub open spec fn mentions_constraints(cs: Seq<ConstraintV>, u: nat) -> bool
    decreases cs,
{
    if cs.len() == 0 {
        false
    } else {
        mentions_constraints(cs.drop_last(), u) || mentions_constraint(cs.last(), u)
    }
}

// ---------------------------------------------------------------------------
// Renumbering the universes of a value through the map.
// ---------------------------------------------------------------------------

/// Which way a universe map is applied to a value.
#[derive(Clone, Copy, Debug, PartialEq, Eq, Structural)]
pub enum UMapSide {
    /// Original universes become their positions in the map.
    ToCanonical,
    /// Canonical universes become the originals they stand for.
    FromCanonical,
}

pub open spec fn umap_universe(m: Seq<nat>, side: UMapSide, u: nat) -> nat {
    match side {
        UMapSide::ToCanonical => umap_to_canonical(m, u),
        UMapSide::FromCanonical => umap_from_canonical(m, u),
    }
}

/// The machine bound of one universe translation: mapping into the
/// canonical space lands at a vector position and always fits; mapping
/// out can name a fresh universe past everything collected.
pub open spec fn umap_dir_ok(m: Seq<nat>, side: UMapSide, u: nat) -> bool {
    match side {
        UMapSide::ToCanonical => true,
        UMapSide::FromCanonical => umap_from_canonical(m, u) <= usize::MAX,
    }
}

pub open spec fn umap_lifetime(m: Seq<nat>, side: UMapSide, l: LifetimeV) -> LifetimeV {
    match l {
        LifetimeV::Var(d) => LifetimeV::Var(d),
        LifetimeV::ForAll(u) => LifetimeV::ForAll(umap_universe(m, side, u)),
    }
}

pub open spec fn umap_ty(m: Seq<nat>, side: UMapSide, t: TyV) -> TyV
    decreases t,
{
    match t {
        TyV::Var(d) => TyV::Var(d),
        TyV::Apply(a) => TyV::Apply(
            ApplicationTyV {
                name: match a.name {
                    TypeNameV::ForAll(u) => TypeNameV::ForAll(umap_universe(m, side, u)),
                    other => other,
                },
                parameters: umap_params(m, side, a.parameters),
            },
        ),
        TyV::Projection(p) => TyV::Projection(
            ProjectionTyV {
                associated_ty_id: p.associated_ty_id,
                parameters: umap_params(m, side, p.parameters),
            },
        ),
        TyV::UnselectedProjection(p) => TyV::UnselectedProjection(
            UnselectedProjectionTyV {
                head_name: p.head_name,
                parameters: umap_params(m, side, p.parameters),
            },
        ),
        TyV::ForAll(nb, inner) => TyV::ForAll(nb, Box::new(umap_ty(m, side, *inner))),
    }
}

pub open spec fn umap_param(m: Seq<nat>, side: UMapSide, p: ParameterV) -> ParameterV
    decreases p,
{
    match p {
        ParameterV::Ty(t) => ParameterV::Ty(umap_ty(m, side, t)),
        ParameterV::Lifetime(l) => ParameterV::Lifetime(umap_lifetime(m, side, l)),
        ParameterV::Const(c) => ParameterV::Const(c),
    }
}

pub open spec fn umap_params(m: Seq<nat>, side: UMapSide, ps: Seq<ParameterV>) -> Seq<ParameterV>
    decreases ps,
{
    if ps.len() == 0 {
        Seq::empty()
    } else {
        umap_params(m, side, ps.drop_last()).push(umap_param(m, side, ps.last()))
    }
}

pub open spec fn umap_domain_goal(m: Seq<nat>, side: UMapSide, g: DomainGoalV) -> DomainGoalV
    decreases g,
{
    match g {
        DomainGoalV::Implemented(t) => DomainGoalV::Implemented(
            TraitRefV { trait_id: t.trait_id, parameters: umap_params(m, side, t.parameters) },
        ),
        DomainGoalV::Normalize(n) => DomainGoalV::Normalize(
            NormalizeV {
                projection: ProjectionTyV {
                    associated_ty_id: n.projection.associated_ty_id,
                    parameters: umap_params(m, side, n.projection.parameters),
                },
                ty: umap_ty(m, side, n.ty),
            },
        ),
        DomainGoalV::ProjectionEq(n) => DomainGoalV::ProjectionEq(
            ProjectionEqV {
                projection: ProjectionTyV {
                    associated_ty_id: n.projection.associated_ty_id,
                    parameters: umap_params(m, side, n.projection.parameters),
                },
                ty: umap_ty(m, side, n.ty),
            },
        ),
        DomainGoalV::UnselectedNormalize(n) => DomainGoalV::UnselectedNormalize(
            UnselectedNormalizeV {
                projection: UnselectedProjectionTyV {
                    head_name: n.projection.head_name,
                    parameters: umap_params(m, side, n.projection.parameters),
                },
                ty: umap_ty(m, side, n.ty),
            },
        ),
        DomainGoalV::WellFormed(w) => DomainGoalV::WellFormed(
            match w {
                WellFormedV::Ty(t) => WellFormedV::Ty(umap_ty(m, side, t)),
                WellFormedV::TraitRef(t) => WellFormedV::TraitRef(
                    TraitRefV {
                        trait_id: t.trait_id,
                        parameters: umap_params(m, side, t.parameters),
                    },
                ),
                WellFormedV::ProjectionEq(n) => WellFormedV::ProjectionEq(
                    ProjectionEqV {
                        projection: ProjectionTyV {
                            associated_ty_id: n.projection.associated_ty_id,
                            parameters: umap_params(m, side, n.projection.parameters),
                        },
                        ty: umap_ty(m, side, n.ty),
                    },
                ),
            },
        ),
        DomainGoalV::FromEnv(w) => DomainGoalV::FromEnv(
            match w {
                FromEnvV::Ty(t) => FromEnvV::Ty(umap_ty(m, side, t)),
                FromEnvV::TraitRef(t) => FromEnvV::TraitRef(
                    TraitRefV {
                        trait_id: t.trait_id,
                        parameters: umap_params(m, side, t.parameters),
                    },
                ),
                FromEnvV::ProjectionEq(n) => FromEnvV::ProjectionEq(
                    ProjectionEqV {
                        projection: ProjectionTyV {
                            associated_ty_id: n.projection.associated_ty_id,
                            parameters: umap_params(m, side, n.projection.parameters),
                        },
                        ty: umap_ty(m, side, n.ty),
                    },
                ),
            },
        ),
        DomainGoalV::InScope(id) => DomainGoalV::InScope(id),
    }
}

pub open spec fn umap_goal(m: Seq<nat>, side: UMapSide, g: GoalV) -> GoalV
    decreases g,
{
    match g {
        GoalV::Quantified { qkind, binders, goal } => GoalV::Quantified {
            qkind,
            binders,
            goal: Box::new(umap_goal(m, side, *goal)),
        },
        GoalV::Implies(clauses, goal) => GoalV::Implies(
            umap_clauses(m, side, clauses),
            Box::new(umap_goal(m, side, *goal)),
        ),
        GoalV::And(g1, g2) => GoalV::And(
            Box::new(umap_goal(m, side, *g1)),
            Box::new(umap_goal(m, side, *g2)),
        ),
        GoalV::Not(g1) => GoalV::Not(Box::new(umap_goal(m, side, *g1))),
        GoalV::Leaf(l) => GoalV::Leaf(
            match l {
                LeafGoalV::EqGoal(e) => LeafGoalV::EqGoal(
                    crate::ir::EqGoalV { a: umap_param(m, side, e.a), b: umap_param(m, side, e.b) },
                ),
                LeafGoalV::DomainGoal(d) => LeafGoalV::DomainGoal(umap_domain_goal(m, side, d)),
            },
        ),
        GoalV::CannotProve => GoalV::CannotProve,
    }
}

pub open spec fn umap_goals(m: Seq<nat>, side: UMapSide, gs: Seq<GoalV>) -> Seq<GoalV>
    decreases gs,
{
    if gs.len() == 0 {
        Seq::empty()
    } else {
        umap_goals(m, side, gs.drop_last()).push(umap_goal(m, side, gs.last()))
    }
}

pub open spec fn umap_clause(m: Seq<nat>, side: UMapSide, c: ProgramClauseV) -> ProgramClauseV
    decreases c,
{
    ProgramClauseV {
        binders: c.binders,
        implication: ProgramClauseImplicationV {
            consequence: umap_domain_goal(m, side, c.implication.consequence),
            conditions: umap_goals(m, side, c.implication.conditions),
        },
    }
}

pub open spec fn umap_clauses(m: Seq<nat>, side: UMapSide, cs: Seq<ProgramClauseV>) -> Seq<
    ProgramClauseV,
>
    decreases cs,
{
    if cs.len() == 0 {
        Seq::empty()
    } else {
        umap_clauses(m, side, cs.drop_last()).push(umap_clause(m, side, cs.last()))
    }
}

pub open spec fn umap_in_env_goal(m: Seq<nat>, side: UMapSide, g: InEnvironmentV<GoalV>)
    -> InEnvironmentV<GoalV> {
    InEnvironmentV {
        environment: EnvironmentV { clauses: umap_clauses(m, side, g.environment.clauses) },
        goal: umap_goal(m, side, g.goal),
    }
}

pub open spec fn umap_constraint(m: Seq<nat>, side: UMapSide, c: ConstraintV) -> ConstraintV {
    match c {
        ConstraintV::LifetimeEq(l1, l2) => ConstraintV::LifetimeEq(
            umap_lifetime(m, side, l1),
            umap_lifetime(m, side, l2),
        ),
    }
}

pub open spec fn umap_constraints(m: Seq<nat>, side: UMapSide, cs: Seq<ConstraintV>) -> Seq<
    ConstraintV,
> {
    cs.map_values(|c: ConstraintV| umap_constraint(m, side, c))
}

// ---------------------------------------------------------------------------
// Pointwise shape of the sequence maps, and membership of elements.
// ---------------------------------------------------------------------------

pub proof fn lemma_umap_params(m: Seq<nat>, side: UMapSide, ps: Seq<ParameterV>)
    ensures
        umap_params(m, side, ps).len() == ps.len(),
        forall|i: int|
            0 <= i < ps.len() ==> umap_params(m, side, ps)[i] == umap_param(m, side, ps[i]),
    decreases ps,
{
    if ps.len() > 0 {
        lemma_umap_params(m, side, ps.drop_last());
    }
}

pub proof fn lemma_umap_goals(m: Seq<nat>, side: UMapSide, gs: Seq<GoalV>)
    ensures
        umap_goals(m, side, gs).len() == gs.len(),
        forall|i: int| 0 <= i < gs.len() ==> umap_goals(m, side, gs)[i] == umap_goal(
            m,
            side,
            gs[i],
        ),
    decreases gs,
{
    if gs.len() > 0 {
        lemma_umap_goals(m, side, gs.drop_last());
    }
}

pub proof fn lemma_umap_clauses(m: Seq<nat>, side: UMapSide, cs: Seq<ProgramClauseV>)
    ensures
        umap_clauses(m, side, cs).len() == cs.len(),
        forall|i: int| 0 <= i < cs.len() ==> umap_clauses(m, side, cs)[i] == umap_clause(
            m,
            side,
            cs[i],
        ),
    decreases cs,
{
    if cs.len() > 0 {
        lemma_umap_clauses(m, side, cs.drop_last());
    }
}

/// A universe mentioned by an element is mentioned by the list.
pub proof fn lemma_mentions_params_elem(ps: Seq<ParameterV>, i: int)
    requires
        0 <= i < ps.len(),
    ensures
        forall|u: nat| mentions_param(ps[i], u) ==> mentions_params(ps, u),
    decreases ps,
{
    if i == ps.len() - 1 {
        assert forall|u: nat| mentions_param(ps[i], u) implies mentions_params(ps, u) by {
            assert(ps.last() == ps[i]);
        }
    } else {
        lemma_mentions_params_elem(ps.drop_last(), i);
        assert forall|u: nat| mentions_param(ps[i], u) implies mentions_params(ps, u) by {
            assert(ps.drop_last()[i] == ps[i]);
            assert(mentions_params(ps.drop_last(), u));
        }
    }
}

pub proof fn lemma_mentions_goals_elem(gs: Seq<GoalV>, i: int)
    requires
        0 <= i < gs.len(),
    ensures
        forall|u: nat| mentions_goal(gs[i], u) ==> mentions_goals(gs, u),
    decreases gs,
{
    if i == gs.len() - 1 {
        assert forall|u: nat| mentions_goal(gs[i], u) implies mentions_goals(gs, u) by {
            assert(gs.last() == gs[i]);
        }
    } else {
        lemma_mentions_goals_elem(gs.drop_last(), i);
        assert forall|u: nat| mentions_goal(gs[i], u) implies mentions_goals(gs, u) by {
            assert(gs.drop_last()[i] == gs[i]);
            assert(mentions_goals(gs.drop_last(), u));
        }
    }
}

pub proof fn lemma_mentions_clauses_elem(cs: Seq<ProgramClauseV>, i: int)
    requires
        0 <= i < cs.len(),
    ensures
        forall|u: nat| mentions_clause(cs[i], u) ==> mentions_clauses(cs, u),
    decreases cs,
{
    if i == cs.len() - 1 {
        assert forall|u: nat| mentions_clause(cs[i], u) implies mentions_clauses(cs, u) by {
            assert(cs.last() == cs[i]);
        }
    } else {
        lemma_mentions_clauses_elem(cs.drop_last(), i);
        assert forall|u: nat| mentions_clause(cs[i], u) implies mentions_clauses(cs, u) by {
            assert(cs.drop_last()[i] == cs[i]);
            assert(mentions_clauses(cs.drop_last(), u));
        }
    }
}

pub proof fn lemma_mentions_constraints_elem(cs: Seq<ConstraintV>, i: int)
    requires
        0 <= i < cs.len(),
    ensures
        forall|u: nat| mentions_constraint(cs[i], u) ==> mentions_constraints(cs, u),
    decreases cs,
{
    if i == cs.len() - 1 {
        assert forall|u: nat| mentions_constraint(cs[i], u) implies mentions_constraints(cs, u) by {
            assert(cs.last() == cs[i]);
        }
    } else {
        lemma_mentions_constraints_elem(cs.drop_last(), i);
        assert forall|u: nat| mentions_constraint(cs[i], u) implies mentions_constraints(cs, u) by {
            assert(cs.drop_last()[i] == cs[i]);
            assert(mentions_constraints(cs.drop_last(), u));
        }
    }
}

// ---------------------------------------------------------------------------
// Pass one: collecting the universes that appear free in a value.
//
// Each collector grows the map by exactly the universes its value
// mentions; the `collects_*` predicates state that, over the map's
// views before and after.
// ---------------------------------------------------------------------------

pub open spec fn collects_ty(old_m: Seq<nat>, new_m: Seq<nat>, t: TyV) -> bool {
    forall|u: nat| umap_contains(new_m, u) <==> umap_contains(old_m, u) || mentions_ty(t, u)
}

pub open spec fn collects_param(old_m: Seq<nat>, new_m: Seq<nat>, p: ParameterV) -> bool {
    forall|u: nat| umap_contains(new_m, u) <==> umap_contains(old_m, u) || mentions_param(p, u)
}

pub open spec fn collects_params(old_m: Seq<nat>, new_m: Seq<nat>, ps: Seq<ParameterV>) -> bool {
    forall|u: nat| umap_contains(new_m, u) <==> umap_contains(old_m, u) || mentions_params(ps, u)
}

pub open spec fn collects_domain_goal(old_m: Seq<nat>, new_m: Seq<nat>, g: DomainGoalV) -> bool {
    forall|u: nat|
        umap_contains(new_m, u) <==> umap_contains(old_m, u) || mentions_domain_goal(g, u)
}

pub open spec fn collects_goal(old_m: Seq<nat>, new_m: Seq<nat>, g: GoalV) -> bool {
    forall|u: nat| umap_contains(new_m, u) <==> umap_contains(old_m, u) || mentions_goal(g, u)
}

pub open spec fn collects_goals(old_m: Seq<nat>, new_m: Seq<nat>, gs: Seq<GoalV>) -> bool {
    forall|u: nat| umap_contains(new_m, u) <==> umap_contains(old_m, u) || mentions_goals(gs, u)
}

pub open spec fn collects_clause(old_m: Seq<nat>, new_m: Seq<nat>, c: ProgramClauseV) -> bool {
    forall|u: nat| umap_contains(new_m, u) <==> umap_contains(old_m, u) || mentions_clause(c, u)
}

pub open spec fn collects_clauses(old_m: Seq<nat>, new_m: Seq<nat>, cs: Seq<ProgramClauseV>)
    -> bool {
    forall|u: nat| umap_contains(new_m, u) <==> umap_contains(old_m, u) || mentions_clauses(cs, u)
}

pub open spec fn collects_in_env_goal(
    old_m: Seq<nat>,
    new_m: Seq<nat>,
    g: InEnvironmentV<GoalV>,
) -> bool {
    forall|u: nat|
        umap_contains(new_m, u) <==> umap_contains(old_m, u) || mentions_in_env_goal(g, u)
}

fn collect_ty(map: &mut UniverseMap, t: &Ty)
    requires
        umap_wf(old(map)@),
    ensures
        umap_wf(final(map)@),
        collects_ty(old(map)@, final(map)@, t@),
    decreases *t,
{
    match t {
        Ty::Var(_) => {
        },
        Ty::Apply(a) => {
            let ghost m0 = map@;
            match a.name {
                TypeName::ForAll(u) => {
                    map.add(u);
                },
                _ => {},
            }
            let ghost m1 = map@;
            collect_params(map, &a.parameters);
            proof {
                assert forall|u2: nat|
                    umap_contains(map@, u2) <==> umap_contains(m0, u2) || mentions_ty(
                        t@,
                        u2,
                    ) by {
                    assert(umap_contains(map@, u2) <==> umap_contains(m1, u2) || mentions_params(
                        params_view(a.parameters@),
                        u2,
                    ));
                }
            }
        },
        Ty::Projection(p) => {
            collect_params(map, &p.parameters);
        },
        Ty::UnselectedProjection(p) => {
            collect_params(map, &p.parameters);
        },
        Ty::ForAll { num_binders: _, ty } => {
            collect_ty(map, &**ty);
        },
    }
}

fn collect_param(map: &mut UniverseMap, p: &Parameter)
    requires
        umap_wf(old(map)@),
    ensures
        umap_wf(final(map)@),
        collects_param(old(map)@, final(map)@, p@),
    decreases *p,
{
    match p {
        Parameter::Ty(t) => collect_ty(map, t),
        Parameter::Lifetime(l) => {
            match l {
                Lifetime::Var(_) => {},
                Lifetime::ForAll(u) => {
                    map.add(*u);
                },
            }
        },
        Parameter::Const(_) => {},
    }
}

fn collect_params(map: &mut UniverseMap, ps: &Vec<Parameter>)
    requires
        umap_wf(old(map)@),
    ensures
        umap_wf(final(map)@),
        collects_params(old(map)@, final(map)@, params_view(ps@)),
    decreases *ps,
{
    proof {
        lemma_params_view(ps@);
    }
    let ghost m0 = map@;
    let ghost pv = params_view(ps@);
    let mut i: usize = 0;
    while i < ps.len()
        invariant
            i <= ps@.len(),
            m0 == old(map)@,
            pv == params_view(ps@),
            pv.len() == ps@.len(),
            forall|j: int| 0 <= j < ps@.len() ==> pv[j] == param_view(ps@[j]),
            umap_wf(map@),
            collects_params(m0, map@, pv.take(i as int)),
        decreases ps@.len() - i,
    {
        let ghost m_i = map@;
        collect_param(map, &ps[i]);
        proof {
            assert(pv.take(i + 1).drop_last() =~= pv.take(i as int));
            assert(pv.take(i + 1).last() == pv[i as int]);
            assert forall|u: nat|
                umap_contains(map@, u) <==> umap_contains(m0, u) || mentions_params(
                    pv.take(i + 1),
                    u,
                ) by {
                assert(umap_contains(m_i, u) <==> umap_contains(m0, u) || mentions_params(
                    pv.take(i as int),
                    u,
                ));
                assert(umap_contains(map@, u) <==> umap_contains(m_i, u) || mentions_param(
                    pv[i as int],
                    u,
                ));
            }
        }
        i += 1;
    }
    proof {
        assert(pv.take(ps@.len() as int) =~= pv);
    }
}

/// The joint growth of collecting a parameter list and a type.
pub open spec fn collects_pair(old_m: Seq<nat>, new_m: Seq<nat>, ps: Seq<ParameterV>, t: TyV)
    -> bool {
    forall|u: nat|
        umap_contains(new_m, u) <==> umap_contains(old_m, u) || (mentions_params(ps, u)
            || mentions_ty(t, u))
}

fn collect_pair(map: &mut UniverseMap, ps: &Vec<Parameter>, ty: &Ty)
    requires
        umap_wf(old(map)@),
    ensures
        umap_wf(final(map)@),
        collects_pair(old(map)@, final(map)@, params_view(ps@), ty@),
{
    let ghost m0 = map@;
    collect_params(map, ps);
    let ghost m1 = map@;
    collect_ty(map, ty);
    proof {
        assert forall|u: nat|
            umap_contains(map@, u) <==> umap_contains(m0, u) || (mentions_params(
                params_view(ps@),
                u,
            ) || mentions_ty(ty@, u)) by {
            assert(umap_contains(m1, u) <==> umap_contains(m0, u) || mentions_params(
                params_view(ps@),
                u,
            ));
            assert(umap_contains(map@, u) <==> umap_contains(m1, u) || mentions_ty(ty@, u));
        }
    }
}

fn collect_domain_goal(map: &mut UniverseMap, g: &DomainGoal)
    requires
        umap_wf(old(map)@),
    ensures
        umap_wf(final(map)@),
        collects_domain_goal(old(map)@, final(map)@, g@),
    decreases *g,
{
    let ghost m0 = map@;
    match g {
        DomainGoal::Implemented(t) => {
            collect_params(map, &t.parameters);
            proof {
                assert(collects_params(m0, map@, params_view(t.parameters@)));
                assert forall|u: nat|
                    umap_contains(map@, u) <==> umap_contains(m0, u)
                        || mentions_domain_goal(g@, u) by {
                    assert(umap_contains(map@, u) <==> umap_contains(m0, u)
                        || mentions_params(params_view(t.parameters@), u));
                }
            }
        },
        DomainGoal::Normalize(n) => {
            collect_pair(map, &n.projection.parameters, &n.ty);
            proof {
                assert(collects_pair(m0, map@, params_view(n.projection.parameters@),
                    crate::ir::ty_view(n.ty)));
                assert forall|u: nat|
                    umap_contains(map@, u) <==> umap_contains(m0, u)
                        || mentions_domain_goal(g@, u) by {
                    assert(umap_contains(map@, u) <==> umap_contains(m0, u) || (
                    mentions_params(params_view(n.projection.parameters@), u) || mentions_ty(
                        crate::ir::ty_view(n.ty),
                        u,
                    )));
                }
            }
        },
        DomainGoal::ProjectionEq(n) => {
            collect_pair(map, &n.projection.parameters, &n.ty);
            proof {
                assert(collects_pair(m0, map@, params_view(n.projection.parameters@),
                    crate::ir::ty_view(n.ty)));
                assert forall|u: nat|
                    umap_contains(map@, u) <==> umap_contains(m0, u)
                        || mentions_domain_goal(g@, u) by {
                    assert(umap_contains(map@, u) <==> umap_contains(m0, u) || (
                    mentions_params(params_view(n.projection.parameters@), u) || mentions_ty(
                        crate::ir::ty_view(n.ty),
                        u,
                    )));
                }
            }
        },
        DomainGoal::UnselectedNormalize(n) => {
            collect_pair(map, &n.projection.parameters, &n.ty);
            proof {
                assert(collects_pair(m0, map@, params_view(n.projection.parameters@),
                    crate::ir::ty_view(n.ty)));
                assert forall|u: nat|
                    umap_contains(map@, u) <==> umap_contains(m0, u)
                        || mentions_domain_goal(g@, u) by {
                    assert(umap_contains(map@, u) <==> umap_contains(m0, u) || (
                    mentions_params(params_view(n.projection.parameters@), u) || mentions_ty(
                        crate::ir::ty_view(n.ty),
                        u,
                    )));
                }
            }
        },
        DomainGoal::WellFormed(w) => {
            match w {
                WellFormed::Ty(t) => {
                    collect_ty(map, t);
                    proof {
                        assert(collects_ty(m0, map@, crate::ir::ty_view(*t)));
                        assert forall|u: nat|
                            umap_contains(map@, u) <==> umap_contains(m0, u)
                                || mentions_domain_goal(g@, u) by {
                            assert(umap_contains(map@, u) <==> umap_contains(m0, u)
                                || mentions_ty(crate::ir::ty_view(*t), u));
                        }
                    }
                },
                WellFormed::TraitRef(t) => {
                    collect_params(map, &t.parameters);
                    proof {
                        assert(collects_params(m0, map@, params_view(t.parameters@)));
                        assert forall|u: nat|
                            umap_contains(map@, u) <==> umap_contains(m0, u)
                                || mentions_domain_goal(g@, u) by {
                            assert(umap_contains(map@, u) <==> umap_contains(m0, u)
                                || mentions_params(params_view(t.parameters@), u));
                        }
                    }
                },
                WellFormed::ProjectionEq(n) => {
                    collect_pair(map, &n.projection.parameters, &n.ty);
                    proof {
                        assert(collects_pair(m0, map@, params_view(n.projection.parameters@),
                            crate::ir::ty_view(n.ty)));
                        assert forall|u: nat|
                            umap_contains(map@, u) <==> umap_contains(m0, u)
                                || mentions_domain_goal(g@, u) by {
                            assert(umap_contains(map@, u) <==> umap_contains(m0, u) || (
                            mentions_params(params_view(n.projection.parameters@), u)
                                || mentions_ty(crate::ir::ty_view(n.ty), u)));
                        }
                    }
                },
            }
        },
        DomainGoal::FromEnv(w) => {
            match w {
                FromEnv::Ty(t) => {
                    collect_ty(map, t);
                    proof {
                        assert(collects_ty(m0, map@, crate::ir::ty_view(*t)));
                        assert forall|u: nat|
                            umap_contains(map@, u) <==> umap_contains(m0, u)
                                || mentions_domain_goal(g@, u) by {
                            assert(umap_contains(map@, u) <==> umap_contains(m0, u)
                                || mentions_ty(crate::ir::ty_view(*t), u));
                        }
                    }
                },
                FromEnv::TraitRef(t) => {
                    collect_params(map, &t.parameters);
                    proof {
                        assert(collects_params(m0, map@, params_view(t.parameters@)));
                        assert forall|u: nat|
                            umap_contains(map@, u) <==> umap_contains(m0, u)
                                || mentions_domain_goal(g@, u) by {
                            assert(umap_contains(map@, u) <==> umap_contains(m0, u)
                                || mentions_params(params_view(t.parameters@), u));
                        }
                    }
                },
                FromEnv::ProjectionEq(n) => {
                    collect_pair(map, &n.projection.parameters, &n.ty);
                    proof {
                        assert(collects_pair(m0, map@, params_view(n.projection.parameters@),
                            crate::ir::ty_view(n.ty)));
                        assert forall|u: nat|
                            umap_contains(map@, u) <==> umap_contains(m0, u)
                                || mentions_domain_goal(g@, u) by {
                            assert(umap_contains(map@, u) <==> umap_contains(m0, u) || (
                            mentions_params(params_view(n.projection.parameters@), u)
                                || mentions_ty(crate::ir::ty_view(n.ty), u)));
                        }
                    }
                },
            }
        },
        DomainGoal::InScope(_) => {},
    }
}

fn collect_goal(map: &mut UniverseMap, g: &Goal)
    requires
        umap_wf(old(map)@),
    ensures
        umap_wf(final(map)@),
        collects_goal(old(map)@, final(map)@, g@),
    decreases *g,
{
    match g {
        Goal::Quantified { qkind: _, binders: _, goal } => {
            collect_goal(map, &**goal);
        },
        Goal::Implies(clauses, goal) => {
            let ghost m0 = map@;
            collect_clauses(map, clauses);
            let ghost m1 = map@;
            collect_goal(map, &**goal);
            proof {
                assert forall|u: nat|
                    umap_contains(map@, u) <==> umap_contains(m0, u) || mentions_goal(g@, u) by {
                    assert(umap_contains(m1, u) <==> umap_contains(m0, u) || mentions_clauses(
                        clauses_view(clauses@),
                        u,
                    ));
                    assert(umap_contains(map@, u) <==> umap_contains(m1, u) || mentions_goal(
                        goal_view(*(*goal)),
                        u,
                    ));
                }
            }
        },
        Goal::And(g1, g2) => {
            let ghost m0 = map@;
            collect_goal(map, &**g1);
            let ghost m1 = map@;
            collect_goal(map, &**g2);
            proof {
                assert forall|u: nat|
                    umap_contains(map@, u) <==> umap_contains(m0, u) || mentions_goal(g@, u) by {
                    assert(umap_contains(m1, u) <==> umap_contains(m0, u) || mentions_goal(
                        goal_view(*(*g1)),
                        u,
                    ));
                    assert(umap_contains(map@, u) <==> umap_contains(m1, u) || mentions_goal(
                        goal_view(*(*g2)),
                        u,
                    ));
                }
            }
        },
        Goal::Not(g1) => {
            collect_goal(map, &**g1);
        },
        Goal::Leaf(l) => {
            match l {
                LeafGoal::EqGoal(e) => {
                    let ghost m0 = map@;
                    collect_param(map, &e.a);
                    let ghost m1 = map@;
                    collect_param(map, &e.b);
                    proof {
                        assert forall|u: nat|
                            umap_contains(map@, u) <==> umap_contains(m0, u) || mentions_goal(
                                g@,
                                u,
                            ) by {
                            assert(umap_contains(m1, u) <==> umap_contains(m0, u)
                                || mentions_param(param_view(e.a), u));
                            assert(umap_contains(map@, u) <==> umap_contains(m1, u)
                                || mentions_param(param_view(e.b), u));
                        }
                    }
                },
                LeafGoal::DomainGoal(d) => {
                    collect_domain_goal(map, d);
                },
            }
        },
        Goal::CannotProve => {},
    }
}

fn collect_goals(map: &mut UniverseMap, gs: &Vec<Goal>)
    requires
        umap_wf(old(map)@),
    ensures
        umap_wf(final(map)@),
        collects_goals(old(map)@, final(map)@, goals_view(gs@)),
    decreases *gs,
{
    proof {
        lemma_goals_view(gs@);
    }
    let ghost m0 = map@;
    let ghost gv = goals_view(gs@);
    let mut i: usize = 0;
    while i < gs.len()
        invariant
            i <= gs@.len(),
            m0 == old(map)@,
            gv == goals_view(gs@),
            gv.len() == gs@.len(),
            forall|j: int| 0 <= j < gs@.len() ==> gv[j] == goal_view(gs@[j]),
            umap_wf(map@),
            collects_goals(m0, map@, gv.take(i as int)),
        decreases gs@.len() - i,
    {
        let ghost m_i = map@;
        collect_goal(map, &gs[i]);
        proof {
            assert(gv.take(i + 1).drop_last() =~= gv.take(i as int));
            assert(gv.take(i + 1).last() == gv[i as int]);
            assert forall|u: nat|
                umap_contains(map@, u) <==> umap_contains(m0, u) || mentions_goals(
                    gv.take(i + 1),
                    u,
                ) by {
                assert(umap_contains(m_i, u) <==> umap_contains(m0, u) || mentions_goals(
                    gv.take(i as int),
                    u,
                ));
                assert(umap_contains(map@, u) <==> umap_contains(m_i, u) || mentions_goal(
                    gv[i as int],
                    u,
                ));
            }
        }
        i += 1;
    }
    proof {
        assert(gv.take(gs@.len() as int) =~= gv);
    }
}

fn collect_clause(map: &mut UniverseMap, c: &ProgramClause)
    requires
        umap_wf(old(map)@),
    ensures
        umap_wf(final(map)@),
        collects_clause(old(map)@, final(map)@, c@),
    decreases *c,
{
    let ghost m0 = map@;
    collect_domain_goal(map, &c.implication.consequence);
    let ghost m1 = map@;
    collect_goals(map, &c.implication.conditions);
    proof {
        assert forall|u: nat|
            umap_contains(map@, u) <==> umap_contains(m0, u) || mentions_clause(c@, u) by {
            assert(umap_contains(m1, u) <==> umap_contains(m0, u) || mentions_domain_goal(
                crate::ir::domain_goal_view(c.implication.consequence),
                u,
            ));
            assert(umap_contains(map@, u) <==> umap_contains(m1, u) || mentions_goals(
                goals_view(c.implication.conditions@),
                u,
            ));
        }
    }
}

fn collect_clauses(map: &mut UniverseMap, cs: &Vec<ProgramClause>)
    requires
        umap_wf(old(map)@),
    ensures
        umap_wf(final(map)@),
        collects_clauses(old(map)@, final(map)@, clauses_view(cs@)),
    decreases *cs,
{
    proof {
        lemma_clauses_view(cs@);
    }
    let ghost m0 = map@;
    let ghost cv = clauses_view(cs@);
    let mut i: usize = 0;
    while i < cs.len()
        invariant
            i <= cs@.len(),
            m0 == old(map)@,
            cv == clauses_view(cs@),
            cv.len() == cs@.len(),
            forall|j: int| 0 <= j < cs@.len() ==> cv[j] == clause_view(cs@[j]),
            umap_wf(map@),
            collects_clauses(m0, map@, cv.take(i as int)),
        decreases cs@.len() - i,
    {
        let ghost m_i = map@;
        collect_clause(map, &cs[i]);
        proof {
            assert(cv.take(i + 1).drop_last() =~= cv.take(i as int));
            assert(cv.take(i + 1).last() == cv[i as int]);
            assert forall|u: nat|
                umap_contains(map@, u) <==> umap_contains(m0, u) || mentions_clauses(
                    cv.take(i + 1),
                    u,
                ) by {
                assert(umap_contains(m_i, u) <==> umap_contains(m0, u) || mentions_clauses(
                    cv.take(i as int),
                    u,
                ));
                assert(umap_contains(map@, u) <==> umap_contains(m_i, u) || mentions_clause(
                    cv[i as int],
                    u,
                ));
            }
        }
        i += 1;
    }
    proof {
        assert(cv.take(cs@.len() as int) =~= cv);
    }
}

fn collect_in_env_goal(map: &mut UniverseMap, g: &InEnvironment<Goal>)
    requires
        umap_wf(old(map)@),
    ensures
        umap_wf(final(map)@),
        collects_in_env_goal(old(map)@, final(map)@, g@),
{
    let ghost m0 = map@;
    collect_clauses(map, &g.environment.clauses);
    let ghost m1 = map@;
    collect_goal(map, &g.goal);
    proof {
        assert forall|u: nat|
            umap_contains(map@, u) <==> umap_contains(m0, u) || mentions_in_env_goal(g@, u) by {
            assert(umap_contains(m1, u) <==> umap_contains(m0, u) || mentions_clauses(
                clauses_view(g.environment.clauses@),
                u,
            ));
            assert(umap_contains(map@, u) <==> umap_contains(m1, u) || mentions_goal(
                goal_view(g.goal),
                u,
            ));
        }
    }
}

// ---------------------------------------------------------------------------
// Pass two: renumbering the universes of a value through the map.
// ---------------------------------------------------------------------------

impl UniverseMap {
    /// One universe, translated in the given direction.
    fn apply_universe(&self, side: UMapSide, u: UniverseIndex) -> (r: UniverseIndex)
        requires
            umap_wf(self@),
            umap_dir_ok(self@, side, u.counter as nat),
        ensures
            r.counter as nat == umap_universe(self@, side, u.counter as nat),
    {
        match side {
            UMapSide::ToCanonical => self.map_universe_to_canonical(u),
            UMapSide::FromCanonical => self.map_universe_from_canonical(u),
        }
    }

    fn apply_ty(&self, side: UMapSide, t: &Ty) -> (r: Ty)
        requires
            umap_wf(self@),
            forall|u: nat| mentions_ty(t@, u) ==> umap_dir_ok(self@, side, u),
        ensures
            r@ == umap_ty(self@, side, t@),
        decreases *t,
    {
        match t {
            Ty::Var(d) => Ty::Var(*d),
            Ty::Apply(a) => {
                let name = match a.name {
                    TypeName::ForAll(u) => {
                        proof {
                            assert(mentions_ty(t@, u.counter as nat));
                        }
                        TypeName::ForAll(self.apply_universe(side, u))
                    },
                    other => other,
                };
                proof {
                    assert forall|u: nat|
                        mentions_params(params_view(a.parameters@), u) implies umap_dir_ok(
                        self@,
                        side,
                        u,
                    ) by {
                        assert(mentions_ty(t@, u));
                    }
                }
                Ty::Apply(ApplicationTy { name, parameters: self.apply_params(side, &a.parameters) })
            },
            Ty::Projection(p) => {
                proof {
                    assert forall|u: nat|
                        mentions_params(params_view(p.parameters@), u) implies umap_dir_ok(
                        self@,
                        side,
                        u,
                    ) by {
                        assert(mentions_ty(t@, u));
                    }
                }
                Ty::Projection(
                    ProjectionTy {
                        associated_ty_id: p.associated_ty_id,
                        parameters: self.apply_params(side, &p.parameters),
                    },
                )
            },
            Ty::UnselectedProjection(p) => {
                proof {
                    assert forall|u: nat|
                        mentions_params(params_view(p.parameters@), u) implies umap_dir_ok(
                        self@,
                        side,
                        u,
                    ) by {
                        assert(mentions_ty(t@, u));
                    }
                }
                Ty::UnselectedProjection(
                    UnselectedProjectionTy {
                        head_name: p.head_name,
                        parameters: self.apply_params(side, &p.parameters),
                    },
                )
            },
            Ty::ForAll { num_binders, ty } => {
                proof {
                    assert forall|u: nat|
                        mentions_ty(crate::ir::ty_view(*(*ty)), u) implies umap_dir_ok(
                        self@,
                        side,
                        u,
                    ) by {
                        assert(mentions_ty(t@, u));
                    }
                }
                Ty::ForAll {
                    num_binders: *num_binders,
                    ty: Box::new(self.apply_ty(side, &**ty)),
                }
            },
        }
    }

    fn apply_lifetime(&self, side: UMapSide, l: &Lifetime) -> (r: Lifetime)
        requires
            umap_wf(self@),
            forall|u: nat| mentions_lifetime(l@, u) ==> umap_dir_ok(self@, side, u),
        ensures
            r@ == umap_lifetime(self@, side, l@),
    {
        match l {
            Lifetime::Var(d) => Lifetime::Var(*d),
            Lifetime::ForAll(u) => {
                proof {
                    assert(mentions_lifetime(l@, u.counter as nat));
                }
                Lifetime::ForAll(self.apply_universe(side, *u))
            },
        }
    }

    fn apply_param(&self, side: UMapSide, p: &Parameter) -> (r: Parameter)
        requires
            umap_wf(self@),
            forall|u: nat| mentions_param(p@, u) ==> umap_dir_ok(self@, side, u),
        ensures
            r@ == umap_param(self@, side, p@),
        decreases *p,
    {
        match p {
            Parameter::Ty(t) => {
                proof {
                    assert forall|u: nat| mentions_ty(crate::ir::ty_view(*t), u) implies
                        umap_dir_ok(self@, side, u) by {
                        assert(mentions_param(p@, u));
                    }
                }
                Parameter::Ty(self.apply_ty(side, t))
            },
            Parameter::Lifetime(l) => {
                proof {
                    assert forall|u: nat| mentions_lifetime(crate::ir::lifetime_view(*l), u)
                        implies umap_dir_ok(self@, side, u) by {
                        assert(mentions_param(p@, u));
                    }
                }
                Parameter::Lifetime(self.apply_lifetime(side, l))
            },
            Parameter::Const(c) => Parameter::Const(*c),
        }
    }

    fn apply_params(&self, side: UMapSide, ps: &Vec<Parameter>) -> (r: Vec<Parameter>)
        requires
            umap_wf(self@),
            forall|u: nat| mentions_params(params_view(ps@), u) ==> umap_dir_ok(self@, side, u),
        ensures
            params_view(r@) == umap_params(self@, side, params_view(ps@)),
        decreases *ps,
    {
        proof {
            lemma_params_view(ps@);
        }
        let ghost pv = params_view(ps@);
        let mut out: Vec<Parameter> = Vec::new();
        let mut i: usize = 0;
        while i < ps.len()
            invariant
                i <= ps@.len(),
                out@.len() == i,
                umap_wf(self@),
                pv == params_view(ps@),
                pv.len() == ps@.len(),
                forall|j: int| 0 <= j < ps@.len() ==> pv[j] == param_view(ps@[j]),
                forall|u: nat| mentions_params(pv, u) ==> umap_dir_ok(self@, side, u),
                forall|j: int|
                    0 <= j < i ==> param_view(out@[j]) == umap_param(self@, side, pv[j]),
            decreases ps@.len() - i,
        {
            proof {
                lemma_mentions_params_elem(pv, i as int);
                assert forall|u: nat| mentions_param(pv[i as int], u) implies umap_dir_ok(
                    self@,
                    side,
                    u,
                ) by {
                    assert(mentions_params(pv, u));
                }
            }
            out.push(self.apply_param(side, &ps[i]));
            i += 1;
        }
        proof {
            lemma_params_view(out@);
            lemma_umap_params(self@, side, pv);
            assert(params_view(out@) =~= umap_params(self@, side, pv));
        }
        out
    }

    fn apply_pair(&self, side: UMapSide, ps: &Vec<Parameter>, ty: &Ty) -> (r: (Vec<Parameter>, Ty))
        requires
            umap_wf(self@),
            forall|u: nat| mentions_params(params_view(ps@), u) ==> umap_dir_ok(self@, side, u),
            forall|u: nat| mentions_ty(ty@, u) ==> umap_dir_ok(self@, side, u),
        ensures
            params_view(r.0@) == umap_params(self@, side, params_view(ps@)),
            r.1@ == umap_ty(self@, side, ty@),
    {
        (self.apply_params(side, ps), self.apply_ty(side, ty))
    }

    fn apply_domain_goal(&self, side: UMapSide, g: &DomainGoal) -> (r: DomainGoal)
        requires
            umap_wf(self@),
            forall|u: nat| mentions_domain_goal(g@, u) ==> umap_dir_ok(self@, side, u),
        ensures
            r@ == umap_domain_goal(self@, side, g@),
        decreases *g,
    {
        match g {
            DomainGoal::Implemented(t) => {
                proof {
                    assert forall|u: nat| mentions_params(params_view(t.parameters@), u) implies
                        umap_dir_ok(self@, side, u) by {
                        assert(mentions_domain_goal(g@, u));
                    }
                }
                DomainGoal::Implemented(
                    TraitRef { trait_id: t.trait_id, parameters: self.apply_params(side, &t.parameters) },
                )
            },
            DomainGoal::Normalize(n) => {
                proof {
                    assert forall|u: nat|
                        mentions_params(params_view(n.projection.parameters@), u) implies
                        umap_dir_ok(self@, side, u) by {
                        assert(mentions_domain_goal(g@, u));
                    }
                    assert forall|u: nat|
                        mentions_ty(crate::ir::ty_view(n.ty), u) implies umap_dir_ok(
                        self@,
                        side,
                        u,
                    ) by {
                        assert(mentions_domain_goal(g@, u));
                    }
                }
                let (parameters, ty) = self.apply_pair(side, &n.projection.parameters, &n.ty);
                DomainGoal::Normalize(
                    Normalize {
                        projection: ProjectionTy {
                            associated_ty_id: n.projection.associated_ty_id,
                            parameters,
                        },
                        ty,
                    },
                )
            },
            DomainGoal::ProjectionEq(n) => {
                proof {
                    assert forall|u: nat|
                        mentions_params(params_view(n.projection.parameters@), u) implies
                        umap_dir_ok(self@, side, u) by {
                        assert(mentions_domain_goal(g@, u));
                    }
                    assert forall|u: nat|
                        mentions_ty(crate::ir::ty_view(n.ty), u) implies umap_dir_ok(
                        self@,
                        side,
                        u,
                    ) by {
                        assert(mentions_domain_goal(g@, u));
                    }
                }
                let (parameters, ty) = self.apply_pair(side, &n.projection.parameters, &n.ty);
                DomainGoal::ProjectionEq(
                    ProjectionEq {
                        projection: ProjectionTy {
                            associated_ty_id: n.projection.associated_ty_id,
                            parameters,
                        },
                        ty,
                    },
                )
            },
            DomainGoal::UnselectedNormalize(n) => {
                proof {
                    assert forall|u: nat|
                        mentions_params(params_view(n.projection.parameters@), u) implies
                        umap_dir_ok(self@, side, u) by {
                        assert(mentions_domain_goal(g@, u));
                    }
                    assert forall|u: nat|
                        mentions_ty(crate::ir::ty_view(n.ty), u) implies umap_dir_ok(
                        self@,
                        side,
                        u,
                    ) by {
                        assert(mentions_domain_goal(g@, u));
                    }
                }
                let (parameters, ty) = self.apply_pair(side, &n.projection.parameters, &n.ty);
                DomainGoal::UnselectedNormalize(
                    UnselectedNormalize {
                        projection: UnselectedProjectionTy {
                            head_name: n.projection.head_name,
                            parameters,
                        },
                        ty,
                    },
                )
            },
            DomainGoal::WellFormed(w) => {
                match w {
                    WellFormed::Ty(t) => {
                        proof {
                            assert forall|u: nat| mentions_ty(crate::ir::ty_view(*t), u) implies
                                umap_dir_ok(self@, side, u) by {
                                assert(mentions_domain_goal(g@, u));
                            }
                        }
                        DomainGoal::WellFormed(WellFormed::Ty(self.apply_ty(side, t)))
                    },
                    WellFormed::TraitRef(t) => {
                        proof {
                            assert forall|u: nat|
                                mentions_params(params_view(t.parameters@), u) implies
                                umap_dir_ok(self@, side, u) by {
                                assert(mentions_domain_goal(g@, u));
                            }
                        }
                        DomainGoal::WellFormed(
                            WellFormed::TraitRef(
                                TraitRef {
                                    trait_id: t.trait_id,
                                    parameters: self.apply_params(side, &t.parameters),
                                },
                            ),
                        )
                    },
                    WellFormed::ProjectionEq(n) => {
                        proof {
                            assert forall|u: nat|
                                mentions_params(params_view(n.projection.parameters@), u) implies
                                umap_dir_ok(self@, side, u) by {
                                assert(mentions_domain_goal(g@, u));
                            }
                            assert forall|u: nat|
                                mentions_ty(crate::ir::ty_view(n.ty), u) implies umap_dir_ok(
                                self@,
                                side,
                                u,
                            ) by {
                                assert(mentions_domain_goal(g@, u));
                            }
                        }
                        let (parameters, ty) = self.apply_pair(
                            side,
                            &n.projection.parameters,
                            &n.ty,
                        );
                        DomainGoal::WellFormed(
                            WellFormed::ProjectionEq(
                                ProjectionEq {
                                    projection: ProjectionTy {
                                        associated_ty_id: n.projection.associated_ty_id,
                                        parameters,
                                    },
                                    ty,
                                },
                            ),
                        )
                    },
                }
            },
            DomainGoal::FromEnv(w) => {
                match w {
                    FromEnv::Ty(t) => {
                        proof {
                            assert forall|u: nat| mentions_ty(crate::ir::ty_view(*t), u) implies
                                umap_dir_ok(self@, side, u) by {
                                assert(mentions_domain_goal(g@, u));
                            }
                        }
                        DomainGoal::FromEnv(FromEnv::Ty(self.apply_ty(side, t)))
                    },
                    FromEnv::TraitRef(t) => {
                        proof {
                            assert forall|u: nat|
                                mentions_params(params_view(t.parameters@), u) implies
                                umap_dir_ok(self@, side, u) by {
                                assert(mentions_domain_goal(g@, u));
                            }
                        }
                        DomainGoal::FromEnv(
                            FromEnv::TraitRef(
                                TraitRef {
                                    trait_id: t.trait_id,
                                    parameters: self.apply_params(side, &t.parameters),
                                },
                            ),
                        )
                    },
                    FromEnv::ProjectionEq(n) => {
                        proof {
                            assert forall|u: nat|
                                mentions_params(params_view(n.projection.parameters@), u) implies
                                umap_dir_ok(self@, side, u) by {
                                assert(mentions_domain_goal(g@, u));
                            }
                            assert forall|u: nat|
                                mentions_ty(crate::ir::ty_view(n.ty), u) implies umap_dir_ok(
                                self@,
                                side,
                                u,
                            ) by {
                                assert(mentions_domain_goal(g@, u));
                            }
                        }
                        let (parameters, ty) = self.apply_pair(
                            side,
                            &n.projection.parameters,
                            &n.ty,
                        );
                        DomainGoal::FromEnv(
                            FromEnv::ProjectionEq(
                                ProjectionEq {
                                    projection: ProjectionTy {
                                        associated_ty_id: n.projection.associated_ty_id,
                                        parameters,
                                    },
                                    ty,
                                },
                            ),
                        )
                    },
                }
            },
            DomainGoal::InScope(id) => DomainGoal::InScope(*id),
        }
    }
}

impl UniverseMap {
    fn apply_goal(&self, side: UMapSide, g: &Goal) -> (r: Goal)
        requires
            umap_wf(self@),
            forall|u: nat| mentions_goal(g@, u) ==> umap_dir_ok(self@, side, u),
        ensures
            r@ == umap_goal(self@, side, g@),
        decreases *g,
    {
        match g {
            Goal::Quantified { qkind, binders, goal } => {
                proof {
                    assert forall|u: nat| mentions_goal(goal_view(*(*goal)), u) implies
                        umap_dir_ok(self@, side, u) by {
                        assert(mentions_goal(g@, u));
                    }
                }
                Goal::Quantified {
                    qkind: *qkind,
                    binders: clone_param_kinds(binders),
                    goal: Box::new(self.apply_goal(side, &**goal)),
                }
            },
            Goal::Implies(clauses, goal) => {
                proof {
                    assert forall|u: nat| mentions_clauses(clauses_view(clauses@), u) implies
                        umap_dir_ok(self@, side, u) by {
                        assert(mentions_goal(g@, u));
                    }
                    assert forall|u: nat| mentions_goal(goal_view(*(*goal)), u) implies
                        umap_dir_ok(self@, side, u) by {
                        assert(mentions_goal(g@, u));
                    }
                }
                Goal::Implies(
                    self.apply_clauses(side, clauses),
                    Box::new(self.apply_goal(side, &**goal)),
                )
            },
            Goal::And(g1, g2) => {
                proof {
                    assert forall|u: nat| mentions_goal(goal_view(*(*g1)), u) implies umap_dir_ok(
                        self@,
                        side,
                        u,
                    ) by {
                        assert(mentions_goal(g@, u));
                    }
                    assert forall|u: nat| mentions_goal(goal_view(*(*g2)), u) implies umap_dir_ok(
                        self@,
                        side,
                        u,
                    ) by {
                        assert(mentions_goal(g@, u));
                    }
                }
                Goal::And(
                    Box::new(self.apply_goal(side, &**g1)),
                    Box::new(self.apply_goal(side, &**g2)),
                )
            },
            Goal::Not(g1) => {
                proof {
                    assert forall|u: nat| mentions_goal(goal_view(*(*g1)), u) implies umap_dir_ok(
                        self@,
                        side,
                        u,
                    ) by {
                        assert(mentions_goal(g@, u));
                    }
                }
                Goal::Not(Box::new(self.apply_goal(side, &**g1)))
            },
            Goal::Leaf(l) => {
                match l {
                    LeafGoal::EqGoal(e) => {
                        proof {
                            assert forall|u: nat| mentions_param(param_view(e.a), u) implies
                                umap_dir_ok(self@, side, u) by {
                                assert(mentions_goal(g@, u));
                            }
                            assert forall|u: nat| mentions_param(param_view(e.b), u) implies
                                umap_dir_ok(self@, side, u) by {
                                assert(mentions_goal(g@, u));
                            }
                        }
                        Goal::Leaf(
                            LeafGoal::EqGoal(
                                EqGoal {
                                    a: self.apply_param(side, &e.a),
                                    b: self.apply_param(side, &e.b),
                                },
                            ),
                        )
                    },
                    LeafGoal::DomainGoal(d) => {
                        proof {
                            assert forall|u: nat|
                                mentions_domain_goal(crate::ir::domain_goal_view(*d), u) implies
                                umap_dir_ok(self@, side, u) by {
                                assert(mentions_goal(g@, u));
                            }
                        }
                        Goal::Leaf(LeafGoal::DomainGoal(self.apply_domain_goal(side, d)))
                    },
                }
            },
            Goal::CannotProve => Goal::CannotProve,
        }
    }

    fn apply_goals(&self, side: UMapSide, gs: &Vec<Goal>) -> (r: Vec<Goal>)
        requires
            umap_wf(self@),
            forall|u: nat| mentions_goals(goals_view(gs@), u) ==> umap_dir_ok(self@, side, u),
        ensures
            goals_view(r@) == umap_goals(self@, side, goals_view(gs@)),
        decreases *gs,
    {
        proof {
            lemma_goals_view(gs@);
        }
        let ghost gv = goals_view(gs@);
        let mut out: Vec<Goal> = Vec::new();
        let mut i: usize = 0;
        while i < gs.len()
            invariant
                i <= gs@.len(),
                out@.len() == i,
                umap_wf(self@),
                gv == goals_view(gs@),
                gv.len() == gs@.len(),
                forall|j: int| 0 <= j < gs@.len() ==> gv[j] == goal_view(gs@[j]),
                forall|u: nat| mentions_goals(gv, u) ==> umap_dir_ok(self@, side, u),
                forall|j: int| 0 <= j < i ==> goal_view(out@[j]) == umap_goal(self@, side, gv[j]),
            decreases gs@.len() - i,
        {
            proof {
                lemma_mentions_goals_elem(gv, i as int);
                assert forall|u: nat| mentions_goal(gv[i as int], u) implies umap_dir_ok(
                    self@,
                    side,
                    u,
                ) by {
                    assert(mentions_goals(gv, u));
                }
            }
            out.push(self.apply_goal(side, &gs[i]));
            i += 1;
        }
        proof {
            lemma_goals_view(out@);
            lemma_umap_goals(self@, side, gv);
            assert(goals_view(out@) =~= umap_goals(self@, side, gv));
        }
        out
    }

    fn apply_clause(&self, side: UMapSide, c: &ProgramClause) -> (r: ProgramClause)
        requires
            umap_wf(self@),
            forall|u: nat| mentions_clause(c@, u) ==> umap_dir_ok(self@, side, u),
        ensures
            r@ == umap_clause(self@, side, c@),
        decreases *c,
    {
        proof {
            assert forall|u: nat|
                mentions_domain_goal(crate::ir::domain_goal_view(c.implication.consequence), u)
                implies umap_dir_ok(self@, side, u) by {
                assert(mentions_clause(c@, u));
            }
            assert forall|u: nat|
                mentions_goals(goals_view(c.implication.conditions@), u) implies umap_dir_ok(
                self@,
                side,
                u,
            ) by {
                assert(mentions_clause(c@, u));
            }
        }
        ProgramClause {
            binders: clone_param_kinds(&c.binders),
            implication: ProgramClauseImplication {
                consequence: self.apply_domain_goal(side, &c.implication.consequence),
                conditions: self.apply_goals(side, &c.implication.conditions),
            },
        }
    }

    fn apply_clauses(&self, side: UMapSide, cs: &Vec<ProgramClause>) -> (r: Vec<ProgramClause>)
        requires
            umap_wf(self@),
            forall|u: nat| mentions_clauses(clauses_view(cs@), u) ==> umap_dir_ok(self@, side, u),
        ensures
            clauses_view(r@) == umap_clauses(self@, side, clauses_view(cs@)),
        decreases *cs,
    {
        proof {
            lemma_clauses_view(cs@);
        }
        let ghost cv = clauses_view(cs@);
        let mut out: Vec<ProgramClause> = Vec::new();
        let mut i: usize = 0;
        while i < cs.len()
            invariant
                i <= cs@.len(),
                out@.len() == i,
                umap_wf(self@),
                cv == clauses_view(cs@),
                cv.len() == cs@.len(),
                forall|j: int| 0 <= j < cs@.len() ==> cv[j] == clause_view(cs@[j]),
                forall|u: nat| mentions_clauses(cv, u) ==> umap_dir_ok(self@, side, u),
                forall|j: int|
                    0 <= j < i ==> clause_view(out@[j]) == umap_clause(self@, side, cv[j]),
            decreases cs@.len() - i,
        {
            proof {
                lemma_mentions_clauses_elem(cv, i as int);
                assert forall|u: nat| mentions_clause(cv[i as int], u) implies umap_dir_ok(
                    self@,
                    side,
                    u,
                ) by {
                    assert(mentions_clauses(cv, u));
                }
            }
            out.push(self.apply_clause(side, &cs[i]));
            i += 1;
        }
        proof {
            lemma_clauses_view(out@);
            lemma_umap_clauses(self@, side, cv);
            assert(clauses_view(out@) =~= umap_clauses(self@, side, cv));
        }
        out
    }

    fn apply_in_env_goal(&self, side: UMapSide, g: &InEnvironment<Goal>) -> (r: InEnvironment<
        Goal,
    >)
        requires
            umap_wf(self@),
            forall|u: nat| mentions_in_env_goal(g@, u) ==> umap_dir_ok(self@, side, u),
        ensures
            r@ == umap_in_env_goal(self@, side, g@),
    {
        proof {
            assert forall|u: nat|
                mentions_clauses(clauses_view(g.environment.clauses@), u) implies umap_dir_ok(
                self@,
                side,
                u,
            ) by {
                assert(mentions_in_env_goal(g@, u));
            }
            assert forall|u: nat| mentions_goal(goal_view(g.goal), u) implies umap_dir_ok(
                self@,
                side,
                u,
            ) by {
                assert(mentions_in_env_goal(g@, u));
            }
        }
        InEnvironment {
            environment: Environment {
                clauses: self.apply_clauses(side, &g.environment.clauses),
            },
            goal: self.apply_goal(side, &g.goal),
        }
    }

    /// Lift a type out of the canonical universe space: every skolem
    /// `ForAll(c)` becomes the original universe the map recorded for
    /// `c`, or a fresh universe past everything collected when `c` is
    /// out of range.
    pub fn map_from_canonical_ty(&self, value: &Ty) -> (r: Ty)
        requires
            umap_wf(self@),
            forall|u: nat|
                mentions_ty(value@, u) ==> umap_from_canonical(self@, u) <= usize::MAX,
        ensures
            r@ == umap_ty(self@, UMapSide::FromCanonical, value@),
    {
        proof {
            assert forall|u: nat| mentions_ty(value@, u) implies umap_dir_ok(
                self@,
                UMapSide::FromCanonical,
                u,
            ) by {
                assert(umap_from_canonical(self@, u) <= usize::MAX);
            }
        }
        self.apply_ty(UMapSide::FromCanonical, value)
    }

    /// Lift a constrained substitution out of the canonical universe
    /// space, as answers are lifted back into the space of the table
    /// that asked for them.
    pub fn map_from_canonical_constrained_subst(&self, value: &ConstrainedSubst) -> (r:
        ConstrainedSubst)
        requires
            umap_wf(self@),
            forall|u: nat|
                mentions_params(params_view(value.subst.parameters@), u) ==> umap_from_canonical(
                    self@,
                    u,
                ) <= usize::MAX,
            forall|u: nat|
                mentions_constraints(constraints_view(value.constraints@), u)
                    ==> umap_from_canonical(self@, u) <= usize::MAX,
        ensures
            subst_view(r.subst).parameters == umap_params(
                self@,
                UMapSide::FromCanonical,
                subst_view(value.subst).parameters,
            ),
            constraints_view(r.constraints@) == umap_constraints(
                self@,
                UMapSide::FromCanonical,
                constraints_view(value.constraints@),
            ),
    {
        proof {
            assert forall|u: nat|
                mentions_params(params_view(value.subst.parameters@), u) implies umap_dir_ok(
                self@,
                UMapSide::FromCanonical,
                u,
            ) by {
                assert(umap_from_canonical(self@, u) <= usize::MAX);
            }
        }
        let parameters = self.apply_params(UMapSide::FromCanonical, &value.subst.parameters);
        let ghost csv = constraints_view(value.constraints@);
        let mut constraints: Vec<Constraint> = Vec::new();
        let mut i: usize = 0;
        while i < value.constraints.len()
            invariant
                i <= value.constraints@.len(),
                umap_wf(self@),
                csv == constraints_view(value.constraints@),
                csv.len() == value.constraints@.len(),
                forall|u: nat|
                    mentions_constraints(csv, u) ==> umap_from_canonical(self@, u) <= usize::MAX,
                constraints@.len() == i,
                forall|j: int|
                    0 <= j < i ==> constraint_view(constraints@[j]) == umap_constraint(
                        self@,
                        UMapSide::FromCanonical,
                        csv[j],
                    ),
            decreases value.constraints@.len() - i,
        {
            proof {
                assert(csv[i as int] == constraint_view(value.constraints@[i as int]));
                lemma_mentions_constraints_elem(csv, i as int);
            }
            let c2 = match &value.constraints[i] {
                Constraint::LifetimeEq(l1, l2) => {
                    proof {
                        assert forall|u: nat|
                            mentions_lifetime(crate::ir::lifetime_view(*l1), u) implies
                            umap_dir_ok(self@, UMapSide::FromCanonical, u) by {
                            assert(mentions_constraint(csv[i as int], u));
                            assert(mentions_constraints(csv, u));
                        }
                        assert forall|u: nat|
                            mentions_lifetime(crate::ir::lifetime_view(*l2), u) implies
                            umap_dir_ok(self@, UMapSide::FromCanonical, u) by {
                            assert(mentions_constraint(csv[i as int], u));
                            assert(mentions_constraints(csv, u));
                        }
                    }
                    Constraint::LifetimeEq(
                        self.apply_lifetime(UMapSide::FromCanonical, l1),
                        self.apply_lifetime(UMapSide::FromCanonical, l2),
                    )
                },
            };
            constraints.push(c2);
            i += 1;
        }
        proof {
            assert(constraints_view(constraints@) =~= umap_constraints(
                self@,
                UMapSide::FromCanonical,
                csv,
            ));
        }
        ConstrainedSubst { subst: Substitution { parameters }, constraints }
    }
}

// ---------------------------------------------------------------------------
// The two passes together.
// ---------------------------------------------------------------------------

impl InferenceTable {
    /// U-canonicalize a canonical value: collect the universes free in
    /// its payload, renumber them densely in order, and remap the
    /// binder universes through the same map.  Returns the
    /// u-canonicalized value and the map that lifts results back.
    pub fn u_canonicalize(&self, value0: &Canonical<InEnvironment<Goal>>) -> (r: (
        UCanonical<InEnvironment<Goal>>,
        UniverseMap,
    ))
        ensures
            umap_wf(r.1@),
            forall|u: nat|
                umap_contains(r.1@, u) <==> u == 0 || mentions_in_env_goal(value0@.value, u),
            r.0@.universes == r.1@.len(),
            r.0@.canonical.value == umap_in_env_goal(r.1@, UMapSide::ToCanonical, value0@.value),
            r.0@.canonical.binders.len() == value0@.binders.len(),
            forall|i: int|
                0 <= i < value0@.binders.len() ==> (#[trigger] r.0@.canonical.binders[i]).kind
                    == value0@.binders[i].kind && r.0@.canonical.binders[i].universe
                    == umap_to_canonical(r.1@, value0@.binders[i].universe),
    {
        // First pass: find all the universes that appear in the payload.
        let mut universes = UniverseMap::new();
        let ghost m_new = universes@;
        collect_in_env_goal(&mut universes, &value0.value);
        proof {
            assert forall|u: nat|
                umap_contains(universes@, u) <==> u == 0 || mentions_in_env_goal(
                    value0@.value,
                    u,
                ) by {
                assert(umap_contains(universes@, u) <==> umap_contains(m_new, u)
                    || mentions_in_env_goal(value0@.value, u));
                assert(umap_contains(m_new, u) <==> u == 0);
            }
        }
        // Second pass: renumber the payload and the binder universes.
        let value1 = universes.apply_in_env_goal(UMapSide::ToCanonical, &value0.value);
        let ghost bv = crate::ir::cvks_view(value0.binders@);
        let mut binders: Vec<CanonicalVarKind> = Vec::new();
        let mut i: usize = 0;
        while i < value0.binders.len()
            invariant
                i <= value0.binders@.len(),
                umap_wf(universes@),
                bv == crate::ir::cvks_view(value0.binders@),
                bv.len() == value0.binders@.len(),
                forall|j: int| 0 <= j < value0.binders@.len() ==> bv[j] == cvk_view(
                    value0.binders@[j],
                ),
                binders@.len() == i,
                forall|j: int|
                    0 <= j < i ==> (#[trigger] cvk_view(binders@[j])).kind == bv[j].kind
                        && cvk_view(binders@[j]).universe == umap_to_canonical(
                        universes@,
                        bv[j].universe,
                    ),
            decreases value0.binders@.len() - i,
        {
            let pk = value0.binders[i];
            let mapped = CanonicalVarKind {
                kind: pk.kind,
                universe: universes.map_universe_to_canonical(pk.universe),
            };
            binders.push(mapped);
            i += 1;
        }
        let quantified = UCanonical {
            universes: universes.num_canonical_universes(),
            canonical: Canonical { binders, value: value1 },
        };
        (quantified, universes)
    }
}

} // verus!
