//! Substitution of binder-bound variables, and the instantiators built
//! on it.
//!
//! `subst_*` replaces the first `n` free variables of a value with the
//! `n` given parameters, where `n` is the number of binders being
//! removed: a free `Var(d)` under `b` traversal binders with
//! `d - b < n` becomes the parameter at position `d - b`, shifted up by
//! `b`; a free variable past the binders loses `n` from its depth,
//! accounting for the binders just removed.  Existential instantiation
//! substitutes fresh inference variables; universal instantiation
//! substitutes skolem constants in fresh universes.

use vstd::prelude::*;

use crate::ir::{
    ApplicationTy, ApplicationTyV, Const, ConstV, Constraint, ConstraintV, DomainGoal, DomainGoalV,
    EqGoal, EqGoalV, FromEnv, FromEnvV, Goal, GoalV, LeafGoal, LeafGoalV, Lifetime, LifetimeV,
    Normalize, NormalizeV, Parameter, ParameterV, ParamKind, ProgramClause,
    ProgramClauseImplication, ProgramClauseImplicationV, ProgramClauseV, ProjectionEq,
    ProjectionEqV, ProjectionTy, ProjectionTyV, Ty, TyV, TraitRef, TraitRefV, UnselectedNormalize,
    UnselectedNormalizeV, UnselectedProjectionTy, UnselectedProjectionTyV, WellFormed, WellFormedV,
    clause_view, clauses_view, constraint_view, constraints_view, goal_view, goals_view,
    lemma_clauses_view, lemma_goals_view, lemma_params_view, param_view, params_view,
};
use crate::clone_impls::clone_param_kinds;
use crate::shift::{shift_up_param, up_fits_param, up_shift_param_at};

verus! {

// ---------------------------------------------------------------------------
// Specification.
//
// The variable cases whose kinds disagree with the parameter list are
// don't-care arms (they leave the variable in place); the executable
// functions require `inst_ok_*`, which rules them out.
// ---------------------------------------------------------------------------

pub open spec fn subst_ty(ps: Seq<ParameterV>, t: TyV, b: nat) -> TyV
    decreases t,
{
    match t {
        TyV::Var(d) => if d < b {
            TyV::Var(d)
        } else if d - b < ps.len() {
            match ps[d - b] {
                ParameterV::Ty(pt) => shift_up_param_ty(pt, b),
                _ => TyV::Var(d),
            }
        } else {
            TyV::Var((d - ps.len()) as nat)
        },
        TyV::Apply(a) => TyV::Apply(
            ApplicationTyV { name: a.name, parameters: subst_params(ps, a.parameters, b) },
        ),
        TyV::Projection(p) => TyV::Projection(
            ProjectionTyV {
                associated_ty_id: p.associated_ty_id,
                parameters: subst_params(ps, p.parameters, b),
            },
        ),
        TyV::UnselectedProjection(p) => TyV::UnselectedProjection(
            UnselectedProjectionTyV {
                head_name: p.head_name,
                parameters: subst_params(ps, p.parameters, b),
            },
        ),
        TyV::ForAll(nb, ty) => TyV::ForAll(nb, Box::new(subst_ty(ps, *ty, b + nb))),
    }
}

/// Shifting the type payload of a parameter; a helper for the variable
/// case above.
pub open spec fn shift_up_param_ty(t: TyV, b: nat) -> TyV {
    crate::shift::shift_up_ty(t, 0, b)
}

pub open spec fn subst_lifetime(ps: Seq<ParameterV>, l: LifetimeV, b: nat) -> LifetimeV {
    match l {
        LifetimeV::Var(d) => if d < b {
            LifetimeV::Var(d)
        } else if d - b < ps.len() {
            match ps[d - b] {
                ParameterV::Lifetime(pl) => crate::shift::shift_up_lifetime(pl, 0, b),
                _ => LifetimeV::Var(d),
            }
        } else {
            LifetimeV::Var((d - ps.len()) as nat)
        },
        LifetimeV::ForAll(u) => LifetimeV::ForAll(u),
    }
}

pub open spec fn subst_const(ps: Seq<ParameterV>, c: ConstV, b: nat) -> ConstV {
    match c {
        ConstV::Var(d) => if d < b {
            ConstV::Var(d)
        } else if d - b < ps.len() {
            match ps[d - b] {
                ParameterV::Const(pc) => crate::shift::shift_up_const(pc, 0, b),
                _ => ConstV::Var(d),
            }
        } else {
            ConstV::Var((d - ps.len()) as nat)
        },
    }
}

pub open spec fn subst_param(ps: Seq<ParameterV>, p: ParameterV, b: nat) -> ParameterV
    decreases p,
{
    match p {
        ParameterV::Ty(t) => ParameterV::Ty(subst_ty(ps, t, b)),
        ParameterV::Lifetime(l) => ParameterV::Lifetime(subst_lifetime(ps, l, b)),
        ParameterV::Const(c) => ParameterV::Const(subst_const(ps, c, b)),
    }
}

pub open spec fn subst_params(ps: Seq<ParameterV>, target: Seq<ParameterV>, b: nat) -> Seq<
    ParameterV,
>
    decreases target,
{
    if target.len() == 0 {
        Seq::empty()
    } else {
        subst_params(ps, target.drop_last(), b).push(subst_param(ps, target.last(), b))
    }
}

pub open spec fn subst_trait_ref(ps: Seq<ParameterV>, t: TraitRefV, b: nat) -> TraitRefV {
    TraitRefV { trait_id: t.trait_id, parameters: subst_params(ps, t.parameters, b) }
}

pub open spec fn subst_projection(ps: Seq<ParameterV>, p: ProjectionTyV, b: nat) -> ProjectionTyV {
    ProjectionTyV {
        associated_ty_id: p.associated_ty_id,
        parameters: subst_params(ps, p.parameters, b),
    }
}

pub open spec fn subst_unselected_projection(
    ps: Seq<ParameterV>,
    p: UnselectedProjectionTyV,
    b: nat,
) -> UnselectedProjectionTyV {
    UnselectedProjectionTyV { head_name: p.head_name, parameters: subst_params(ps, p.parameters, b) }
}

pub open spec fn subst_well_formed(ps: Seq<ParameterV>, w: WellFormedV, b: nat) -> WellFormedV {
    match w {
        WellFormedV::Ty(t) => WellFormedV::Ty(subst_ty(ps, t, b)),
        WellFormedV::TraitRef(t) => WellFormedV::TraitRef(subst_trait_ref(ps, t, b)),
        WellFormedV::ProjectionEq(n) => WellFormedV::ProjectionEq(
            ProjectionEqV {
                projection: subst_projection(ps, n.projection, b),
                ty: subst_ty(ps, n.ty, b),
            },
        ),
    }
}

pub open spec fn subst_from_env(ps: Seq<ParameterV>, w: FromEnvV, b: nat) -> FromEnvV {
    match w {
        FromEnvV::Ty(t) => FromEnvV::Ty(subst_ty(ps, t, b)),
        FromEnvV::TraitRef(t) => FromEnvV::TraitRef(subst_trait_ref(ps, t, b)),
        FromEnvV::ProjectionEq(n) => FromEnvV::ProjectionEq(
            ProjectionEqV {
                projection: subst_projection(ps, n.projection, b),
                ty: subst_ty(ps, n.ty, b),
            },
        ),
    }
}

pub open spec fn subst_domain_goal(ps: Seq<ParameterV>, g: DomainGoalV, b: nat) -> DomainGoalV {
    match g {
        DomainGoalV::Implemented(t) => DomainGoalV::Implemented(subst_trait_ref(ps, t, b)),
        DomainGoalV::Normalize(n) => DomainGoalV::Normalize(
            NormalizeV {
                projection: subst_projection(ps, n.projection, b),
                ty: subst_ty(ps, n.ty, b),
            },
        ),
        DomainGoalV::ProjectionEq(n) => DomainGoalV::ProjectionEq(
            ProjectionEqV {
                projection: subst_projection(ps, n.projection, b),
                ty: subst_ty(ps, n.ty, b),
            },
        ),
        DomainGoalV::UnselectedNormalize(n) => DomainGoalV::UnselectedNormalize(
            UnselectedNormalizeV {
                projection: subst_unselected_projection(ps, n.projection, b),
                ty: subst_ty(ps, n.ty, b),
            },
        ),
        DomainGoalV::WellFormed(w) => DomainGoalV::WellFormed(subst_well_formed(ps, w, b)),
        DomainGoalV::FromEnv(w) => DomainGoalV::FromEnv(subst_from_env(ps, w, b)),
        DomainGoalV::InScope(id) => DomainGoalV::InScope(id),
    }
}

pub open spec fn subst_leaf_goal(ps: Seq<ParameterV>, g: LeafGoalV, b: nat) -> LeafGoalV {
    match g {
        LeafGoalV::EqGoal(e) => LeafGoalV::EqGoal(
            EqGoalV { a: subst_param(ps, e.a, b), b: subst_param(ps, e.b, b) },
        ),
        LeafGoalV::DomainGoal(d) => LeafGoalV::DomainGoal(subst_domain_goal(ps, d, b)),
    }
}

pub open spec fn subst_goal(ps: Seq<ParameterV>, g: GoalV, b: nat) -> GoalV
    decreases g,
{
    match g {
        GoalV::Quantified { qkind, binders, goal } => GoalV::Quantified {
            qkind,
            binders,
            goal: Box::new(subst_goal(ps, *goal, b + binders.len())),
        },
        GoalV::Implies(clauses, goal) => GoalV::Implies(
            subst_clauses(ps, clauses, b),
            Box::new(subst_goal(ps, *goal, b)),
        ),
        GoalV::And(g1, g2) => GoalV::And(
            Box::new(subst_goal(ps, *g1, b)),
            Box::new(subst_goal(ps, *g2, b)),
        ),
        GoalV::Not(g1) => GoalV::Not(Box::new(subst_goal(ps, *g1, b))),
        GoalV::Leaf(l) => GoalV::Leaf(subst_leaf_goal(ps, l, b)),
        GoalV::CannotProve => GoalV::CannotProve,
    }
}

pub open spec fn subst_goals(ps: Seq<ParameterV>, gs: Seq<GoalV>, b: nat) -> Seq<GoalV>
    decreases gs,
{
    if gs.len() == 0 {
        Seq::empty()
    } else {
        subst_goals(ps, gs.drop_last(), b).push(subst_goal(ps, gs.last(), b))
    }
}

pub open spec fn subst_implication(
    ps: Seq<ParameterV>,
    imp: ProgramClauseImplicationV,
    b: nat,
) -> ProgramClauseImplicationV {
    ProgramClauseImplicationV {
        consequence: subst_domain_goal(ps, imp.consequence, b),
        conditions: subst_goals(ps, imp.conditions, b),
    }
}

pub open spec fn subst_clause(ps: Seq<ParameterV>, c: ProgramClauseV, b: nat) -> ProgramClauseV
    decreases c,
{
    ProgramClauseV {
        binders: c.binders,
        implication: ProgramClauseImplicationV {
            consequence: subst_domain_goal(ps, c.implication.consequence, b + c.binders.len()),
            conditions: subst_goals(ps, c.implication.conditions, b + c.binders.len()),
        },
    }
}

pub open spec fn subst_clauses(ps: Seq<ParameterV>, cs: Seq<ProgramClauseV>, b: nat) -> Seq<
    ProgramClauseV,
>
    decreases cs,
{
    if cs.len() == 0 {
        Seq::empty()
    } else {
        subst_clauses(ps, cs.drop_last(), b).push(subst_clause(ps, cs.last(), b))
    }
}

pub open spec fn subst_constraint(ps: Seq<ParameterV>, c: ConstraintV, b: nat) -> ConstraintV {
    match c {
        ConstraintV::LifetimeEq(l1, l2) => ConstraintV::LifetimeEq(
            subst_lifetime(ps, l1, b),
            subst_lifetime(ps, l2, b),
        ),
    }
}

pub open spec fn subst_constraints(ps: Seq<ParameterV>, cs: Seq<ConstraintV>, b: nat) -> Seq<
    ConstraintV,
> {
    cs.map_values(|c: ConstraintV| subst_constraint(ps, c, b))
}

// ---------------------------------------------------------------------------
// The conditions under which the executable substitution cannot panic on
// a kind mismatch and cannot overflow a usize depth or binder counter.
// ---------------------------------------------------------------------------

pub open spec fn inst_ok_ty(ps: Seq<ParameterV>, t: TyV, b: nat) -> bool
    decreases t,
{
    match t {
        TyV::Var(d) => d < b || (if d - b < ps.len() {
            ps[d - b] is Ty && up_fits_param(ps[d - b], 0, b)
        } else {
            true
        }),
        TyV::Apply(a) => inst_ok_params(ps, a.parameters, b),
        TyV::Projection(p) => inst_ok_params(ps, p.parameters, b),
        TyV::UnselectedProjection(p) => inst_ok_params(ps, p.parameters, b),
        TyV::ForAll(nb, ty) => b + nb <= usize::MAX && inst_ok_ty(ps, *ty, b + nb),
    }
}

pub open spec fn inst_ok_lifetime(ps: Seq<ParameterV>, l: LifetimeV, b: nat) -> bool {
    match l {
        LifetimeV::Var(d) => d < b || (if d - b < ps.len() {
            ps[d - b] is Lifetime && up_fits_param(ps[d - b], 0, b)
        } else {
            true
        }),
        LifetimeV::ForAll(_) => true,
    }
}

pub open spec fn inst_ok_const(ps: Seq<ParameterV>, c: ConstV, b: nat) -> bool {
    match c {
        ConstV::Var(d) => d < b || (if d - b < ps.len() {
            ps[d - b] is Const && up_fits_param(ps[d - b], 0, b)
        } else {
            true
        }),
    }
}

pub open spec fn inst_ok_param(ps: Seq<ParameterV>, p: ParameterV, b: nat) -> bool
    decreases p,
{
    match p {
        ParameterV::Ty(t) => inst_ok_ty(ps, t, b),
        ParameterV::Lifetime(l) => inst_ok_lifetime(ps, l, b),
        ParameterV::Const(c) => inst_ok_const(ps, c, b),
    }
}

pub open spec fn inst_ok_params(ps: Seq<ParameterV>, target: Seq<ParameterV>, b: nat) -> bool
    decreases target,
{
    forall|i: int| 0 <= i < target.len() ==> inst_ok_param(ps, #[trigger] target[i], b)
}

pub open spec fn inst_ok_well_formed(ps: Seq<ParameterV>, w: WellFormedV, b: nat) -> bool {
    match w {
        WellFormedV::Ty(t) => inst_ok_ty(ps, t, b),
        WellFormedV::TraitRef(t) => inst_ok_params(ps, t.parameters, b),
        WellFormedV::ProjectionEq(n) => inst_ok_params(ps, n.projection.parameters, b)
            && inst_ok_ty(ps, n.ty, b),
    }
}

pub open spec fn inst_ok_from_env(ps: Seq<ParameterV>, w: FromEnvV, b: nat) -> bool {
    match w {
        FromEnvV::Ty(t) => inst_ok_ty(ps, t, b),
        FromEnvV::TraitRef(t) => inst_ok_params(ps, t.parameters, b),
        FromEnvV::ProjectionEq(n) => inst_ok_params(ps, n.projection.parameters, b) && inst_ok_ty(
            ps,
            n.ty,
            b,
        ),
    }
}

pub open spec fn inst_ok_domain_goal(ps: Seq<ParameterV>, g: DomainGoalV, b: nat) -> bool {
    match g {
        DomainGoalV::Implemented(t) => inst_ok_params(ps, t.parameters, b),
        DomainGoalV::Normalize(n) => inst_ok_params(ps, n.projection.parameters, b) && inst_ok_ty(
            ps,
            n.ty,
            b,
        ),
        DomainGoalV::ProjectionEq(n) => inst_ok_params(ps, n.projection.parameters, b)
            && inst_ok_ty(ps, n.ty, b),
        DomainGoalV::UnselectedNormalize(n) => inst_ok_params(ps, n.projection.parameters, b)
            && inst_ok_ty(ps, n.ty, b),
        DomainGoalV::WellFormed(w) => inst_ok_well_formed(ps, w, b),
        DomainGoalV::FromEnv(w) => inst_ok_from_env(ps, w, b),
        DomainGoalV::InScope(_) => true,
    }
}

pub open spec fn inst_ok_leaf_goal(ps: Seq<ParameterV>, g: LeafGoalV, b: nat) -> bool {
    match g {
        LeafGoalV::EqGoal(e) => inst_ok_param(ps, e.a, b) && inst_ok_param(ps, e.b, b),
        LeafGoalV::DomainGoal(d) => inst_ok_domain_goal(ps, d, b),
    }
}

pub open spec fn inst_ok_goal(ps: Seq<ParameterV>, g: GoalV, b: nat) -> bool
    decreases g,
{
    match g {
        GoalV::Quantified { qkind, binders, goal } => b + binders.len() <= usize::MAX
            && inst_ok_goal(ps, *goal, b + binders.len()),
        GoalV::Implies(clauses, goal) => inst_ok_clauses(ps, clauses, b) && inst_ok_goal(
            ps,
            *goal,
            b,
        ),
        GoalV::And(g1, g2) => inst_ok_goal(ps, *g1, b) && inst_ok_goal(ps, *g2, b),
        GoalV::Not(g1) => inst_ok_goal(ps, *g1, b),
        GoalV::Leaf(l) => inst_ok_leaf_goal(ps, l, b),
        GoalV::CannotProve => true,
    }
}

pub open spec fn inst_ok_goals(ps: Seq<ParameterV>, gs: Seq<GoalV>, b: nat) -> bool
    decreases gs,
{
    forall|i: int| 0 <= i < gs.len() ==> inst_ok_goal(ps, #[trigger] gs[i], b)
}

pub open spec fn inst_ok_clause(ps: Seq<ParameterV>, c: ProgramClauseV, b: nat) -> bool
    decreases c,
{
    &&& b + c.binders.len() <= usize::MAX
    &&& inst_ok_domain_goal(ps, c.implication.consequence, b + c.binders.len())
    &&& inst_ok_goals(ps, c.implication.conditions, b + c.binders.len())
}

pub open spec fn inst_ok_clauses(ps: Seq<ParameterV>, cs: Seq<ProgramClauseV>, b: nat) -> bool
    decreases cs,
{
    forall|i: int| 0 <= i < cs.len() ==> inst_ok_clause(ps, #[trigger] cs[i], b)
}

pub open spec fn inst_ok_constraint(ps: Seq<ParameterV>, c: ConstraintV, b: nat) -> bool {
    match c {
        ConstraintV::LifetimeEq(l1, l2) => inst_ok_lifetime(ps, l1, b) && inst_ok_lifetime(
            ps,
            l2,
            b,
        ),
    }
}

pub open spec fn inst_ok_constraints(ps: Seq<ParameterV>, cs: Seq<ConstraintV>, b: nat) -> bool {
    forall|i: int| 0 <= i < cs.len() ==> inst_ok_constraint(ps, #[trigger] cs[i], b)
}

pub open spec fn inst_ok_implication(
    ps: Seq<ParameterV>,
    imp: ProgramClauseImplicationV,
    b: nat,
) -> bool {
    inst_ok_domain_goal(ps, imp.consequence, b) && inst_ok_goals(ps, imp.conditions, b)
}

// ---------------------------------------------------------------------------
// Pointwise shape of the sequence substitutions.
// ---------------------------------------------------------------------------

pub proof fn lemma_subst_params(ps: Seq<ParameterV>, target: Seq<ParameterV>, b: nat)
    ensures
        subst_params(ps, target, b).len() == target.len(),
        forall|i: int|
            0 <= i < target.len() ==> subst_params(ps, target, b)[i] == subst_param(
                ps,
                target[i],
                b,
            ),
    decreases target,
{
    if target.len() > 0 {
        lemma_subst_params(ps, target.drop_last(), b);
    }
}

pub proof fn lemma_subst_goals(ps: Seq<ParameterV>, gs: Seq<GoalV>, b: nat)
    ensures
        subst_goals(ps, gs, b).len() == gs.len(),
        forall|i: int| 0 <= i < gs.len() ==> subst_goals(ps, gs, b)[i] == subst_goal(ps, gs[i], b),
    decreases gs,
{
    if gs.len() > 0 {
        lemma_subst_goals(ps, gs.drop_last(), b);
    }
}

pub proof fn lemma_subst_clauses(ps: Seq<ParameterV>, cs: Seq<ProgramClauseV>, b: nat)
    ensures
        subst_clauses(ps, cs, b).len() == cs.len(),
        forall|i: int|
            0 <= i < cs.len() ==> subst_clauses(ps, cs, b)[i] == subst_clause(ps, cs[i], b),
    decreases cs,
{
    if cs.len() > 0 {
        lemma_subst_clauses(ps, cs.drop_last(), b);
    }
}

// ---------------------------------------------------------------------------
// Executable substitution.
// ---------------------------------------------------------------------------

pub fn apply_subst_ty(ps: &Vec<Parameter>, t: &Ty, b: usize) -> (r: Ty)
    requires
        inst_ok_ty(params_view(ps@), t@, b as nat),
    ensures
        r@ == subst_ty(params_view(ps@), t@, b as nat),
    decreases *t,
{
    proof {
        lemma_params_view(ps@);
    }
    match t {
        Ty::Var(d) => {
            if *d < b {
                Ty::Var(*d)
            } else if *d - b < ps.len() {
                match &ps[*d - b] {
                    Parameter::Ty(pt) => up_shift_ty_pub(pt, b),
                    _ => {
                        proof {
                            assert(false);
                        }
                        Ty::Var(*d)
                    },
                }
            } else {
                Ty::Var(*d - ps.len())
            }
        },
        Ty::Apply(a) => Ty::Apply(
            ApplicationTy { name: a.name, parameters: apply_subst_params(ps, &a.parameters, b) },
        ),
        Ty::Projection(p) => Ty::Projection(
            ProjectionTy {
                associated_ty_id: p.associated_ty_id,
                parameters: apply_subst_params(ps, &p.parameters, b),
            },
        ),
        Ty::UnselectedProjection(p) => Ty::UnselectedProjection(
            UnselectedProjectionTy {
                head_name: p.head_name,
                parameters: apply_subst_params(ps, &p.parameters, b),
            },
        ),
        Ty::ForAll { num_binders, ty } => Ty::ForAll {
            num_binders: *num_binders,
            ty: Box::new(apply_subst_ty(ps, &**ty, b + *num_binders)),
        },
    }
}

fn up_shift_ty_pub(t: &Ty, b: usize) -> (r: Ty)
    requires
        crate::shift::up_fits_ty(t@, 0, b as nat),
    ensures
        r@ == crate::shift::shift_up_ty(t@, 0, b as nat),
{
    crate::shift::up_shift_ty_at(t, 0, b)
}

pub fn apply_subst_lifetime(ps: &Vec<Parameter>, l: &Lifetime, b: usize) -> (r: Lifetime)
    requires
        inst_ok_lifetime(params_view(ps@), l@, b as nat),
    ensures
        r@ == subst_lifetime(params_view(ps@), l@, b as nat),
{
    proof {
        lemma_params_view(ps@);
    }
    match l {
        Lifetime::Var(d) => {
            if *d < b {
                Lifetime::Var(*d)
            } else if *d - b < ps.len() {
                match &ps[*d - b] {
                    Parameter::Lifetime(pl) => crate::shift::up_shift_lifetime_at(pl, 0, b),
                    _ => {
                        proof {
                            assert(false);
                        }
                        Lifetime::Var(*d)
                    },
                }
            } else {
                Lifetime::Var(*d - ps.len())
            }
        },
        Lifetime::ForAll(u) => Lifetime::ForAll(*u),
    }
}

pub fn apply_subst_const(ps: &Vec<Parameter>, c: &Const, b: usize) -> (r: Const)
    requires
        inst_ok_const(params_view(ps@), c@, b as nat),
    ensures
        r@ == subst_const(params_view(ps@), c@, b as nat),
{
    proof {
        lemma_params_view(ps@);
    }
    match c {
        Const::Var(d) => {
            if *d < b {
                Const::Var(*d)
            } else if *d - b < ps.len() {
                match &ps[*d - b] {
                    Parameter::Const(pc) => crate::shift::up_shift_const_at(pc, 0, b),
                    _ => {
                        proof {
                            assert(false);
                        }
                        Const::Var(*d)
                    },
                }
            } else {
                Const::Var(*d - ps.len())
            }
        },
    }
}

pub fn apply_subst_param(ps: &Vec<Parameter>, p: &Parameter, b: usize) -> (r: Parameter)
    requires
        inst_ok_param(params_view(ps@), p@, b as nat),
    ensures
        r@ == subst_param(params_view(ps@), p@, b as nat),
    decreases *p,
{
    match p {
        Parameter::Ty(t) => Parameter::Ty(apply_subst_ty(ps, t, b)),
        Parameter::Lifetime(l) => Parameter::Lifetime(apply_subst_lifetime(ps, l, b)),
        Parameter::Const(c) => Parameter::Const(apply_subst_const(ps, c, b)),
    }
}

pub fn apply_subst_params(ps: &Vec<Parameter>, target: &Vec<Parameter>, b: usize) -> (r: Vec<
    Parameter,
>)
    requires
        inst_ok_params(params_view(ps@), params_view(target@), b as nat),
    ensures
        params_view(r@) == subst_params(params_view(ps@), params_view(target@), b as nat),
    decreases *target,
{
    proof {
        lemma_params_view(target@);
    }
    let mut out: Vec<Parameter> = Vec::new();
    let mut i: usize = 0;
    while i < target.len()
        invariant
            i <= target@.len(),
            out@.len() == i,
            inst_ok_params(params_view(ps@), params_view(target@), b as nat),
            params_view(target@).len() == target@.len(),
            forall|j: int| 0 <= j < target@.len() ==> params_view(target@)[j] == param_view(
                target@[j],
            ),
            forall|j: int|
                0 <= j < i ==> param_view(out@[j]) == subst_param(
                    params_view(ps@),
                    param_view(target@[j]),
                    b as nat,
                ),
        decreases target@.len() - i,
    {
        proof {
            assert(inst_ok_param(params_view(ps@), params_view(target@)[i as int], b as nat));
        }
        out.push(apply_subst_param(ps, &target[i], b));
        i += 1;
    }
    proof {
        lemma_params_view(out@);
        lemma_subst_params(params_view(ps@), params_view(target@), b as nat);
        assert(params_view(out@) =~= subst_params(
            params_view(ps@),
            params_view(target@),
            b as nat,
        ));
    }
    out
}

pub fn apply_subst_projection(ps: &Vec<Parameter>, p: &ProjectionTy, b: usize) -> (r: ProjectionTy)
    requires
        inst_ok_params(params_view(ps@), projection_view_params(*p), b as nat),
    ensures
        crate::ir::projection_view(r) == subst_projection(
            params_view(ps@),
            crate::ir::projection_view(*p),
            b as nat,
        ),
    decreases *p,
{
    ProjectionTy {
        associated_ty_id: p.associated_ty_id,
        parameters: apply_subst_params(ps, &p.parameters, b),
    }
}

/// The parameter list of a projection, as the `inst_ok` conditions name it.
pub open spec fn projection_view_params(p: ProjectionTy) -> Seq<ParameterV> {
    crate::ir::projection_view(p).parameters
}

pub fn apply_subst_trait_ref(ps: &Vec<Parameter>, t: &TraitRef, b: usize) -> (r: TraitRef)
    requires
        inst_ok_params(params_view(ps@), crate::ir::trait_ref_view(*t).parameters, b as nat),
    ensures
        crate::ir::trait_ref_view(r) == subst_trait_ref(
            params_view(ps@),
            crate::ir::trait_ref_view(*t),
            b as nat,
        ),
    decreases *t,
{
    TraitRef { trait_id: t.trait_id, parameters: apply_subst_params(ps, &t.parameters, b) }
}

pub fn apply_subst_domain_goal(ps: &Vec<Parameter>, g: &DomainGoal, b: usize) -> (r: DomainGoal)
    requires
        inst_ok_domain_goal(params_view(ps@), g@, b as nat),
    ensures
        r@ == subst_domain_goal(params_view(ps@), g@, b as nat),
    decreases *g,
{
    match g {
        DomainGoal::Implemented(t) => DomainGoal::Implemented(apply_subst_trait_ref(ps, t, b)),
        DomainGoal::Normalize(n) => DomainGoal::Normalize(
            Normalize {
                projection: apply_subst_projection(ps, &n.projection, b),
                ty: apply_subst_ty(ps, &n.ty, b),
            },
        ),
        DomainGoal::ProjectionEq(n) => DomainGoal::ProjectionEq(
            ProjectionEq {
                projection: apply_subst_projection(ps, &n.projection, b),
                ty: apply_subst_ty(ps, &n.ty, b),
            },
        ),
        DomainGoal::UnselectedNormalize(n) => DomainGoal::UnselectedNormalize(
            UnselectedNormalize {
                projection: UnselectedProjectionTy {
                    head_name: n.projection.head_name,
                    parameters: apply_subst_params(ps, &n.projection.parameters, b),
                },
                ty: apply_subst_ty(ps, &n.ty, b),
            },
        ),
        DomainGoal::WellFormed(w) => DomainGoal::WellFormed(apply_subst_well_formed(ps, w, b)),
        DomainGoal::FromEnv(w) => DomainGoal::FromEnv(apply_subst_from_env(ps, w, b)),
        DomainGoal::InScope(id) => DomainGoal::InScope(*id),
    }
}

pub fn apply_subst_well_formed(ps: &Vec<Parameter>, w: &WellFormed, b: usize) -> (r: WellFormed)
    requires
        inst_ok_well_formed(params_view(ps@), crate::ir::well_formed_view(*w), b as nat),
    ensures
        crate::ir::well_formed_view(r) == subst_well_formed(
            params_view(ps@),
            crate::ir::well_formed_view(*w),
            b as nat,
        ),
    decreases *w,
{
    match w {
        WellFormed::Ty(t) => WellFormed::Ty(apply_subst_ty(ps, t, b)),
        WellFormed::TraitRef(t) => WellFormed::TraitRef(apply_subst_trait_ref(ps, t, b)),
        WellFormed::ProjectionEq(n) => WellFormed::ProjectionEq(
            ProjectionEq {
                projection: apply_subst_projection(ps, &n.projection, b),
                ty: apply_subst_ty(ps, &n.ty, b),
            },
        ),
    }
}

pub fn apply_subst_from_env(ps: &Vec<Parameter>, w: &FromEnv, b: usize) -> (r: FromEnv)
    requires
        inst_ok_from_env(params_view(ps@), crate::ir::from_env_view(*w), b as nat),
    ensures
        crate::ir::from_env_view(r) == subst_from_env(
            params_view(ps@),
            crate::ir::from_env_view(*w),
            b as nat,
        ),
    decreases *w,
{
    match w {
        FromEnv::Ty(t) => FromEnv::Ty(apply_subst_ty(ps, t, b)),
        FromEnv::TraitRef(t) => FromEnv::TraitRef(apply_subst_trait_ref(ps, t, b)),
        FromEnv::ProjectionEq(n) => FromEnv::ProjectionEq(
            ProjectionEq {
                projection: apply_subst_projection(ps, &n.projection, b),
                ty: apply_subst_ty(ps, &n.ty, b),
            },
        ),
    }
}

pub fn apply_subst_leaf_goal(ps: &Vec<Parameter>, g: &LeafGoal, b: usize) -> (r: LeafGoal)
    requires
        inst_ok_leaf_goal(params_view(ps@), crate::ir::leaf_goal_view(*g), b as nat),
    ensures
        crate::ir::leaf_goal_view(r) == subst_leaf_goal(
            params_view(ps@),
            crate::ir::leaf_goal_view(*g),
            b as nat,
        ),
    decreases *g,
{
    match g {
        LeafGoal::EqGoal(e) => LeafGoal::EqGoal(
            EqGoal { a: apply_subst_param(ps, &e.a, b), b: apply_subst_param(ps, &e.b, b) },
        ),
        LeafGoal::DomainGoal(d) => LeafGoal::DomainGoal(apply_subst_domain_goal(ps, d, b)),
    }
}

pub fn apply_subst_goal(ps: &Vec<Parameter>, g: &Goal, b: usize) -> (r: Goal)
    requires
        inst_ok_goal(params_view(ps@), g@, b as nat),
    ensures
        r@ == subst_goal(params_view(ps@), g@, b as nat),
    decreases *g,
{
    match g {
        Goal::Quantified { qkind, binders, goal } => {
            let bs = clone_param_kinds(binders);
            Goal::Quantified {
                qkind: *qkind,
                binders: bs,
                goal: Box::new(apply_subst_goal(ps, &**goal, b + binders.len())),
            }
        },
        Goal::Implies(clauses, goal) => Goal::Implies(
            apply_subst_clauses(ps, clauses, b),
            Box::new(apply_subst_goal(ps, &**goal, b)),
        ),
        Goal::And(g1, g2) => Goal::And(
            Box::new(apply_subst_goal(ps, &**g1, b)),
            Box::new(apply_subst_goal(ps, &**g2, b)),
        ),
        Goal::Not(g1) => Goal::Not(Box::new(apply_subst_goal(ps, &**g1, b))),
        Goal::Leaf(l) => Goal::Leaf(apply_subst_leaf_goal(ps, l, b)),
        Goal::CannotProve => Goal::CannotProve,
    }
}

pub fn apply_subst_goals(ps: &Vec<Parameter>, gs: &Vec<Goal>, b: usize) -> (r: Vec<Goal>)
    requires
        inst_ok_goals(params_view(ps@), goals_view(gs@), b as nat),
    ensures
        goals_view(r@) == subst_goals(params_view(ps@), goals_view(gs@), b as nat),
        r@.len() == gs@.len(),
    decreases *gs,
{
    proof {
        lemma_goals_view(gs@);
    }
    let mut out: Vec<Goal> = Vec::new();
    let mut i: usize = 0;
    while i < gs.len()
        invariant
            i <= gs@.len(),
            out@.len() == i,
            inst_ok_goals(params_view(ps@), goals_view(gs@), b as nat),
            goals_view(gs@).len() == gs@.len(),
            forall|j: int| 0 <= j < gs@.len() ==> goals_view(gs@)[j] == goal_view(gs@[j]),
            forall|j: int|
                0 <= j < i ==> goal_view(out@[j]) == subst_goal(
                    params_view(ps@),
                    goal_view(gs@[j]),
                    b as nat,
                ),
        decreases gs@.len() - i,
    {
        proof {
            assert(inst_ok_goal(params_view(ps@), goals_view(gs@)[i as int], b as nat));
        }
        out.push(apply_subst_goal(ps, &gs[i], b));
        i += 1;
    }
    proof {
        lemma_goals_view(out@);
        lemma_subst_goals(params_view(ps@), goals_view(gs@), b as nat);
        assert(goals_view(out@) =~= subst_goals(params_view(ps@), goals_view(gs@), b as nat));
    }
    out
}

pub fn apply_subst_clause(ps: &Vec<Parameter>, c: &ProgramClause, b: usize) -> (r: ProgramClause)
    requires
        inst_ok_clause(params_view(ps@), c@, b as nat),
    ensures
        r@ == subst_clause(params_view(ps@), c@, b as nat),
    decreases *c,
{
    let bs = clone_param_kinds(&c.binders);
    let inner = b + c.binders.len();
    ProgramClause {
        binders: bs,
        implication: ProgramClauseImplication {
            consequence: apply_subst_domain_goal(ps, &c.implication.consequence, inner),
            conditions: apply_subst_goals(ps, &c.implication.conditions, inner),
        },
    }
}

pub fn apply_subst_clauses(ps: &Vec<Parameter>, cs: &Vec<ProgramClause>, b: usize) -> (r: Vec<
    ProgramClause,
>)
    requires
        inst_ok_clauses(params_view(ps@), clauses_view(cs@), b as nat),
    ensures
        clauses_view(r@) == subst_clauses(params_view(ps@), clauses_view(cs@), b as nat),
        r@.len() == cs@.len(),
    decreases *cs,
{
    proof {
        lemma_clauses_view(cs@);
    }
    let mut out: Vec<ProgramClause> = Vec::new();
    let mut i: usize = 0;
    while i < cs.len()
        invariant
            i <= cs@.len(),
            out@.len() == i,
            inst_ok_clauses(params_view(ps@), clauses_view(cs@), b as nat),
            clauses_view(cs@).len() == cs@.len(),
            forall|j: int| 0 <= j < cs@.len() ==> clauses_view(cs@)[j] == clause_view(cs@[j]),
            forall|j: int|
                0 <= j < i ==> clause_view(out@[j]) == subst_clause(
                    params_view(ps@),
                    clause_view(cs@[j]),
                    b as nat,
                ),
        decreases cs@.len() - i,
    {
        proof {
            assert(inst_ok_clause(params_view(ps@), clauses_view(cs@)[i as int], b as nat));
        }
        out.push(apply_subst_clause(ps, &cs[i], b));
        i += 1;
    }
    proof {
        lemma_clauses_view(out@);
        lemma_subst_clauses(params_view(ps@), clauses_view(cs@), b as nat);
        assert(clauses_view(out@) =~= subst_clauses(params_view(ps@), clauses_view(cs@), b as nat));
    }
    out
}

pub fn apply_subst_constraints(ps: &Vec<Parameter>, cs: &Vec<Constraint>, b: usize) -> (r: Vec<
    Constraint,
>)
    requires
        inst_ok_constraints(params_view(ps@), constraints_view(cs@), b as nat),
    ensures
        constraints_view(r@) == subst_constraints(
            params_view(ps@),
            constraints_view(cs@),
            b as nat,
        ),
        r@.len() == cs@.len(),
{
    let mut out: Vec<Constraint> = Vec::new();
    let mut i: usize = 0;
    while i < cs.len()
        invariant
            i <= cs@.len(),
            out@.len() == i,
            inst_ok_constraints(params_view(ps@), constraints_view(cs@), b as nat),
            forall|j: int|
                0 <= j < i ==> constraint_view(out@[j]) == subst_constraint(
                    params_view(ps@),
                    constraint_view(cs@[j]),
                    b as nat,
                ),
        decreases cs@.len() - i,
    {
        proof {
            assert(constraints_view(cs@)[i as int] == constraint_view(cs@[i as int]));
            assert(inst_ok_constraint(params_view(ps@), constraints_view(cs@)[i as int], b as nat));
        }
        let c2 = match &cs[i] {
            Constraint::LifetimeEq(l1, l2) => Constraint::LifetimeEq(
                apply_subst_lifetime(ps, l1, b),
                apply_subst_lifetime(ps, l2, b),
            ),
        };
        out.push(c2);
        i += 1;
    }
    proof {
        assert(constraints_view(out@) =~= subst_constraints(
            params_view(ps@),
            constraints_view(cs@),
            b as nat,
        ));
    }
    out
}

pub fn apply_subst_implication(ps: &Vec<Parameter>, imp: &ProgramClauseImplication, b: usize) -> (r:
    ProgramClauseImplication)
    requires
        inst_ok_implication(params_view(ps@), implication_view(*imp), b as nat),
    ensures
        implication_view(r) == subst_implication(params_view(ps@), implication_view(*imp), b as nat),
    decreases *imp,
{
    ProgramClauseImplication {
        consequence: apply_subst_domain_goal(ps, &imp.consequence, b),
        conditions: apply_subst_goals(ps, &imp.conditions, b),
    }
}

/// The view of a clause body on its own, outside its binders.
pub open spec fn implication_view(imp: ProgramClauseImplication) -> ProgramClauseImplicationV {
    ProgramClauseImplicationV {
        consequence: crate::ir::domain_goal_view(imp.consequence),
        conditions: goals_view(imp.conditions@),
    }
}

} // verus!
