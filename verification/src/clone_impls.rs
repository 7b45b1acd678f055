//! Deep clones of the term language.
//!
//! Terms are persistent values: the engine copies them whenever a clause
//! or goal flows into a new X-clause.  Every clone returns a value with
//! the same mathematical view as its source.

use vstd::prelude::*;

use crate::ir::{
    ApplicationTy, Canonical, CanonicalVarKind, Const, ConstrainedSubst, Constraint,
    DelayedLiteral, DomainGoal, Environment, EqGoal, ExClause, FromEnv, Goal, InEnvironment,
    LeafGoal, Lifetime, Literal,
    Normalize, Parameter, ParamKind, ProgramClause, ProgramClauseImplication, ProjectionEq,
    ProjectionTy, Substitution, TraitRef, Ty, UnselectedNormalize, UnselectedProjectionTy,
    WellFormed, clause_view, clauses_view, delayed_literal_view, delayed_literals_view,
    from_env_view, goal_view, goals_view, leaf_goal_view, lemma_clauses_view, lemma_goals_view,
    lemma_params_view, literal_view, literals_view, param_view, params_view, projection_view,
    trait_ref_view, unselected_projection_view, well_formed_view,
};

verus! {

pub fn clone_params(ps: &Vec<Parameter>) -> (r: Vec<Parameter>)
    ensures
        params_view(r@) == params_view(ps@),
        r@.len() == ps@.len(),
    decreases *ps,
{
    let mut out: Vec<Parameter> = Vec::new();
    let mut i: usize = 0;
    while i < ps.len()
        invariant
            i <= ps@.len(),
            out@.len() == i,
            forall|j: int| 0 <= j < i ==> param_view(out@[j]) == param_view(ps@[j]),
        decreases ps@.len() - i,
    {
        out.push(clone_param(&ps[i]));
        i += 1;
    }
    proof {
        lemma_params_view(out@);
        lemma_params_view(ps@);
        assert(params_view(out@) =~= params_view(ps@));
    }
    out
}

pub fn clone_param(p: &Parameter) -> (r: Parameter)
    ensures
        r@ == p@,
    decreases *p,
{
    match p {
        Parameter::Ty(t) => Parameter::Ty(clone_ty(t)),
        Parameter::Lifetime(l) => Parameter::Lifetime(*l),
        Parameter::Const(c) => Parameter::Const(*c),
    }
}

pub fn clone_ty(t: &Ty) -> (r: Ty)
    ensures
        r@ == t@,
    decreases *t,
{
    match t {
        Ty::Var(d) => Ty::Var(*d),
        Ty::Apply(app) => Ty::Apply(
            ApplicationTy { name: app.name, parameters: clone_params(&app.parameters) },
        ),
        Ty::Projection(p) => Ty::Projection(
            ProjectionTy {
                associated_ty_id: p.associated_ty_id,
                parameters: clone_params(&p.parameters),
            },
        ),
        Ty::UnselectedProjection(p) => Ty::UnselectedProjection(
            UnselectedProjectionTy {
                head_name: p.head_name,
                parameters: clone_params(&p.parameters),
            },
        ),
        Ty::ForAll { num_binders, ty } => Ty::ForAll {
            num_binders: *num_binders,
            ty: Box::new(clone_ty(&**ty)),
        },
    }
}

pub fn clone_projection(p: &ProjectionTy) -> (r: ProjectionTy)
    ensures
        projection_view(r) == projection_view(*p),
    decreases *p,
{
    ProjectionTy { associated_ty_id: p.associated_ty_id, parameters: clone_params(&p.parameters) }
}

pub fn clone_unselected_projection(p: &UnselectedProjectionTy) -> (r: UnselectedProjectionTy)
    ensures
        unselected_projection_view(r) == unselected_projection_view(*p),
    decreases *p,
{
    UnselectedProjectionTy { head_name: p.head_name, parameters: clone_params(&p.parameters) }
}

pub fn clone_trait_ref(t: &TraitRef) -> (r: TraitRef)
    ensures
        trait_ref_view(r) == trait_ref_view(*t),
    decreases *t,
{
    TraitRef { trait_id: t.trait_id, parameters: clone_params(&t.parameters) }
}

pub fn clone_domain_goal(g: &DomainGoal) -> (r: DomainGoal)
    ensures
        r@ == g@,
    decreases *g,
{
    match g {
        DomainGoal::Implemented(tr) => DomainGoal::Implemented(clone_trait_ref(tr)),
        DomainGoal::Normalize(n) => DomainGoal::Normalize(
            Normalize { projection: clone_projection(&n.projection), ty: clone_ty(&n.ty) },
        ),
        DomainGoal::ProjectionEq(n) => DomainGoal::ProjectionEq(
            ProjectionEq { projection: clone_projection(&n.projection), ty: clone_ty(&n.ty) },
        ),
        DomainGoal::UnselectedNormalize(n) => DomainGoal::UnselectedNormalize(
            UnselectedNormalize {
                projection: clone_unselected_projection(&n.projection),
                ty: clone_ty(&n.ty),
            },
        ),
        DomainGoal::WellFormed(w) => DomainGoal::WellFormed(clone_well_formed(w)),
        DomainGoal::FromEnv(w) => DomainGoal::FromEnv(clone_from_env(w)),
        DomainGoal::InScope(id) => DomainGoal::InScope(*id),
    }
}

pub fn clone_well_formed(w: &WellFormed) -> (r: WellFormed)
    ensures
        well_formed_view(r) == well_formed_view(*w),
    decreases *w,
{
    match w {
        WellFormed::Ty(t) => WellFormed::Ty(clone_ty(t)),
        WellFormed::TraitRef(tr) => WellFormed::TraitRef(clone_trait_ref(tr)),
        WellFormed::ProjectionEq(n) => WellFormed::ProjectionEq(
            ProjectionEq { projection: clone_projection(&n.projection), ty: clone_ty(&n.ty) },
        ),
    }
}

pub fn clone_from_env(w: &FromEnv) -> (r: FromEnv)
    ensures
        from_env_view(r) == from_env_view(*w),
    decreases *w,
{
    match w {
        FromEnv::Ty(t) => FromEnv::Ty(clone_ty(t)),
        FromEnv::TraitRef(tr) => FromEnv::TraitRef(clone_trait_ref(tr)),
        FromEnv::ProjectionEq(n) => FromEnv::ProjectionEq(
            ProjectionEq { projection: clone_projection(&n.projection), ty: clone_ty(&n.ty) },
        ),
    }
}

pub fn clone_leaf_goal(g: &LeafGoal) -> (r: LeafGoal)
    ensures
        leaf_goal_view(r) == leaf_goal_view(*g),
    decreases *g,
{
    match g {
        LeafGoal::EqGoal(e) => LeafGoal::EqGoal(
            EqGoal { a: clone_param(&e.a), b: clone_param(&e.b) },
        ),
        LeafGoal::DomainGoal(d) => LeafGoal::DomainGoal(clone_domain_goal(d)),
    }
}

pub fn clone_goal(g: &Goal) -> (r: Goal)
    ensures
        r@ == g@,
    decreases *g,
{
    match g {
        Goal::Quantified { qkind, binders, goal } => {
            let mut bs: Vec<ParamKind> = Vec::new();
            let mut i: usize = 0;
            while i < binders.len()
                invariant
                    i <= binders@.len(),
                    bs@.len() == i,
                    forall|j: int| 0 <= j < i ==> bs@[j] == binders@[j],
                decreases binders@.len() - i,
            {
                bs.push(binders[i]);
                i += 1;
            }
            proof {
                assert(bs@ =~= binders@);
            }
            Goal::Quantified { qkind: *qkind, binders: bs, goal: Box::new(clone_goal(&**goal)) }
        },
        Goal::Implies(clauses, goal) => Goal::Implies(
            clone_clauses(clauses),
            Box::new(clone_goal(&**goal)),
        ),
        Goal::And(a, b) => Goal::And(Box::new(clone_goal(&**a)), Box::new(clone_goal(&**b))),
        Goal::Not(a) => Goal::Not(Box::new(clone_goal(&**a))),
        Goal::Leaf(l) => Goal::Leaf(clone_leaf_goal(l)),
        Goal::CannotProve => Goal::CannotProve,
    }
}

pub fn clone_goals(gs: &Vec<Goal>) -> (r: Vec<Goal>)
    ensures
        goals_view(r@) == goals_view(gs@),
        r@.len() == gs@.len(),
    decreases *gs,
{
    let mut out: Vec<Goal> = Vec::new();
    let mut i: usize = 0;
    while i < gs.len()
        invariant
            i <= gs@.len(),
            out@.len() == i,
            forall|j: int| 0 <= j < i ==> goal_view(out@[j]) == goal_view(gs@[j]),
        decreases gs@.len() - i,
    {
        out.push(clone_goal(&gs[i]));
        i += 1;
    }
    proof {
        lemma_goals_view(out@);
        lemma_goals_view(gs@);
        assert(goals_view(out@) =~= goals_view(gs@));
    }
    out
}

pub fn clone_param_kinds(ks: &Vec<ParamKind>) -> (r: Vec<ParamKind>)
    ensures
        r@ == ks@,
{
    let mut out: Vec<ParamKind> = Vec::new();
    let mut i: usize = 0;
    while i < ks.len()
        invariant
            i <= ks@.len(),
            out@.len() == i,
            forall|j: int| 0 <= j < i ==> out@[j] == ks@[j],
        decreases ks@.len() - i,
    {
        out.push(ks[i]);
        i += 1;
    }
    proof {
        assert(out@ =~= ks@);
    }
    out
}

pub fn clone_clause(c: &ProgramClause) -> (r: ProgramClause)
    ensures
        r@ == c@,
    decreases *c,
{
    ProgramClause {
        binders: clone_param_kinds(&c.binders),
        implication: ProgramClauseImplication {
            consequence: clone_domain_goal(&c.implication.consequence),
            conditions: clone_goals(&c.implication.conditions),
        },
    }
}

pub fn clone_clauses(cs: &Vec<ProgramClause>) -> (r: Vec<ProgramClause>)
    ensures
        clauses_view(r@) == clauses_view(cs@),
        r@.len() == cs@.len(),
    decreases *cs,
{
    let mut out: Vec<ProgramClause> = Vec::new();
    let mut i: usize = 0;
    while i < cs.len()
        invariant
            i <= cs@.len(),
            out@.len() == i,
            forall|j: int| 0 <= j < i ==> clause_view(out@[j]) == clause_view(cs@[j]),
        decreases cs@.len() - i,
    {
        out.push(clone_clause(&cs[i]));
        i += 1;
    }
    proof {
        lemma_clauses_view(out@);
        lemma_clauses_view(cs@);
        assert(clauses_view(out@) =~= clauses_view(cs@));
    }
    out
}

pub fn clone_environment(e: &Environment) -> (r: Environment)
    ensures
        r@ == e@,
{
    Environment { clauses: clone_clauses(&e.clauses) }
}

pub fn clone_substitution(s: &Substitution) -> (r: Substitution)
    ensures
        r@ == s@,
{
    Substitution { parameters: clone_params(&s.parameters) }
}

pub fn clone_constraints(cs: &Vec<Constraint>) -> (r: Vec<Constraint>)
    ensures
        r@ == cs@,
{
    let mut out: Vec<Constraint> = Vec::new();
    let mut i: usize = 0;
    while i < cs.len()
        invariant
            i <= cs@.len(),
            out@.len() == i,
            forall|j: int| 0 <= j < i ==> out@[j] == cs@[j],
        decreases cs@.len() - i,
    {
        out.push(cs[i]);
        i += 1;
    }
    proof {
        assert(out@ =~= cs@);
    }
    out
}

pub fn clone_constrained_subst(s: &ConstrainedSubst) -> (r: ConstrainedSubst)
    ensures
        r@ == s@,
{
    ConstrainedSubst {
        subst: clone_substitution(&s.subst),
        constraints: clone_constraints(&s.constraints),
    }
}

pub fn clone_var_kinds(ks: &Vec<CanonicalVarKind>) -> (r: Vec<CanonicalVarKind>)
    ensures
        r@ == ks@,
{
    let mut out: Vec<CanonicalVarKind> = Vec::new();
    let mut i: usize = 0;
    while i < ks.len()
        invariant
            i <= ks@.len(),
            out@.len() == i,
            forall|j: int| 0 <= j < i ==> out@[j] == ks@[j],
        decreases ks@.len() - i,
    {
        out.push(ks[i]);
        i += 1;
    }
    proof {
        assert(out@ =~= ks@);
    }
    out
}

pub fn clone_in_env_goal(g: &InEnvironment<Goal>) -> (r: InEnvironment<Goal>)
    ensures
        r@ == g@,
{
    InEnvironment { environment: clone_environment(&g.environment), goal: clone_goal(&g.goal) }
}

pub fn clone_literal(l: &Literal) -> (r: Literal)
    ensures
        literal_view(r) == literal_view(*l),
{
    match l {
        Literal::Positive(g) => Literal::Positive(clone_in_env_goal(g)),
        Literal::Negative(g) => Literal::Negative(clone_in_env_goal(g)),
    }
}

pub fn clone_literals(ls: &Vec<Literal>) -> (r: Vec<Literal>)
    ensures
        literals_view(r@) == literals_view(ls@),
        r@.len() == ls@.len(),
{
    let mut out: Vec<Literal> = Vec::new();
    let mut i: usize = 0;
    while i < ls.len()
        invariant
            i <= ls@.len(),
            out@.len() == i,
            forall|j: int| 0 <= j < i ==> literal_view(out@[j]) == literal_view(ls@[j]),
        decreases ls@.len() - i,
    {
        out.push(clone_literal(&ls[i]));
        i += 1;
    }
    proof {
        assert(literals_view(out@) =~= literals_view(ls@));
    }
    out
}

pub fn clone_delayed_literal(d: &DelayedLiteral) -> (r: DelayedLiteral)
    ensures
        delayed_literal_view(r) == delayed_literal_view(*d),
{
    match d {
        DelayedLiteral::CannotProve => DelayedLiteral::CannotProve,
        DelayedLiteral::Negative(i) => DelayedLiteral::Negative(*i),
        DelayedLiteral::Positive(i, c) => DelayedLiteral::Positive(
            *i,
            Canonical { binders: clone_var_kinds(&c.binders), value: clone_substitution(&c.value) },
        ),
    }
}

pub fn clone_delayed_literals(ds: &Vec<DelayedLiteral>) -> (r: Vec<DelayedLiteral>)
    ensures
        delayed_literals_view(r@) == delayed_literals_view(ds@),
        r@.len() == ds@.len(),
{
    let mut out: Vec<DelayedLiteral> = Vec::new();
    let mut i: usize = 0;
    while i < ds.len()
        invariant
            i <= ds@.len(),
            out@.len() == i,
            forall|j: int|
                0 <= j < i ==> delayed_literal_view(out@[j]) == delayed_literal_view(ds@[j]),
        decreases ds@.len() - i,
    {
        out.push(clone_delayed_literal(&ds[i]));
        i += 1;
    }
    proof {
        assert(delayed_literals_view(out@) =~= delayed_literals_view(ds@));
    }
    out
}

pub fn clone_ex_clause(e: &ExClause) -> (r: ExClause)
    ensures
        r@ == e@,
{
    ExClause {
        subst: clone_substitution(&e.subst),
        delayed_literals: clone_delayed_literals(&e.delayed_literals),
        constraints: clone_constraints(&e.constraints),
        subgoals: clone_literals(&e.subgoals),
    }
}

// ---------------------------------------------------------------------------
// `Clone` for the types that tests and callers copy directly.
// ---------------------------------------------------------------------------

impl Clone for Ty {
    fn clone(&self) -> (r: Self)
        ensures
            r@ == self@,
    {
        clone_ty(self)
    }
}

impl Clone for Parameter {
    fn clone(&self) -> (r: Self)
        ensures
            r@ == self@,
    {
        clone_param(self)
    }
}

impl Clone for Goal {
    fn clone(&self) -> (r: Self)
        ensures
            r@ == self@,
    {
        clone_goal(self)
    }
}

impl Clone for DomainGoal {
    fn clone(&self) -> (r: Self)
        ensures
            r@ == self@,
    {
        clone_domain_goal(self)
    }
}

impl Clone for ProgramClause {
    fn clone(&self) -> (r: Self)
        ensures
            r@ == self@,
    {
        clone_clause(self)
    }
}

impl Clone for Environment {
    fn clone(&self) -> (r: Self)
        ensures
            r@ == self@,
    {
        clone_environment(self)
    }
}

impl Clone for Substitution {
    fn clone(&self) -> (r: Self)
        ensures
            r@ == self@,
    {
        clone_substitution(self)
    }
}

impl Clone for ConstrainedSubst {
    fn clone(&self) -> (r: Self)
        ensures
            r@ == self@,
    {
        clone_constrained_subst(self)
    }
}

impl Clone for InEnvironment<Goal> {
    fn clone(&self) -> (r: Self)
        ensures
            r@ == self@,
    {
        clone_in_env_goal(self)
    }
}

impl Clone for ExClause {
    fn clone(&self) -> (r: Self)
        ensures
            r@ == self@,
    {
        clone_ex_clause(self)
    }
}

impl Clone for Literal {
    fn clone(&self) -> (r: Self)
        ensures
            literal_view(r) == literal_view(*self),
    {
        clone_literal(self)
    }
}

impl Clone for Canonical<Ty> {
    fn clone(&self) -> (r: Self)
        ensures
            r@ == self@,
    {
        Canonical { binders: clone_var_kinds(&self.binders), value: clone_ty(&self.value) }
    }
}

impl Clone for Canonical<ConstrainedSubst> {
    fn clone(&self) -> (r: Self)
        ensures
            r@ == self@,
    {
        Canonical {
            binders: clone_var_kinds(&self.binders),
            value: clone_constrained_subst(&self.value),
        }
    }
}

impl Clone for Canonical<InEnvironment<Goal>> {
    fn clone(&self) -> (r: Self)
        ensures
            r@ == self@,
    {
        Canonical { binders: clone_var_kinds(&self.binders), value: clone_in_env_goal(&self.value) }
    }
}

// ---------------------------------------------------------------------------
// Variable-store slots.
// ---------------------------------------------------------------------------

pub fn clone_ty_slots(vs: &Vec<crate::table::VarSlot<Ty>>) -> (r: Vec<crate::table::VarSlot<Ty>>)
    ensures
        r@.len() == vs@.len(),
        forall|i: int|
            0 <= i < vs@.len() ==> crate::table::ty_slot_view(r@[i]) == crate::table::ty_slot_view(
                vs@[i],
            ),
{
    let mut out: Vec<crate::table::VarSlot<Ty>> = Vec::new();
    let mut i: usize = 0;
    while i < vs.len()
        invariant
            i <= vs@.len(),
            out@.len() == i,
            forall|j: int|
                0 <= j < i ==> crate::table::ty_slot_view(out@[j]) == crate::table::ty_slot_view(
                    vs@[j],
                ),
        decreases vs@.len() - i,
    {
        let value = match &vs[i].value {
            Some(t) => Some(clone_ty(t)),
            None => None,
        };
        out.push(crate::table::VarSlot { universe: vs[i].universe, value });
        i += 1;
    }
    out
}

pub fn clone_lifetime_slots(vs: &Vec<crate::table::VarSlot<Lifetime>>) -> (r: Vec<
    crate::table::VarSlot<Lifetime>,
>)
    ensures
        r@.len() == vs@.len(),
        forall|i: int|
            0 <= i < vs@.len() ==> crate::table::lifetime_slot_view(r@[i])
                == crate::table::lifetime_slot_view(vs@[i]),
{
    let mut out: Vec<crate::table::VarSlot<Lifetime>> = Vec::new();
    let mut i: usize = 0;
    while i < vs.len()
        invariant
            i <= vs@.len(),
            out@.len() == i,
            forall|j: int|
                0 <= j < i ==> crate::table::lifetime_slot_view(out@[j])
                    == crate::table::lifetime_slot_view(vs@[j]),
        decreases vs@.len() - i,
    {
        out.push(crate::table::VarSlot { universe: vs[i].universe, value: vs[i].value });
        i += 1;
    }
    out
}

pub fn clone_const_slots(vs: &Vec<crate::table::VarSlot<Const>>) -> (r: Vec<
    crate::table::VarSlot<Const>,
>)
    ensures
        r@.len() == vs@.len(),
        forall|i: int|
            0 <= i < vs@.len() ==> crate::table::const_slot_view(r@[i])
                == crate::table::const_slot_view(vs@[i]),
{
    let mut out: Vec<crate::table::VarSlot<Const>> = Vec::new();
    let mut i: usize = 0;
    while i < vs.len()
        invariant
            i <= vs@.len(),
            out@.len() == i,
            forall|j: int|
                0 <= j < i ==> crate::table::const_slot_view(out@[j])
                    == crate::table::const_slot_view(vs@[j]),
        decreases vs@.len() - i,
    {
        out.push(crate::table::VarSlot { universe: vs[i].universe, value: vs[i].value });
        i += 1;
    }
    out
}

} // verus!
