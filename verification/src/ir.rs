//! The term language: types, lifetimes, consts, goals and clauses.
//!
//! Bound variables are de Bruijn indices counted from the innermost
//! binder; a `Var(d)` whose depth reaches past every enclosing binder is
//! free and names an existential variable of the inference table.
//! Universally introduced names appear as skolem constants `ForAll(u)`
//! tagged with the universe `u` in which they were created.
//!
//! Every executable type has a mathematical view (the `...V` types below,
//! built from `Seq` and `nat`); the contracts of the whole library speak
//! over those views.

use vstd::prelude::*;

verus! {

// ---------------------------------------------------------------------------
// Small identifier types.
// ---------------------------------------------------------------------------

/// A recoverable proof failure.  The strand of proof search that hit it
/// dies and the caller tries another clause; it never carries data.
#[derive(Clone, Copy, Debug, PartialEq, Eq, Structural)]
pub struct NoSolution;

/// The result of an operation that can fail with [`NoSolution`].
pub type Fallible<T> = Result<T, NoSolution>;

/// An ordered level tagging the visibility of skolem constants: an
/// existential variable in universe `u` may only be unified with terms
/// whose skolems live in universes `<= u`.
#[derive(Clone, Copy, Debug, PartialEq, Eq, Structural)]
pub struct UniverseIndex {
    pub counter: usize,
}

impl UniverseIndex {
    /// The root universe `U0`, visible to every existential variable.
    pub fn root() -> (r: UniverseIndex)
        ensures
            r.counter == 0,
    {
        UniverseIndex { counter: 0 }
    }

    /// The skolem lifetime of this universe.
    pub fn to_lifetime(self) -> (r: Lifetime)
        ensures
            r == Lifetime::ForAll(self),
    {
        Lifetime::ForAll(self)
    }
}

/// Identifies an item (nominal type, trait, or associated type) of the
/// program being reasoned about.
#[derive(Clone, Copy, Debug, PartialEq, Eq, Structural)]
pub struct ItemId {
    pub index: usize,
}

/// Interned name of an unselected projection segment.
#[derive(Clone, Copy, Debug, PartialEq, Eq, Structural)]
pub struct Identifier {
    pub index: usize,
}

/// An existential variable of the inference table, named by its index in
/// the per-kind variable store.
#[derive(Clone, Copy, Debug, PartialEq, Eq, Structural)]
pub struct InferenceVariable {
    pub index: usize,
}

impl InferenceVariable {
    /// The variable that a free `Var(depth)` under no binders refers to.
    pub fn from_depth(depth: usize) -> (r: InferenceVariable)
        ensures
            r.index == depth,
    {
        InferenceVariable { index: depth }
    }

    pub fn to_ty(self) -> (r: Ty)
        ensures
            r == Ty::Var(self.index),
    {
        Ty::Var(self.index)
    }

    pub fn to_lifetime(self) -> (r: Lifetime)
        ensures
            r == Lifetime::Var(self.index),
    {
        Lifetime::Var(self.index)
    }

    pub fn to_const(self) -> (r: Const)
        ensures
            r == Const::Var(self.index),
    {
        Const::Var(self.index)
    }
}

/// The closed set of kinds a parameter can have.
#[derive(Clone, Copy, Debug, PartialEq, Eq, Structural)]
pub enum ParamKind {
    Ty,
    Lifetime,
    Const,
}

/// Which quantifier a quantified goal carries.
#[derive(Clone, Copy, Debug, PartialEq, Eq, Structural)]
pub enum QuantifierKind {
    ForAll,
    Exists,
}

/// A binder entry of a canonical value: the kind of the bound existential
/// together with the universe it was canonicalized from.
#[derive(Clone, Copy, Debug, PartialEq, Eq, Structural)]
pub struct CanonicalVarKind {
    pub kind: ParamKind,
    pub universe: UniverseIndex,
}

// ---------------------------------------------------------------------------
// Types, lifetimes, consts, parameters.
// ---------------------------------------------------------------------------

/// Head of an applied type.
#[derive(Clone, Copy, Debug, PartialEq, Eq, Structural)]
pub enum TypeName {
    /// A nominal item of the program.
    ItemId(ItemId),
    /// A skolem constant born in the given universe.
    ForAll(UniverseIndex),
    /// An associated type item.
    AssociatedType(ItemId),
}

impl TypeName {
    /// The type applying this name to no parameters.
    pub fn to_ty(self) -> (r: Ty)
        ensures
            r@ == (TyV::Apply(
                ApplicationTyV { name: head_name_view(self), parameters: Seq::empty() },
            )),
    {
        let params: Vec<Parameter> = Vec::new();
        proof {
            assert(params_view(params@) =~= Seq::<ParameterV>::empty());
        }
        Ty::Apply(ApplicationTy { name: self, parameters: params })
    }
}

#[derive(Debug, PartialEq, Eq)]
pub struct ApplicationTy {
    pub name: TypeName,
    pub parameters: Vec<Parameter>,
}

#[derive(Debug, PartialEq, Eq)]
pub struct ProjectionTy {
    pub associated_ty_id: ItemId,
    pub parameters: Vec<Parameter>,
}

#[derive(Debug, PartialEq, Eq)]
pub struct UnselectedProjectionTy {
    pub head_name: Identifier,
    pub parameters: Vec<Parameter>,
}

#[derive(Debug, PartialEq, Eq)]
pub enum Ty {
    /// A bound or free variable, by de Bruijn depth.
    Var(usize),
    Apply(ApplicationTy),
    Projection(ProjectionTy),
    UnselectedProjection(UnselectedProjectionTy),
    /// A higher-ranked type `for<n> T`, binding `num_binders` type variables.
    ForAll { num_binders: usize, ty: Box<Ty> },
}

#[derive(Clone, Copy, Debug, PartialEq, Eq, Structural)]
pub enum Lifetime {
    Var(usize),
    ForAll(UniverseIndex),
}

#[derive(Clone, Copy, Debug, PartialEq, Eq, Structural)]
pub enum Const {
    Var(usize),
}

/// A parameter: a payload tagged with its kind.
#[derive(Debug, PartialEq, Eq)]
pub enum Parameter {
    Ty(Ty),
    Lifetime(Lifetime),
    Const(Const),
}

// ---------------------------------------------------------------------------
// Domain goals and goals.
// ---------------------------------------------------------------------------

/// A trait reference `P0: Trait<P1, ...>`; the first parameter is always
/// the `Self` type.
#[derive(Debug, PartialEq, Eq)]
pub struct TraitRef {
    pub trait_id: ItemId,
    pub parameters: Vec<Parameter>,
}

#[derive(Debug, PartialEq, Eq)]
pub struct Normalize {
    pub projection: ProjectionTy,
    pub ty: Ty,
}

#[derive(Debug, PartialEq, Eq)]
pub struct ProjectionEq {
    pub projection: ProjectionTy,
    pub ty: Ty,
}

#[derive(Debug, PartialEq, Eq)]
pub struct UnselectedNormalize {
    pub projection: UnselectedProjectionTy,
    pub ty: Ty,
}

#[derive(Debug, PartialEq, Eq)]
pub enum WellFormed {
    Ty(Ty),
    TraitRef(TraitRef),
    ProjectionEq(ProjectionEq),
}

#[derive(Debug, PartialEq, Eq)]
pub enum FromEnv {
    Ty(Ty),
    TraitRef(TraitRef),
    ProjectionEq(ProjectionEq),
}

#[derive(Debug, PartialEq, Eq)]
pub enum DomainGoal {
    Implemented(TraitRef),
    Normalize(Normalize),
    ProjectionEq(ProjectionEq),
    UnselectedNormalize(UnselectedNormalize),
    WellFormed(WellFormed),
    FromEnv(FromEnv),
    InScope(ItemId),
}

#[derive(Debug, PartialEq, Eq)]
pub struct EqGoal {
    pub a: Parameter,
    pub b: Parameter,
}

#[derive(Debug, PartialEq, Eq)]
pub enum LeafGoal {
    EqGoal(EqGoal),
    DomainGoal(DomainGoal),
}

#[derive(Debug, PartialEq, Eq)]
pub enum Goal {
    /// `forall<..> { g }` or `exists<..> { g }`, binding the listed kinds.
    Quantified { qkind: QuantifierKind, binders: Vec<ParamKind>, goal: Box<Goal> },
    Implies(Vec<ProgramClause>, Box<Goal>),
    And(Box<Goal>, Box<Goal>),
    Not(Box<Goal>),
    Leaf(LeafGoal),
    CannotProve,
}

/// The body of a program clause: `consequence :- conditions`.
#[derive(Debug, PartialEq, Eq)]
pub struct ProgramClauseImplication {
    pub consequence: DomainGoal,
    pub conditions: Vec<Goal>,
}

/// A program clause, universally quantified over `binders`.
#[derive(Debug, PartialEq, Eq)]
pub struct ProgramClause {
    pub binders: Vec<ParamKind>,
    pub implication: ProgramClauseImplication,
}

/// The clauses in scope at some point of the proof search, shared by
/// reference and never mutated.
#[derive(Debug, PartialEq, Eq)]
pub struct Environment {
    pub clauses: Vec<ProgramClause>,
}

/// A value paired with the environment it is to be proved in.
#[derive(Debug, PartialEq, Eq)]
pub struct InEnvironment<T> {
    pub environment: Environment,
    pub goal: T,
}

// ---------------------------------------------------------------------------
// Substitutions, constraints, canonical values.
// ---------------------------------------------------------------------------

/// An ordered list of parameters, indexed by existential variable index.
#[derive(Debug, PartialEq, Eq)]
pub struct Substitution {
    pub parameters: Vec<Parameter>,
}

/// A lifetime constraint produced by unification.
#[derive(Clone, Copy, Debug, PartialEq, Eq, Structural)]
pub enum Constraint {
    LifetimeEq(Lifetime, Lifetime),
}

/// A substitution together with the lifetime constraints under which it
/// holds.
#[derive(Debug, PartialEq, Eq)]
pub struct ConstrainedSubst {
    pub subst: Substitution,
    pub constraints: Vec<Constraint>,
}

/// A value whose free existentials have been renamed to the dense prefix
/// `?0, ?1, ...`; `binders[i]` records the kind and universe of `?i`.
#[derive(Debug, PartialEq, Eq)]
pub struct Canonical<T> {
    pub binders: Vec<CanonicalVarKind>,
    pub value: T,
}

/// A canonical value whose universes have additionally been renumbered to
/// the dense range `U0..U{universes}`.
#[derive(Debug, PartialEq, Eq)]
pub struct UCanonical<T> {
    pub canonical: Canonical<T>,
    pub universes: usize,
}

// ---------------------------------------------------------------------------
// X-clauses.
// ---------------------------------------------------------------------------

/// A subgoal yet to be proved, positively or negatively.
#[derive(Debug, PartialEq, Eq)]
pub enum Literal {
    Positive(InEnvironment<Goal>),
    Negative(InEnvironment<Goal>),
}

/// A literal whose truth the tabled search has postponed.
#[derive(Debug, PartialEq, Eq)]
pub enum DelayedLiteral {
    CannotProve,
    Negative(usize),
    Positive(usize, Canonical<Substitution>),
}

/// The goal-state record `A :- D | L1..Ln` of the tabled search: the
/// substitution accumulated so far, the delayed literals, the lifetime
/// constraints, and the ordered subgoals that remain.
#[derive(Debug, PartialEq, Eq)]
pub struct ExClause {
    pub subst: Substitution,
    pub delayed_literals: Vec<DelayedLiteral>,
    pub constraints: Vec<Constraint>,
    pub subgoals: Vec<Literal>,
}

// ---------------------------------------------------------------------------
// Mathematical views.
// ---------------------------------------------------------------------------

#[verifier::ext_equal]
pub enum TypeNameV {
    ItemId(nat),
    ForAll(nat),
    AssociatedType(nat),
}

#[verifier::ext_equal]
pub struct ApplicationTyV {
    pub name: TypeNameV,
    pub parameters: Seq<ParameterV>,
}

#[verifier::ext_equal]
pub struct ProjectionTyV {
    pub associated_ty_id: nat,
    pub parameters: Seq<ParameterV>,
}

#[verifier::ext_equal]
pub struct UnselectedProjectionTyV {
    pub head_name: nat,
    pub parameters: Seq<ParameterV>,
}

#[verifier::ext_equal]
pub enum TyV {
    Var(nat),
    Apply(ApplicationTyV),
    Projection(ProjectionTyV),
    UnselectedProjection(UnselectedProjectionTyV),
    ForAll(nat, Box<TyV>),
}

#[verifier::ext_equal]
pub enum LifetimeV {
    Var(nat),
    ForAll(nat),
}

#[verifier::ext_equal]
pub enum ConstV {
    Var(nat),
}

#[verifier::ext_equal]
pub enum ParameterV {
    Ty(TyV),
    Lifetime(LifetimeV),
    Const(ConstV),
}

#[verifier::ext_equal]
pub struct TraitRefV {
    pub trait_id: nat,
    pub parameters: Seq<ParameterV>,
}

#[verifier::ext_equal]
pub struct NormalizeV {
    pub projection: ProjectionTyV,
    pub ty: TyV,
}

#[verifier::ext_equal]
pub struct ProjectionEqV {
    pub projection: ProjectionTyV,
    pub ty: TyV,
}

#[verifier::ext_equal]
pub struct UnselectedNormalizeV {
    pub projection: UnselectedProjectionTyV,
    pub ty: TyV,
}

#[verifier::ext_equal]
pub enum WellFormedV {
    Ty(TyV),
    TraitRef(TraitRefV),
    ProjectionEq(ProjectionEqV),
}

#[verifier::ext_equal]
pub enum FromEnvV {
    Ty(TyV),
    TraitRef(TraitRefV),
    ProjectionEq(ProjectionEqV),
}

#[verifier::ext_equal]
pub enum DomainGoalV {
    Implemented(TraitRefV),
    Normalize(NormalizeV),
    ProjectionEq(ProjectionEqV),
    UnselectedNormalize(UnselectedNormalizeV),
    WellFormed(WellFormedV),
    FromEnv(FromEnvV),
    InScope(nat),
}

#[verifier::ext_equal]
pub struct EqGoalV {
    pub a: ParameterV,
    pub b: ParameterV,
}

#[verifier::ext_equal]
pub enum LeafGoalV {
    EqGoal(EqGoalV),
    DomainGoal(DomainGoalV),
}

#[verifier::ext_equal]
pub enum GoalV {
    Quantified { qkind: QuantifierKind, binders: Seq<ParamKind>, goal: Box<GoalV> },
    Implies(Seq<ProgramClauseV>, Box<GoalV>),
    And(Box<GoalV>, Box<GoalV>),
    Not(Box<GoalV>),
    Leaf(LeafGoalV),
    CannotProve,
}

#[verifier::ext_equal]
pub struct ProgramClauseImplicationV {
    pub consequence: DomainGoalV,
    pub conditions: Seq<GoalV>,
}

#[verifier::ext_equal]
pub struct ProgramClauseV {
    pub binders: Seq<ParamKind>,
    pub implication: ProgramClauseImplicationV,
}

#[verifier::ext_equal]
pub struct EnvironmentV {
    pub clauses: Seq<ProgramClauseV>,
}

#[verifier::ext_equal]
pub struct InEnvironmentV<V> {
    pub environment: EnvironmentV,
    pub goal: V,
}

#[verifier::ext_equal]
pub struct SubstitutionV {
    pub parameters: Seq<ParameterV>,
}

#[verifier::ext_equal]
pub enum ConstraintV {
    LifetimeEq(LifetimeV, LifetimeV),
}

#[verifier::ext_equal]
pub struct ConstrainedSubstV {
    pub subst: SubstitutionV,
    pub constraints: Seq<ConstraintV>,
}

#[verifier::ext_equal]
pub struct CanonicalVarKindV {
    pub kind: ParamKind,
    pub universe: nat,
}

#[verifier::ext_equal]
pub struct CanonicalV<V> {
    pub binders: Seq<CanonicalVarKindV>,
    pub value: V,
}

#[verifier::ext_equal]
pub struct UCanonicalV<V> {
    pub canonical: CanonicalV<V>,
    pub universes: nat,
}

#[verifier::ext_equal]
pub enum LiteralV {
    Positive(InEnvironmentV<GoalV>),
    Negative(InEnvironmentV<GoalV>),
}

#[verifier::ext_equal]
pub enum DelayedLiteralV {
    CannotProve,
    Negative(nat),
    Positive(nat, CanonicalV<SubstitutionV>),
}

#[verifier::ext_equal]
pub struct ExClauseV {
    pub subst: SubstitutionV,
    pub delayed_literals: Seq<DelayedLiteralV>,
    pub constraints: Seq<ConstraintV>,
    pub subgoals: Seq<LiteralV>,
}

// ---------------------------------------------------------------------------
// View functions.
// ---------------------------------------------------------------------------

pub open spec fn head_name_view(n: TypeName) -> TypeNameV {
    match n {
        TypeName::ItemId(id) => TypeNameV::ItemId(id.index as nat),
        TypeName::ForAll(u) => TypeNameV::ForAll(u.counter as nat),
        TypeName::AssociatedType(id) => TypeNameV::AssociatedType(id.index as nat),
    }
}

pub open spec fn lifetime_view(l: Lifetime) -> LifetimeV {
    match l {
        Lifetime::Var(d) => LifetimeV::Var(d as nat),
        Lifetime::ForAll(u) => LifetimeV::ForAll(u.counter as nat),
    }
}

pub open spec fn const_view(c: Const) -> ConstV {
    match c {
        Const::Var(d) => ConstV::Var(d as nat),
    }
}

pub open spec fn ty_view(t: Ty) -> TyV
    decreases t,
{
    match t {
        Ty::Var(d) => TyV::Var(d as nat),
        Ty::Apply(app) => TyV::Apply(
            ApplicationTyV { name: head_name_view(app.name), parameters: params_view(app.parameters@) },
        ),
        Ty::Projection(p) => TyV::Projection(
            ProjectionTyV {
                associated_ty_id: p.associated_ty_id.index as nat,
                parameters: params_view(p.parameters@),
            },
        ),
        Ty::UnselectedProjection(p) => TyV::UnselectedProjection(
            UnselectedProjectionTyV {
                head_name: p.head_name.index as nat,
                parameters: params_view(p.parameters@),
            },
        ),
        Ty::ForAll { num_binders, ty } => TyV::ForAll(num_binders as nat, Box::new(ty_view(*ty))),
    }
}

pub open spec fn param_view(p: Parameter) -> ParameterV
    decreases p,
{
    match p {
        Parameter::Ty(t) => ParameterV::Ty(ty_view(t)),
        Parameter::Lifetime(l) => ParameterV::Lifetime(lifetime_view(l)),
        Parameter::Const(c) => ParameterV::Const(const_view(c)),
    }
}

pub open spec fn params_view(ps: Seq<Parameter>) -> Seq<ParameterV>
    decreases ps,
{
    if ps.len() == 0 {
        Seq::empty()
    } else {
        params_view(ps.drop_last()).push(param_view(ps.last()))
    }
}

pub open spec fn projection_view(p: ProjectionTy) -> ProjectionTyV
    decreases p,
{
    ProjectionTyV {
        associated_ty_id: p.associated_ty_id.index as nat,
        parameters: params_view(p.parameters@),
    }
}

pub open spec fn unselected_projection_view(p: UnselectedProjectionTy) -> UnselectedProjectionTyV
    decreases p,
{
    UnselectedProjectionTyV {
        head_name: p.head_name.index as nat,
        parameters: params_view(p.parameters@),
    }
}

pub open spec fn trait_ref_view(t: TraitRef) -> TraitRefV
    decreases t,
{
    TraitRefV { trait_id: t.trait_id.index as nat, parameters: params_view(t.parameters@) }
}

pub open spec fn domain_goal_view(g: DomainGoal) -> DomainGoalV
    decreases g,
{
    match g {
        DomainGoal::Implemented(tr) => DomainGoalV::Implemented(trait_ref_view(tr)),
        DomainGoal::Normalize(n) => DomainGoalV::Normalize(
            NormalizeV { projection: projection_view(n.projection), ty: ty_view(n.ty) },
        ),
        DomainGoal::ProjectionEq(n) => DomainGoalV::ProjectionEq(
            ProjectionEqV { projection: projection_view(n.projection), ty: ty_view(n.ty) },
        ),
        DomainGoal::UnselectedNormalize(n) => DomainGoalV::UnselectedNormalize(
            UnselectedNormalizeV {
                projection: unselected_projection_view(n.projection),
                ty: ty_view(n.ty),
            },
        ),
        DomainGoal::WellFormed(w) => DomainGoalV::WellFormed(well_formed_view(w)),
        DomainGoal::FromEnv(w) => DomainGoalV::FromEnv(from_env_view(w)),
        DomainGoal::InScope(id) => DomainGoalV::InScope(id.index as nat),
    }
}

pub open spec fn well_formed_view(w: WellFormed) -> WellFormedV
    decreases w,
{
    match w {
        WellFormed::Ty(t) => WellFormedV::Ty(ty_view(t)),
        WellFormed::TraitRef(tr) => WellFormedV::TraitRef(trait_ref_view(tr)),
        WellFormed::ProjectionEq(n) => WellFormedV::ProjectionEq(
            ProjectionEqV { projection: projection_view(n.projection), ty: ty_view(n.ty) },
        ),
    }
}

pub open spec fn from_env_view(w: FromEnv) -> FromEnvV
    decreases w,
{
    match w {
        FromEnv::Ty(t) => FromEnvV::Ty(ty_view(t)),
        FromEnv::TraitRef(tr) => FromEnvV::TraitRef(trait_ref_view(tr)),
        FromEnv::ProjectionEq(n) => FromEnvV::ProjectionEq(
            ProjectionEqV { projection: projection_view(n.projection), ty: ty_view(n.ty) },
        ),
    }
}

pub open spec fn leaf_goal_view(g: LeafGoal) -> LeafGoalV
    decreases g,
{
    match g {
        LeafGoal::EqGoal(e) => LeafGoalV::EqGoal(EqGoalV { a: param_view(e.a), b: param_view(e.b) }),
        LeafGoal::DomainGoal(d) => LeafGoalV::DomainGoal(domain_goal_view(d)),
    }
}

pub open spec fn goal_view(g: Goal) -> GoalV
    decreases g,
{
    match g {
        Goal::Quantified { qkind, binders, goal } => GoalV::Quantified {
            qkind,
            binders: binders@,
            goal: Box::new(goal_view(*goal)),
        },
        Goal::Implies(clauses, goal) => GoalV::Implies(
            clauses_view(clauses@),
            Box::new(goal_view(*goal)),
        ),
        Goal::And(a, b) => GoalV::And(Box::new(goal_view(*a)), Box::new(goal_view(*b))),
        Goal::Not(a) => GoalV::Not(Box::new(goal_view(*a))),
        Goal::Leaf(l) => GoalV::Leaf(leaf_goal_view(l)),
        Goal::CannotProve => GoalV::CannotProve,
    }
}

pub open spec fn goals_view(gs: Seq<Goal>) -> Seq<GoalV>
    decreases gs,
{
    if gs.len() == 0 {
        Seq::empty()
    } else {
        goals_view(gs.drop_last()).push(goal_view(gs.last()))
    }
}

pub open spec fn clause_view(c: ProgramClause) -> ProgramClauseV
    decreases c,
{
    ProgramClauseV {
        binders: c.binders@,
        implication: ProgramClauseImplicationV {
            consequence: domain_goal_view(c.implication.consequence),
            conditions: goals_view(c.implication.conditions@),
        },
    }
}

pub open spec fn clauses_view(cs: Seq<ProgramClause>) -> Seq<ProgramClauseV>
    decreases cs,
{
    if cs.len() == 0 {
        Seq::empty()
    } else {
        clauses_view(cs.drop_last()).push(clause_view(cs.last()))
    }
}

pub open spec fn env_view(e: Environment) -> EnvironmentV {
    EnvironmentV { clauses: clauses_view(e.clauses@) }
}

pub open spec fn subst_view(s: Substitution) -> SubstitutionV {
    SubstitutionV { parameters: params_view(s.parameters@) }
}

pub open spec fn constraint_view(c: Constraint) -> ConstraintV {
    match c {
        Constraint::LifetimeEq(a, b) => ConstraintV::LifetimeEq(lifetime_view(a), lifetime_view(b)),
    }
}

pub open spec fn constraints_view(cs: Seq<Constraint>) -> Seq<ConstraintV> {
    cs.map_values(|c: Constraint| constraint_view(c))
}

pub open spec fn constrained_subst_view(s: ConstrainedSubst) -> ConstrainedSubstV {
    ConstrainedSubstV { subst: subst_view(s.subst), constraints: constraints_view(s.constraints@) }
}

pub open spec fn cvk_view(k: CanonicalVarKind) -> CanonicalVarKindV {
    CanonicalVarKindV { kind: k.kind, universe: k.universe.counter as nat }
}

pub open spec fn cvks_view(ks: Seq<CanonicalVarKind>) -> Seq<CanonicalVarKindV> {
    ks.map_values(|k: CanonicalVarKind| cvk_view(k))
}

pub open spec fn in_env_goal_view(g: InEnvironment<Goal>) -> InEnvironmentV<GoalV> {
    InEnvironmentV { environment: env_view(g.environment), goal: goal_view(g.goal) }
}

pub open spec fn in_env_domain_goal_view(g: InEnvironment<DomainGoal>) -> InEnvironmentV<
    DomainGoalV,
> {
    InEnvironmentV { environment: env_view(g.environment), goal: domain_goal_view(g.goal) }
}

pub open spec fn env_domain_goals_view(gs: Seq<InEnvironment<DomainGoal>>) -> Seq<
    InEnvironmentV<DomainGoalV>,
> {
    gs.map_values(|g: InEnvironment<DomainGoal>| in_env_domain_goal_view(g))
}

pub open spec fn literal_view(l: Literal) -> LiteralV {
    match l {
        Literal::Positive(g) => LiteralV::Positive(in_env_goal_view(g)),
        Literal::Negative(g) => LiteralV::Negative(in_env_goal_view(g)),
    }
}

pub open spec fn literals_view(ls: Seq<Literal>) -> Seq<LiteralV> {
    ls.map_values(|l: Literal| literal_view(l))
}

pub open spec fn delayed_literal_view(d: DelayedLiteral) -> DelayedLiteralV {
    match d {
        DelayedLiteral::CannotProve => DelayedLiteralV::CannotProve,
        DelayedLiteral::Negative(i) => DelayedLiteralV::Negative(i as nat),
        DelayedLiteral::Positive(i, c) => DelayedLiteralV::Positive(
            i as nat,
            CanonicalV { binders: cvks_view(c.binders@), value: subst_view(c.value) },
        ),
    }
}

pub open spec fn delayed_literals_view(ds: Seq<DelayedLiteral>) -> Seq<DelayedLiteralV> {
    ds.map_values(|d: DelayedLiteral| delayed_literal_view(d))
}

pub open spec fn ex_clause_view(e: ExClause) -> ExClauseV {
    ExClauseV {
        subst: subst_view(e.subst),
        delayed_literals: delayed_literals_view(e.delayed_literals@),
        constraints: constraints_view(e.constraints@),
        subgoals: literals_view(e.subgoals@),
    }
}

// ---------------------------------------------------------------------------
// `View` implementations, so that contracts can write `x@`.
// ---------------------------------------------------------------------------

impl View for Ty {
    type V = TyV;

    open spec fn view(&self) -> TyV {
        ty_view(*self)
    }
}

impl DeepView for Ty {
    type V = TyV;

    open spec fn deep_view(&self) -> TyV {
        ty_view(*self)
    }
}

impl View for Lifetime {
    type V = LifetimeV;

    open spec fn view(&self) -> LifetimeV {
        lifetime_view(*self)
    }
}

impl DeepView for Lifetime {
    type V = LifetimeV;

    open spec fn deep_view(&self) -> LifetimeV {
        lifetime_view(*self)
    }
}

impl View for Const {
    type V = ConstV;

    open spec fn view(&self) -> ConstV {
        const_view(*self)
    }
}

impl DeepView for Const {
    type V = ConstV;

    open spec fn deep_view(&self) -> ConstV {
        const_view(*self)
    }
}

impl View for Parameter {
    type V = ParameterV;

    open spec fn view(&self) -> ParameterV {
        param_view(*self)
    }
}

impl DeepView for Parameter {
    type V = ParameterV;

    open spec fn deep_view(&self) -> ParameterV {
        param_view(*self)
    }
}

impl View for Goal {
    type V = GoalV;

    open spec fn view(&self) -> GoalV {
        goal_view(*self)
    }
}

impl DeepView for Goal {
    type V = GoalV;

    open spec fn deep_view(&self) -> GoalV {
        goal_view(*self)
    }
}

impl View for DomainGoal {
    type V = DomainGoalV;

    open spec fn view(&self) -> DomainGoalV {
        domain_goal_view(*self)
    }
}

impl View for ProgramClause {
    type V = ProgramClauseV;

    open spec fn view(&self) -> ProgramClauseV {
        clause_view(*self)
    }
}

impl View for Environment {
    type V = EnvironmentV;

    open spec fn view(&self) -> EnvironmentV {
        env_view(*self)
    }
}

impl View for Substitution {
    type V = SubstitutionV;

    open spec fn view(&self) -> SubstitutionV {
        subst_view(*self)
    }
}

impl View for ConstrainedSubst {
    type V = ConstrainedSubstV;

    open spec fn view(&self) -> ConstrainedSubstV {
        constrained_subst_view(*self)
    }
}

impl View for ExClause {
    type V = ExClauseV;

    open spec fn view(&self) -> ExClauseV {
        ex_clause_view(*self)
    }
}

impl View for InEnvironment<Goal> {
    type V = InEnvironmentV<GoalV>;

    open spec fn view(&self) -> InEnvironmentV<GoalV> {
        in_env_goal_view(*self)
    }
}

impl View for InEnvironment<DomainGoal> {
    type V = InEnvironmentV<DomainGoalV>;

    open spec fn view(&self) -> InEnvironmentV<DomainGoalV> {
        in_env_domain_goal_view(*self)
    }
}

impl View for Canonical<Ty> {
    type V = CanonicalV<TyV>;

    open spec fn view(&self) -> CanonicalV<TyV> {
        CanonicalV { binders: cvks_view(self.binders@), value: ty_view(self.value) }
    }
}

impl View for Canonical<ConstrainedSubst> {
    type V = CanonicalV<ConstrainedSubstV>;

    open spec fn view(&self) -> CanonicalV<ConstrainedSubstV> {
        CanonicalV { binders: cvks_view(self.binders@), value: constrained_subst_view(self.value) }
    }
}

impl View for Canonical<InEnvironment<Goal>> {
    type V = CanonicalV<InEnvironmentV<GoalV>>;

    open spec fn view(&self) -> CanonicalV<InEnvironmentV<GoalV>> {
        CanonicalV { binders: cvks_view(self.binders@), value: in_env_goal_view(self.value) }
    }
}

impl View for UCanonical<Ty> {
    type V = UCanonicalV<TyV>;

    open spec fn view(&self) -> UCanonicalV<TyV> {
        UCanonicalV { canonical: self.canonical@, universes: self.universes as nat }
    }
}

impl View for UCanonical<InEnvironment<Goal>> {
    type V = UCanonicalV<InEnvironmentV<GoalV>>;

    open spec fn view(&self) -> UCanonicalV<InEnvironmentV<GoalV>> {
        UCanonicalV { canonical: self.canonical@, universes: self.universes as nat }
    }
}

// ---------------------------------------------------------------------------
// Facts about the sequence views.
// ---------------------------------------------------------------------------

/// The view of a parameter list is its element-wise view.
pub proof fn lemma_params_view(ps: Seq<Parameter>)
    ensures
        params_view(ps).len() == ps.len(),
        forall|i: int| 0 <= i < ps.len() ==> params_view(ps)[i] == param_view(ps[i]),
    decreases ps,
{
    if ps.len() > 0 {
        lemma_params_view(ps.drop_last());
    }
}

/// The view of a goal list is its element-wise view.
pub proof fn lemma_goals_view(gs: Seq<Goal>)
    ensures
        goals_view(gs).len() == gs.len(),
        forall|i: int| 0 <= i < gs.len() ==> goals_view(gs)[i] == goal_view(gs[i]),
    decreases gs,
{
    if gs.len() > 0 {
        lemma_goals_view(gs.drop_last());
    }
}

/// The view of a clause list is its element-wise view.
pub proof fn lemma_clauses_view(cs: Seq<ProgramClause>)
    ensures
        clauses_view(cs).len() == cs.len(),
        forall|i: int| 0 <= i < cs.len() ==> clauses_view(cs)[i] == clause_view(cs[i]),
    decreases cs,
{
    if cs.len() > 0 {
        lemma_clauses_view(cs.drop_last());
    }
}

} // verus!

