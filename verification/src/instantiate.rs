//! Instantiation: replacing the binders of a value with fresh content.
//!
//! Existential instantiation allocates a fresh inference variable per
//! binder — in the binder's declared universe for canonical values, in
//! the table's current greatest universe for program clauses — and
//! substitutes them for the bound variables.  Universal instantiation
//! allocates a fresh universe per binder and substitutes skolem
//! constants instead: this is the universal-introduction rule used when
//! proving under a `forall`.

use vstd::prelude::*;

use crate::ir::{
    Canonical, CanonicalVarKind, CanonicalVarKindV, ConstrainedSubst, Goal, NoSolution, Parameter,
    ParameterV, ParamKind, ProgramClause, ProgramClauseImplication, Substitution, Ty, TyV,
    ApplicationTy, ApplicationTyV, TypeNameV, TypeName, LifetimeV, Lifetime, ConstV, GoalV,
    UniverseIndex, cvk_view, cvks_view, params_view, param_view, lemma_params_view,
    constraints_view, subst_view,
};
use crate::subst::{
    apply_subst_constraints, apply_subst_goal, apply_subst_implication, apply_subst_params,
    apply_subst_ty, implication_view, inst_ok_constraints, inst_ok_goal, inst_ok_implication,
    inst_ok_params, inst_ok_ty, subst_constraints, subst_goal, subst_implication, subst_params,
    subst_ty,
};
use crate::table::{InferenceTable, SlotV, TableV};

verus! {

// ---------------------------------------------------------------------------
// Allocation, as a specification.
// ---------------------------------------------------------------------------

/// The table after allocating one fresh variable of the given kind in
/// universe `u`, and the parameter referring to it.
pub open spec fn alloc_param(st: TableV, kind: ParamKind, u: nat) -> (TableV, ParameterV) {
    let max = if u > st.max_universe {
        u
    } else {
        st.max_universe
    };
    match kind {
        ParamKind::Ty => (
            TableV {
                ty_vars: st.ty_vars.push(SlotV { universe: u, value: None }),
                max_universe: max,
                ..st
            },
            ParameterV::Ty(TyV::Var(st.ty_vars.len())),
        ),
        ParamKind::Lifetime => (
            TableV {
                lifetime_vars: st.lifetime_vars.push(SlotV { universe: u, value: None }),
                max_universe: max,
                ..st
            },
            ParameterV::Lifetime(LifetimeV::Var(st.lifetime_vars.len())),
        ),
        ParamKind::Const => (
            TableV {
                const_vars: st.const_vars.push(SlotV { universe: u, value: None }),
                max_universe: max,
                ..st
            },
            ParameterV::Const(ConstV::Var(st.const_vars.len())),
        ),
    }
}

/// The table after allocating one fresh variable per binder, left to
/// right, and the parameters referring to them.
pub open spec fn fresh_params(st: TableV, ks: Seq<CanonicalVarKindV>) -> (TableV, Seq<ParameterV>)
    decreases ks,
{
    if ks.len() == 0 {
        (st, Seq::empty())
    } else {
        let prefix = fresh_params(st, ks.drop_last());
        let one = alloc_param(prefix.0, ks.last().kind, ks.last().universe);
        (one.0, prefix.1.push(one.1))
    }
}

/// Binder kinds promoted to canonical kinds at one fixed universe.
pub open spec fn kinds_at(ks: Seq<ParamKind>, u: nat) -> Seq<CanonicalVarKindV> {
    ks.map_values(|k: ParamKind| CanonicalVarKindV { kind: k, universe: u })
}

/// The table after allocating one fresh universe and one skolem constant
/// per binder, left to right, and the skolem parameters.  Const binders
/// have no skolem form; the executable side rejects them.
pub open spec fn alloc_skolems(st: TableV, ks: Seq<ParamKind>) -> (TableV, Seq<ParameterV>)
    decreases ks,
{
    if ks.len() == 0 {
        (st, Seq::empty())
    } else {
        let prefix = alloc_skolems(st, ks.drop_last());
        let u = (prefix.0.max_universe + 1) as nat;
        let st2 = TableV { max_universe: u, ..prefix.0 };
        let p = match ks.last() {
            ParamKind::Ty => ParameterV::Ty(
                TyV::Apply(
                    ApplicationTyV { name: TypeNameV::ForAll(u), parameters: Seq::empty() },
                ),
            ),
            ParamKind::Lifetime => ParameterV::Lifetime(LifetimeV::ForAll(u)),
            // Don't-care arm: the executable side returns `NoSolution`
            // before reaching a const binder.
            ParamKind::Const => ParameterV::Const(ConstV::Var(0)),
        };
        (st2, prefix.1.push(p))
    }
}

pub open spec fn has_const_binder(ks: Seq<ParamKind>) -> bool {
    exists|i: int| 0 <= i < ks.len() && ks[i] == ParamKind::Const
}

pub proof fn lemma_fresh_params_len(st: TableV, ks: Seq<CanonicalVarKindV>)
    ensures
        fresh_params(st, ks).1.len() == ks.len(),
    decreases ks,
{
    if ks.len() > 0 {
        lemma_fresh_params_len(st, ks.drop_last());
    }
}

pub proof fn lemma_alloc_skolems_len(st: TableV, ks: Seq<ParamKind>)
    ensures
        alloc_skolems(st, ks).1.len() == ks.len(),
        alloc_skolems(st, ks).0.max_universe == st.max_universe + ks.len(),
        alloc_skolems(st, ks).0.ty_vars == st.ty_vars,
        alloc_skolems(st, ks).0.lifetime_vars == st.lifetime_vars,
        alloc_skolems(st, ks).0.const_vars == st.const_vars,
    decreases ks,
{
    if ks.len() > 0 {
        lemma_alloc_skolems_len(st, ks.drop_last());
    }
}

impl InferenceTable {
    /// Allocate one fresh variable of the kind and universe that a
    /// canonical binder declares, and wrap it as a parameter.
    pub fn parameter_kind_to_parameter(&mut self, pk: CanonicalVarKind) -> (r: Parameter)
        ensures
            final(self)@ == alloc_param(old(self)@, pk.kind, pk.universe.counter as nat).0,
            r@ == alloc_param(old(self)@, pk.kind, pk.universe.counter as nat).1,
    {
        let ghost st0 = self@;
        let r = match pk.kind {
            ParamKind::Ty => Parameter::Ty(self.new_variable(ParamKind::Ty, pk.universe).to_ty()),
            ParamKind::Lifetime => Parameter::Lifetime(
                self.new_variable(ParamKind::Lifetime, pk.universe).to_lifetime(),
            ),
            ParamKind::Const => Parameter::Const(
                self.new_variable(ParamKind::Const, pk.universe).to_const(),
            ),
        };
        proof {
            assert(self@ =~= alloc_param(st0, pk.kind, pk.universe.counter as nat).0);
        }
        r
    }

    /// Given the binders of a canonical value, return a substitution
    /// mapping each bound variable to a fresh inference variable of the
    /// declared kind, in the declared universe.
    pub fn fresh_subst(&mut self, binders: &Vec<CanonicalVarKind>) -> (r: Substitution)
        ensures
            final(self)@ == fresh_params(old(self)@, cvks_view(binders@)).0,
            subst_view(r).parameters == fresh_params(old(self)@, cvks_view(binders@)).1,
            r.parameters@.len() == binders@.len(),
    {
        let ghost st0 = self@;
        let ghost ks = cvks_view(binders@);
        let mut parameters: Vec<Parameter> = Vec::new();
        let mut i: usize = 0;
        while i < binders.len()
            invariant
                i <= binders@.len(),
                parameters@.len() == i,
                ks == cvks_view(binders@),
                ks.len() == binders@.len(),
                forall|j: int| 0 <= j < binders@.len() ==> ks[j] == cvk_view(binders@[j]),
                self@ == fresh_params(st0, ks.take(i as int)).0,
                params_view(parameters@) == fresh_params(st0, ks.take(i as int)).1,
            decreases binders@.len() - i,
        {
            let ghost st_i = self@;
            let ghost prev = parameters@;
            let p = self.parameter_kind_to_parameter(binders[i]);
            parameters.push(p);
            proof {
                let fp0 = fresh_params(st0, ks.take(i as int));
                let fp1 = fresh_params(st0, ks.take(i + 1));
                lemma_fresh_params_len(st0, ks.take(i as int));
                lemma_fresh_params_len(st0, ks.take(i + 1));
                lemma_params_view(prev);
                lemma_params_view(parameters@);
                assert(ks.take(i + 1).drop_last() =~= ks.take(i as int));
                assert(ks.take(i + 1).last() == cvk_view(binders@[i as int]));
                assert(fresh_params(st0, ks.take(i + 1).drop_last()) == fp0);
                assert(fp1.1 == fp0.1.push(
                    alloc_param(
                        fp0.0,
                        cvk_view(binders@[i as int]).kind,
                        cvk_view(binders@[i as int]).universe,
                    ).1,
                ));
                assert(cvk_view(binders@[i as int]).kind == binders@[i as int].kind);
                assert(cvk_view(binders@[i as int]).universe == binders@[
                    i as int
                ].universe.counter as nat);
                assert forall|j: int| 0 <= j < i + 1 implies params_view(parameters@)[j] == fp1.1[j]
                by {
                    if j < i {
                        assert(params_view(parameters@)[j] == param_view(prev[j]));
                        assert(param_view(prev[j]) == params_view(prev)[j]);
                    } else {
                        assert(params_view(parameters@)[j] == param_view(p));
                    }
                }
                assert(params_view(parameters@) =~= fp1.1);
                assert(self@ == fp1.0);
            }
            i += 1;
        }
        proof {
            assert(ks.take(binders@.len() as int) =~= ks);
        }
        Substitution { parameters }
    }

    /// Instantiate a canonical type: each binder becomes a fresh
    /// variable in its declared universe.
    pub fn instantiate_canonical_ty(&mut self, bound: &Canonical<Ty>) -> (r: Ty)
        requires
            inst_ok_ty(
                fresh_params(old(self)@, cvks_view(bound.binders@)).1,
                crate::ir::ty_view(bound.value),
                0,
            ),
        ensures
            final(self)@ == fresh_params(old(self)@, cvks_view(bound.binders@)).0,
            r@ == subst_ty(
                fresh_params(old(self)@, cvks_view(bound.binders@)).1,
                crate::ir::ty_view(bound.value),
                0,
            ),
    {
        let s = self.fresh_subst(&bound.binders);
        proof {
            lemma_params_view(s.parameters@);
        }
        apply_subst_ty(&s.parameters, &bound.value, 0)
    }

    /// Instantiate a canonical constrained substitution, as
    /// `apply_answer_subst` does with the answer it was handed.
    pub fn instantiate_canonical_constrained_subst(&mut self, bound: &Canonical<ConstrainedSubst>)
        -> (r: ConstrainedSubst)
        requires
            inst_ok_params(
                fresh_params(old(self)@, cvks_view(bound.binders@)).1,
                subst_view(bound.value.subst).parameters,
                0,
            ),
            inst_ok_constraints(
                fresh_params(old(self)@, cvks_view(bound.binders@)).1,
                constraints_view(bound.value.constraints@),
                0,
            ),
        ensures
            final(self)@ == fresh_params(old(self)@, cvks_view(bound.binders@)).0,
            subst_view(r.subst).parameters == subst_params(
                fresh_params(old(self)@, cvks_view(bound.binders@)).1,
                subst_view(bound.value.subst).parameters,
                0,
            ),
            constraints_view(r.constraints@) == subst_constraints(
                fresh_params(old(self)@, cvks_view(bound.binders@)).1,
                constraints_view(bound.value.constraints@),
                0,
            ),
    {
        let s = self.fresh_subst(&bound.binders);
        let parameters = apply_subst_params(&s.parameters, &bound.value.subst.parameters, 0);
        let constraints = apply_subst_constraints(&s.parameters, &bound.value.constraints, 0);
        ConstrainedSubst { subst: Substitution { parameters }, constraints }
    }

    /// Instantiate the implication of a program clause existentially:
    /// every binder becomes a fresh variable in the table's current
    /// greatest universe.
    pub fn instantiate_binders_existentially(&mut self, clause: &ProgramClause) -> (r:
        ProgramClauseImplication)
        requires
            inst_ok_implication(
                fresh_params(
                    old(self)@,
                    kinds_at(clause.binders@, old(self)@.max_universe),
                ).1,
                implication_view(clause.implication),
                0,
            ),
        ensures
            final(self)@ == fresh_params(
                old(self)@,
                kinds_at(clause.binders@, old(self)@.max_universe),
            ).0,
            implication_view(r) == subst_implication(
                fresh_params(
                    old(self)@,
                    kinds_at(clause.binders@, old(self)@.max_universe),
                ).1,
                implication_view(clause.implication),
                0,
            ),
    {
        let max_universe = self.max_universe;
        let ghost st0 = self@;
        let mut cvks: Vec<CanonicalVarKind> = Vec::new();
        let mut i: usize = 0;
        while i < clause.binders.len()
            invariant
                i <= clause.binders@.len(),
                cvks@.len() == i,
                max_universe.counter as nat == st0.max_universe,
                self@ == st0,
                forall|j: int|
                    0 <= j < i ==> cvk_view(cvks@[j]) == (CanonicalVarKindV {
                        kind: clause.binders@[j],
                        universe: st0.max_universe,
                    }),
            decreases clause.binders@.len() - i,
        {
            cvks.push(CanonicalVarKind { kind: clause.binders[i], universe: max_universe });
            i += 1;
        }
        proof {
            assert(cvks_view(cvks@) =~= kinds_at(clause.binders@, st0.max_universe));
        }
        let s = self.fresh_subst(&cvks);
        proof {
            lemma_params_view(s.parameters@);
        }
        apply_subst_implication(&s.parameters, &clause.implication, 0)
    }

    /// Instantiate binders universally: allocate a fresh universe per
    /// binder and replace each bound variable with a skolem constant of
    /// its kind.  Rejects const binders, whose skolem form the term
    /// language does not have.
    pub fn instantiate_binders_universally(&mut self, binders: &Vec<ParamKind>, goal: &Goal) -> (r:
        Result<Goal, NoSolution>)
        requires
            old(self)@.max_universe + binders@.len() <= usize::MAX,
            !has_const_binder(binders@) ==> inst_ok_goal(
                alloc_skolems(old(self)@, binders@).1,
                crate::ir::goal_view(*goal),
                0,
            ),
        ensures
            has_const_binder(binders@) <==> r is Err,
            r matches Ok(g) ==> {
                &&& final(self)@ == alloc_skolems(old(self)@, binders@).0
                &&& g@ == subst_goal(
                    alloc_skolems(old(self)@, binders@).1,
                    crate::ir::goal_view(*goal),
                    0,
                )
            },
            r is Err ==> final(self)@ == old(self)@,
    {
        let ghost st0 = self@;
        let mut i: usize = 0;
        while i < binders.len()
            invariant
                i <= binders@.len(),
                self@ == st0,
                forall|j: int| 0 <= j < i ==> binders@[j] != ParamKind::Const,
            decreases binders@.len() - i,
        {
            match binders[i] {
                ParamKind::Const => {
                    return Err(NoSolution);
                },
                _ => {},
            }
            i += 1;
        }
        assert(!has_const_binder(binders@));
        let mut parameters: Vec<Parameter> = Vec::new();
        let mut k: usize = 0;
        while k < binders.len()
            invariant
                k <= binders@.len(),
                parameters@.len() == k,
                st0.max_universe + binders@.len() <= usize::MAX,
                self@.max_universe + (binders@.len() - k) <= usize::MAX,
                !has_const_binder(binders@),
                forall|j: int| 0 <= j < binders@.len() ==> binders@[j] != ParamKind::Const,
                self@ == alloc_skolems(st0, binders@.take(k as int)).0,
                params_view(parameters@) == alloc_skolems(st0, binders@.take(k as int)).1,
            decreases binders@.len() - k,
        {
            let ghost prev = parameters@;
            let new_universe = self.new_universe();
            let p = match binders[k] {
                ParamKind::Lifetime => Parameter::Lifetime(Lifetime::ForAll(new_universe)),
                _ => Parameter::Ty(
                    Ty::Apply(
                        ApplicationTy {
                            name: TypeName::ForAll(new_universe),
                            parameters: Vec::new(),
                        },
                    ),
                ),
            };
            parameters.push(p);
            proof {
                let as0 = alloc_skolems(st0, binders@.take(k as int));
                let as1 = alloc_skolems(st0, binders@.take(k + 1));
                lemma_alloc_skolems_len(st0, binders@.take(k as int));
                lemma_alloc_skolems_len(st0, binders@.take(k + 1));
                lemma_params_view(prev);
                lemma_params_view(parameters@);
                assert(binders@.take(k + 1).drop_last() =~= binders@.take(k as int));
                assert(binders@.take(k + 1).last() == binders@[k as int]);
                assert(alloc_skolems(st0, binders@.take(k + 1).drop_last()) == as0);
                assert(self@ =~= as1.0);
                assert(binders@[k as int] != ParamKind::Const);
                assert forall|j: int| 0 <= j < k + 1 implies params_view(parameters@)[j] == as1.1[j]
                by {
                    if j < k {
                        assert(params_view(parameters@)[j] == param_view(prev[j]));
                        assert(param_view(prev[j]) == params_view(prev)[j]);
                    } else {
                        assert(params_view(parameters@)[j] == param_view(p));
                        match binders@[k as int] {
                            ParamKind::Ty => {
                                assert(param_view(p) == as1.1.last());
                            },
                            ParamKind::Lifetime => {},
                            ParamKind::Const => {
                                assert(false);
                            },
                        }
                    }
                }
                assert(params_view(parameters@) =~= as1.1);
            }
            k += 1;
        }
        proof {
            assert(binders@.take(binders@.len() as int) =~= binders@);
        }
        Ok(apply_subst_goal(&parameters, goal, 0))
    }
}

} // verus!
