//! Deep normalization: fully expanding instantiated variables.
//!
//! Every free variable whose representative is instantiated is replaced
//! by its instantiation, recursively, shifted up to the binder depth it
//! is read at; uninstantiated variables stay as they are.  This is
//! meant for final answer extraction and for rendering — the hot paths
//! normalize shallowly instead.  The expansion carries the explicit
//! depth budget the driver uses everywhere (`usize::MAX`), and leaves a
//! variable unexpanded in the unreachable case that a shifted depth
//! would not fit the machine.

use vstd::prelude::*;

use crate::clone_impls::clone_ty;
use crate::ir::{
    ApplicationTy, Const, ConstV, InferenceVariable, Lifetime, LifetimeV, Parameter, ParameterV,
    ProjectionTy, Ty, TyV, UnselectedProjectionTy, lemma_params_view, param_view, params_view,
};
use crate::shift::{
    shift_up_const, shift_up_lifetime, shift_up_param, shift_up_params, shift_up_ty, up_fits_const,
    up_fits_lifetime, up_fits_param, up_fits_params, up_fits_ty, up_shift_const_at,
    up_shift_lifetime_at, up_shift_ty_at,
};
use crate::table::{InferenceTable, TableV, probe_const, probe_lifetime, probe_ty};

verus! {

/// The depth budget of deep normalization.
pub open spec fn deep_fuel() -> nat {
    usize::MAX as nat
}

// ---------------------------------------------------------------------------
// Specification.
// ---------------------------------------------------------------------------

pub open spec fn deep_norm_ty(st: TableV, t: TyV, b: nat, fuel: nat) -> TyV
    decreases fuel, t,
{
    match t {
        TyV::Var(d) => if d < b {
            TyV::Var(d)
        } else {
            match probe_ty(st, (d - b) as nat) {
                None => TyV::Var(d),
                Some(v) => if fuel == 0 {
                    TyV::Var(d)
                } else {
                    let nv = deep_norm_ty(st, v, 0, (fuel - 1) as nat);
                    if up_fits_ty(nv, 0, b) {
                        shift_up_ty(nv, 0, b)
                    } else {
                        TyV::Var(d)
                    }
                },
            }
        },
        TyV::Apply(a) => TyV::Apply(
            crate::ir::ApplicationTyV {
                name: a.name,
                parameters: deep_norm_params(st, a.parameters, b, fuel),
            },
        ),
        TyV::Projection(p) => TyV::Projection(
            crate::ir::ProjectionTyV {
                associated_ty_id: p.associated_ty_id,
                parameters: deep_norm_params(st, p.parameters, b, fuel),
            },
        ),
        TyV::UnselectedProjection(p) => TyV::UnselectedProjection(
            crate::ir::UnselectedProjectionTyV {
                head_name: p.head_name,
                parameters: deep_norm_params(st, p.parameters, b, fuel),
            },
        ),
        TyV::ForAll(nb, inner) => if b + nb > usize::MAX {
            TyV::ForAll(nb, inner)
        } else {
            TyV::ForAll(nb, Box::new(deep_norm_ty(st, *inner, b + nb, fuel)))
        },
    }
}

pub open spec fn deep_norm_lifetime(st: TableV, l: LifetimeV, b: nat, fuel: nat) -> LifetimeV
    decreases fuel,
{
    match l {
        LifetimeV::Var(d) => if d < b {
            LifetimeV::Var(d)
        } else {
            match probe_lifetime(st, (d - b) as nat) {
                None => LifetimeV::Var(d),
                Some(v) => if fuel == 0 {
                    LifetimeV::Var(d)
                } else {
                    let nv = deep_norm_lifetime(st, v, 0, (fuel - 1) as nat);
                    if up_fits_lifetime(nv, 0, b) {
                        shift_up_lifetime(nv, 0, b)
                    } else {
                        LifetimeV::Var(d)
                    }
                },
            }
        },
        LifetimeV::ForAll(u) => LifetimeV::ForAll(u),
    }
}

pub open spec fn deep_norm_const(st: TableV, c: ConstV, b: nat, fuel: nat) -> ConstV
    decreases fuel,
{
    match c {
        ConstV::Var(d) => if d < b {
            ConstV::Var(d)
        } else {
            match probe_const(st, (d - b) as nat) {
                None => ConstV::Var(d),
                Some(v) => if fuel == 0 {
                    ConstV::Var(d)
                } else {
                    let nv = deep_norm_const(st, v, 0, (fuel - 1) as nat);
                    if up_fits_const(nv, 0, b) {
                        shift_up_const(nv, 0, b)
                    } else {
                        ConstV::Var(d)
                    }
                },
            }
        },
    }
}

pub open spec fn deep_norm_param(st: TableV, p: ParameterV, b: nat, fuel: nat) -> ParameterV
    decreases fuel, p,
{
    match p {
        ParameterV::Ty(t) => ParameterV::Ty(deep_norm_ty(st, t, b, fuel)),
        ParameterV::Lifetime(l) => ParameterV::Lifetime(deep_norm_lifetime(st, l, b, fuel)),
        ParameterV::Const(c) => ParameterV::Const(deep_norm_const(st, c, b, fuel)),
    }
}

pub open spec fn deep_norm_params(st: TableV, ps: Seq<ParameterV>, b: nat, fuel: nat) -> Seq<
    ParameterV,
>
    decreases fuel, ps,
{
    if ps.len() == 0 {
        Seq::empty()
    } else {
        deep_norm_params(st, ps.drop_last(), b, fuel).push(
            deep_norm_param(st, ps.last(), b, fuel),
        )
    }
}

pub proof fn lemma_deep_norm_params(st: TableV, ps: Seq<ParameterV>, b: nat, fuel: nat)
    ensures
        deep_norm_params(st, ps, b, fuel).len() == ps.len(),
        forall|i: int|
            0 <= i < ps.len() ==> deep_norm_params(st, ps, b, fuel)[i] == deep_norm_param(
                st,
                ps[i],
                b,
                fuel,
            ),
    decreases ps,
{
    if ps.len() > 0 {
        lemma_deep_norm_params(st, ps.drop_last(), b, fuel);
    }
}

// ---------------------------------------------------------------------------
// Deciding whether a shifted value fits the machine.
// ---------------------------------------------------------------------------

pub fn check_up_fits_ty(t: &Ty, binders: usize, n: usize) -> (r: bool)
    ensures
        r == up_fits_ty(t@, binders as nat, n as nat),
    decreases *t,
{
    match t {
        Ty::Var(d) => *d < binders || *d <= usize::MAX - n,
        Ty::Apply(a) => check_up_fits_params(&a.parameters, binders, n),
        Ty::Projection(p) => check_up_fits_params(&p.parameters, binders, n),
        Ty::UnselectedProjection(p) => check_up_fits_params(&p.parameters, binders, n),
        Ty::ForAll { num_binders, ty } => {
            if binders > usize::MAX - *num_binders {
                false
            } else {
                check_up_fits_ty(&**ty, binders + *num_binders, n)
            }
        },
    }
}

pub fn check_up_fits_param(p: &Parameter, binders: usize, n: usize) -> (r: bool)
    ensures
        r == up_fits_param(p@, binders as nat, n as nat),
    decreases *p,
{
    match p {
        Parameter::Ty(t) => check_up_fits_ty(t, binders, n),
        Parameter::Lifetime(l) => {
            match l {
                Lifetime::Var(d) => *d < binders || *d <= usize::MAX - n,
                Lifetime::ForAll(_) => true,
            }
        },
        Parameter::Const(c) => {
            match c {
                Const::Var(d) => *d < binders || *d <= usize::MAX - n,
            }
        },
    }
}

pub fn check_up_fits_params(ps: &Vec<Parameter>, binders: usize, n: usize) -> (r: bool)
    ensures
        r == up_fits_params(params_view(ps@), binders as nat, n as nat),
    decreases *ps,
{
    proof {
        lemma_params_view(ps@);
    }
    let mut i: usize = 0;
    while i < ps.len()
        invariant
            i <= ps@.len(),
            params_view(ps@).len() == ps@.len(),
            forall|j: int| 0 <= j < ps@.len() ==> params_view(ps@)[j] == param_view(ps@[j]),
            forall|j: int|
                0 <= j < i ==> up_fits_param(
                    #[trigger] params_view(ps@)[j],
                    binders as nat,
                    n as nat,
                ),
        decreases ps@.len() - i,
    {
        if !check_up_fits_param(&ps[i], binders, n) {
            proof {
                assert(!up_fits_param(params_view(ps@)[i as int], binders as nat, n as nat));
            }
            return false;
        }
        i += 1;
    }
    true
}

// ---------------------------------------------------------------------------
// Executable deep normalization.
// ---------------------------------------------------------------------------

impl InferenceTable {
    /// Replace every instantiated variable of `ty` with its fully
    /// expanded value; uninstantiated variables stay as they are.
    pub fn normalize_deep(&self, ty: &Ty) -> (r: Ty)
        ensures
            r@ == deep_norm_ty(self@, ty@, 0, deep_fuel()),
    {
        self.exec_deep_norm_ty(ty, 0, usize::MAX)
    }

    /// As `normalize_deep`, for a parameter of any kind.
    pub fn normalize_deep_param(&self, p: &Parameter) -> (r: Parameter)
        ensures
            r@ == deep_norm_param(self@, p@, 0, deep_fuel()),
    {
        self.exec_deep_norm_param(p, 0, usize::MAX)
    }

    fn exec_deep_norm_ty(&self, t: &Ty, b: usize, fuel: usize) -> (r: Ty)
        ensures
            r@ == deep_norm_ty(self@, t@, b as nat, fuel as nat),
        decreases fuel, *t,
    {
        match t {
            Ty::Var(d) => {
                if *d < b {
                    Ty::Var(*d)
                } else {
                    match self.probe_ty_var(InferenceVariable { index: *d - b }) {
                        None => Ty::Var(*d),
                        Some(v) => {
                            if fuel == 0 {
                                Ty::Var(*d)
                            } else {
                                let nv = self.exec_deep_norm_ty(&v, 0, fuel - 1);
                                if check_up_fits_ty(&nv, 0, b) {
                                    up_shift_ty_at(&nv, 0, b)
                                } else {
                                    Ty::Var(*d)
                                }
                            }
                        },
                    }
                }
            },
            Ty::Apply(a) => Ty::Apply(
                ApplicationTy {
                    name: a.name,
                    parameters: self.exec_deep_norm_params(&a.parameters, b, fuel),
                },
            ),
            Ty::Projection(p) => Ty::Projection(
                ProjectionTy {
                    associated_ty_id: p.associated_ty_id,
                    parameters: self.exec_deep_norm_params(&p.parameters, b, fuel),
                },
            ),
            Ty::UnselectedProjection(p) => Ty::UnselectedProjection(
                UnselectedProjectionTy {
                    head_name: p.head_name,
                    parameters: self.exec_deep_norm_params(&p.parameters, b, fuel),
                },
            ),
            Ty::ForAll { num_binders, ty } => {
                if b > usize::MAX - *num_binders {
                    Ty::ForAll { num_binders: *num_binders, ty: Box::new(clone_ty(&**ty)) }
                } else {
                    Ty::ForAll {
                        num_binders: *num_binders,
                        ty: Box::new(self.exec_deep_norm_ty(&**ty, b + *num_binders, fuel)),
                    }
                }
            },
        }
    }

    fn exec_deep_norm_lifetime(&self, l: &Lifetime, b: usize, fuel: usize) -> (r: Lifetime)
        ensures
            r@ == deep_norm_lifetime(self@, l@, b as nat, fuel as nat),
        decreases fuel,
    {
        match l {
            Lifetime::Var(d) => {
                if *d < b {
                    Lifetime::Var(*d)
                } else {
                    match self.probe_lifetime_var(InferenceVariable { index: *d - b }) {
                        None => Lifetime::Var(*d),
                        Some(v) => {
                            if fuel == 0 {
                                Lifetime::Var(*d)
                            } else {
                                let nv = self.exec_deep_norm_lifetime(&v, 0, fuel - 1);
                                let fits = match nv {
                                    Lifetime::Var(d2) => d2 <= usize::MAX - b,
                                    Lifetime::ForAll(_) => true,
                                };
                                proof {
                                    assert(fits == up_fits_lifetime(nv@, 0, b as nat));
                                }
                                if fits {
                                    up_shift_lifetime_at(&nv, 0, b)
                                } else {
                                    Lifetime::Var(*d)
                                }
                            }
                        },
                    }
                }
            },
            Lifetime::ForAll(u) => Lifetime::ForAll(*u),
        }
    }

    fn exec_deep_norm_const(&self, c: &Const, b: usize, fuel: usize) -> (r: Const)
        ensures
            r@ == deep_norm_const(self@, c@, b as nat, fuel as nat),
        decreases fuel,
    {
        match c {
            Const::Var(d) => {
                if *d < b {
                    Const::Var(*d)
                } else {
                    match self.probe_const_var(InferenceVariable { index: *d - b }) {
                        None => Const::Var(*d),
                        Some(v) => {
                            if fuel == 0 {
                                Const::Var(*d)
                            } else {
                                let nv = self.exec_deep_norm_const(&v, 0, fuel - 1);
                                let fits = match nv {
                                    Const::Var(d2) => d2 <= usize::MAX - b,
                                };
                                proof {
                                    assert(fits == up_fits_const(nv@, 0, b as nat));
                                }
                                if fits {
                                    up_shift_const_at(&nv, 0, b)
                                } else {
                                    Const::Var(*d)
                                }
                            }
                        },
                    }
                }
            },
        }
    }

    fn exec_deep_norm_param(&self, p: &Parameter, b: usize, fuel: usize) -> (r: Parameter)
        ensures
            r@ == deep_norm_param(self@, p@, b as nat, fuel as nat),
        decreases fuel, *p,
    {
        match p {
            Parameter::Ty(t) => Parameter::Ty(self.exec_deep_norm_ty(t, b, fuel)),
            Parameter::Lifetime(l) => Parameter::Lifetime(self.exec_deep_norm_lifetime(l, b, fuel)),
            Parameter::Const(c) => Parameter::Const(self.exec_deep_norm_const(c, b, fuel)),
        }
    }

    fn exec_deep_norm_params(&self, ps: &Vec<Parameter>, b: usize, fuel: usize) -> (r: Vec<
        Parameter,
    >)
        ensures
            params_view(r@) == deep_norm_params(self@, params_view(ps@), b as nat, fuel as nat),
        decreases fuel, *ps,
    {
        proof {
            lemma_params_view(ps@);
        }
        let mut out: Vec<Parameter> = Vec::new();
        let mut i: usize = 0;
        while i < ps.len()
            invariant
                i <= ps@.len(),
                out@.len() == i,
                params_view(ps@).len() == ps@.len(),
                forall|j: int| 0 <= j < ps@.len() ==> params_view(ps@)[j] == param_view(ps@[j]),
                forall|j: int|
                    0 <= j < i ==> param_view(out@[j]) == deep_norm_param(
                        self@,
                        param_view(ps@[j]),
                        b as nat,
                        fuel as nat,
                    ),
            decreases ps@.len() - i,
        {
            out.push(self.exec_deep_norm_param(&ps[i], b, fuel));
            i += 1;
        }
        proof {
            lemma_params_view(out@);
            lemma_deep_norm_params(self@, params_view(ps@), b as nat, fuel as nat);
            assert(params_view(out@) =~= deep_norm_params(
                self@,
                params_view(ps@),
                b as nat,
                fuel as nat,
            ));
        }
        out
    }
}

} // verus!
