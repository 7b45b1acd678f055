//! De Bruijn shifting.
//!
//! `up_shift(n)` adds `n` to every variable that is free with respect to
//! the traversal — every `Var(d)` with `d` at or past the running binder
//! count.  `down_shift(n)` subtracts `n` from every such depth and fails
//! when a free depth is smaller than `n`.  Bound variables are never
//! touched.  Shifting is what keeps synthesized terms depth-correct when
//! they are moved under or out of binders.

use vstd::prelude::*;

use crate::ir::{
    ApplicationTy, ApplicationTyV, Const, ConstV, Lifetime, LifetimeV, NoSolution, Parameter,
    ParameterV, ProjectionTy, ProjectionTyV, Ty, TyV, UnselectedProjectionTy,
    UnselectedProjectionTyV, lemma_params_view, param_view, params_view,
};

verus! {

// ---------------------------------------------------------------------------
// Specification: shifting a view up.
// ---------------------------------------------------------------------------

pub open spec fn shift_up_ty(t: TyV, binders: nat, n: nat) -> TyV
    decreases t,
{
    match t {
        TyV::Var(d) => if d >= binders {
            TyV::Var((d + n) as nat)
        } else {
            TyV::Var(d)
        },
        TyV::Apply(a) => TyV::Apply(
            ApplicationTyV { name: a.name, parameters: shift_up_params(a.parameters, binders, n) },
        ),
        TyV::Projection(p) => TyV::Projection(
            ProjectionTyV {
                associated_ty_id: p.associated_ty_id,
                parameters: shift_up_params(p.parameters, binders, n),
            },
        ),
        TyV::UnselectedProjection(p) => TyV::UnselectedProjection(
            UnselectedProjectionTyV {
                head_name: p.head_name,
                parameters: shift_up_params(p.parameters, binders, n),
            },
        ),
        TyV::ForAll(nb, ty) => TyV::ForAll(nb, Box::new(shift_up_ty(*ty, binders + nb, n))),
    }
}

pub open spec fn shift_up_lifetime(l: LifetimeV, binders: nat, n: nat) -> LifetimeV {
    match l {
        LifetimeV::Var(d) => if d >= binders {
            LifetimeV::Var((d + n) as nat)
        } else {
            LifetimeV::Var(d)
        },
        LifetimeV::ForAll(u) => LifetimeV::ForAll(u),
    }
}

pub open spec fn shift_up_const(c: ConstV, binders: nat, n: nat) -> ConstV {
    match c {
        ConstV::Var(d) => if d >= binders {
            ConstV::Var((d + n) as nat)
        } else {
            ConstV::Var(d)
        },
    }
}

pub open spec fn shift_up_param(p: ParameterV, binders: nat, n: nat) -> ParameterV
    decreases p,
{
    match p {
        ParameterV::Ty(t) => ParameterV::Ty(shift_up_ty(t, binders, n)),
        ParameterV::Lifetime(l) => ParameterV::Lifetime(shift_up_lifetime(l, binders, n)),
        ParameterV::Const(c) => ParameterV::Const(shift_up_const(c, binders, n)),
    }
}

pub open spec fn shift_up_params(ps: Seq<ParameterV>, binders: nat, n: nat) -> Seq<ParameterV>
    decreases ps,
{
    if ps.len() == 0 {
        Seq::empty()
    } else {
        shift_up_params(ps.drop_last(), binders, n).push(shift_up_param(ps.last(), binders, n))
    }
}

// ---------------------------------------------------------------------------
// Specification: shifting a view down; `None` when a free depth is < n.
// ---------------------------------------------------------------------------

pub open spec fn shift_down_ty(t: TyV, binders: nat, n: nat) -> Option<TyV>
    decreases t,
{
    match t {
        TyV::Var(d) => if d < binders {
            Some(TyV::Var(d))
        } else if d >= binders + n {
            Some(TyV::Var((d - n) as nat))
        } else {
            None
        },
        TyV::Apply(a) => match shift_down_params(a.parameters, binders, n) {
            Some(ps) => Some(TyV::Apply(ApplicationTyV { name: a.name, parameters: ps })),
            None => None,
        },
        TyV::Projection(p) => match shift_down_params(p.parameters, binders, n) {
            Some(ps) => Some(
                TyV::Projection(
                    ProjectionTyV { associated_ty_id: p.associated_ty_id, parameters: ps },
                ),
            ),
            None => None,
        },
        TyV::UnselectedProjection(p) => match shift_down_params(p.parameters, binders, n) {
            Some(ps) => Some(
                TyV::UnselectedProjection(
                    UnselectedProjectionTyV { head_name: p.head_name, parameters: ps },
                ),
            ),
            None => None,
        },
        TyV::ForAll(nb, ty) => match shift_down_ty(*ty, binders + nb, n) {
            Some(inner) => Some(TyV::ForAll(nb, Box::new(inner))),
            None => None,
        },
    }
}

pub open spec fn shift_down_lifetime(l: LifetimeV, binders: nat, n: nat) -> Option<LifetimeV> {
    match l {
        LifetimeV::Var(d) => if d < binders {
            Some(LifetimeV::Var(d))
        } else if d >= binders + n {
            Some(LifetimeV::Var((d - n) as nat))
        } else {
            None
        },
        LifetimeV::ForAll(u) => Some(LifetimeV::ForAll(u)),
    }
}

pub open spec fn shift_down_const(c: ConstV, binders: nat, n: nat) -> Option<ConstV> {
    match c {
        ConstV::Var(d) => if d < binders {
            Some(ConstV::Var(d))
        } else if d >= binders + n {
            Some(ConstV::Var((d - n) as nat))
        } else {
            None
        },
    }
}

pub open spec fn shift_down_param(p: ParameterV, binders: nat, n: nat) -> Option<ParameterV>
    decreases p,
{
    match p {
        ParameterV::Ty(t) => match shift_down_ty(t, binders, n) {
            Some(t2) => Some(ParameterV::Ty(t2)),
            None => None,
        },
        ParameterV::Lifetime(l) => match shift_down_lifetime(l, binders, n) {
            Some(l2) => Some(ParameterV::Lifetime(l2)),
            None => None,
        },
        ParameterV::Const(c) => match shift_down_const(c, binders, n) {
            Some(c2) => Some(ParameterV::Const(c2)),
            None => None,
        },
    }
}

pub open spec fn shift_down_params(ps: Seq<ParameterV>, binders: nat, n: nat) -> Option<
    Seq<ParameterV>,
>
    decreases ps,
{
    if ps.len() == 0 {
        Some(Seq::empty())
    } else {
        match (shift_down_params(ps.drop_last(), binders, n), shift_down_param(
            ps.last(),
            binders,
            n,
        )) {
            (Some(rest), Some(last)) => Some(rest.push(last)),
            _ => None,
        }
    }
}

// ---------------------------------------------------------------------------
// Machine bounds: the conditions under which the executable shifts cannot
// overflow a usize depth or binder counter.
// ---------------------------------------------------------------------------

pub open spec fn up_fits_ty(t: TyV, binders: nat, n: nat) -> bool
    decreases t,
{
    match t {
        TyV::Var(d) => d < binders || d + n <= usize::MAX,
        TyV::Apply(a) => up_fits_params(a.parameters, binders, n),
        TyV::Projection(p) => up_fits_params(p.parameters, binders, n),
        TyV::UnselectedProjection(p) => up_fits_params(p.parameters, binders, n),
        TyV::ForAll(nb, ty) => binders + nb <= usize::MAX && up_fits_ty(*ty, binders + nb, n),
    }
}

pub open spec fn up_fits_lifetime(l: LifetimeV, binders: nat, n: nat) -> bool {
    match l {
        LifetimeV::Var(d) => d < binders || d + n <= usize::MAX,
        LifetimeV::ForAll(_) => true,
    }
}

pub open spec fn up_fits_const(c: ConstV, binders: nat, n: nat) -> bool {
    match c {
        ConstV::Var(d) => d < binders || d + n <= usize::MAX,
    }
}

pub open spec fn up_fits_param(p: ParameterV, binders: nat, n: nat) -> bool
    decreases p,
{
    match p {
        ParameterV::Ty(t) => up_fits_ty(t, binders, n),
        ParameterV::Lifetime(l) => up_fits_lifetime(l, binders, n),
        ParameterV::Const(c) => up_fits_const(c, binders, n),
    }
}

pub open spec fn up_fits_params(ps: Seq<ParameterV>, binders: nat, n: nat) -> bool
    decreases ps,
{
    forall|i: int| 0 <= i < ps.len() ==> up_fits_param(#[trigger] ps[i], binders, n)
}

/// The binder counter of a downward traversal stays within usize.
pub open spec fn depth_ok_ty(t: TyV, binders: nat) -> bool
    decreases t,
{
    match t {
        TyV::Var(_) => true,
        TyV::Apply(a) => depth_ok_params(a.parameters, binders),
        TyV::Projection(p) => depth_ok_params(p.parameters, binders),
        TyV::UnselectedProjection(p) => depth_ok_params(p.parameters, binders),
        TyV::ForAll(nb, ty) => binders + nb <= usize::MAX && depth_ok_ty(*ty, binders + nb),
    }
}

pub open spec fn depth_ok_param(p: ParameterV, binders: nat) -> bool
    decreases p,
{
    match p {
        ParameterV::Ty(t) => depth_ok_ty(t, binders),
        ParameterV::Lifetime(_) => true,
        ParameterV::Const(_) => true,
    }
}

pub open spec fn depth_ok_params(ps: Seq<ParameterV>, binders: nat) -> bool
    decreases ps,
{
    forall|i: int| 0 <= i < ps.len() ==> depth_ok_param(#[trigger] ps[i], binders)
}

// ---------------------------------------------------------------------------
// Pointwise shape of the sequence shifts.
// ---------------------------------------------------------------------------

pub proof fn lemma_shift_up_params(ps: Seq<ParameterV>, binders: nat, n: nat)
    ensures
        shift_up_params(ps, binders, n).len() == ps.len(),
        forall|i: int|
            0 <= i < ps.len() ==> shift_up_params(ps, binders, n)[i] == shift_up_param(
                ps[i],
                binders,
                n,
            ),
    decreases ps,
{
    if ps.len() > 0 {
        lemma_shift_up_params(ps.drop_last(), binders, n);
    }
}

pub proof fn lemma_shift_down_params(ps: Seq<ParameterV>, binders: nat, n: nat)
    ensures
        shift_down_params(ps, binders, n) is Some <==> (forall|i: int|
            0 <= i < ps.len() ==> shift_down_param(#[trigger] ps[i], binders, n) is Some),
        shift_down_params(ps, binders, n) matches Some(r) ==> r.len() == ps.len() && (forall|
            i: int,
        |
            0 <= i < ps.len() ==> Some(r[i]) == shift_down_param(#[trigger] ps[i], binders, n)),
    decreases ps,
{
    if ps.len() > 0 {
        let rest = ps.drop_last();
        lemma_shift_down_params(rest, binders, n);
        let whole = shift_down_params(ps, binders, n);
        if whole is Some {
            let r = whole->Some_0;
            let rr = shift_down_params(rest, binders, n)->Some_0;
            assert forall|i: int|
                0 <= i < ps.len() implies shift_down_param(#[trigger] ps[i], binders, n)
                is Some && Some(r[i]) == shift_down_param(ps[i], binders, n) by {
                if i < ps.len() - 1 {
                    assert(ps[i] == rest[i]);
                    assert(r[i] == rr[i]);
                } else {
                    assert(ps[i] == ps.last());
                }
            }
        } else {
            if forall|i: int|
                0 <= i < ps.len() ==> shift_down_param(#[trigger] ps[i], binders, n) is Some {
                assert(shift_down_param(ps[ps.len() - 1], binders, n) is Some);
                assert(shift_down_param(ps.last(), binders, n) is Some);
                assert forall|i: int|
                    0 <= i < rest.len() implies shift_down_param(
                    #[trigger] rest[i],
                    binders,
                    n,
                ) is Some by {
                    assert(rest[i] == ps[i]);
                    assert(shift_down_param(ps[i], binders, n) is Some);
                }
                assert(shift_down_params(rest, binders, n) is Some);
                assert(false);
            }
        }
    }
}

// ---------------------------------------------------------------------------
// Executable shifts.
// ---------------------------------------------------------------------------

impl Ty {
    /// Add `n` to every free variable depth.
    pub fn up_shift(&self, n: usize) -> (r: Ty)
        requires
            up_fits_ty(self@, 0, n as nat),
        ensures
            r@ == shift_up_ty(self@, 0, n as nat),
    {
        up_shift_ty_at(self, 0, n)
    }

    /// Subtract `n` from every free variable depth; `Err` when some free
    /// depth is smaller than `n`.
    pub fn down_shift(&self, n: usize) -> (r: Result<Ty, NoSolution>)
        requires
            depth_ok_ty(self@, 0),
        ensures
            match r {
                Ok(t) => shift_down_ty(self@, 0, n as nat) == Some(t@),
                Err(_) => shift_down_ty(self@, 0, n as nat) is None,
            },
    {
        down_shift_ty_at(self, 0, n)
    }
}

impl Lifetime {
    pub fn up_shift(&self, n: usize) -> (r: Lifetime)
        requires
            up_fits_lifetime(self@, 0, n as nat),
        ensures
            r@ == shift_up_lifetime(self@, 0, n as nat),
    {
        up_shift_lifetime_at(self, 0, n)
    }

    pub fn down_shift(&self, n: usize) -> (r: Result<Lifetime, NoSolution>)
        ensures
            match r {
                Ok(l) => shift_down_lifetime(self@, 0, n as nat) == Some(l@),
                Err(_) => shift_down_lifetime(self@, 0, n as nat) is None,
            },
    {
        down_shift_lifetime_at(self, 0, n)
    }
}

impl Const {
    pub fn up_shift(&self, n: usize) -> (r: Const)
        requires
            up_fits_const(self@, 0, n as nat),
        ensures
            r@ == shift_up_const(self@, 0, n as nat),
    {
        up_shift_const_at(self, 0, n)
    }

    pub fn down_shift(&self, n: usize) -> (r: Result<Const, NoSolution>)
        ensures
            match r {
                Ok(c) => shift_down_const(self@, 0, n as nat) == Some(c@),
                Err(_) => shift_down_const(self@, 0, n as nat) is None,
            },
    {
        down_shift_const_at(self, 0, n)
    }
}

impl Parameter {
    pub fn up_shift(&self, n: usize) -> (r: Parameter)
        requires
            up_fits_param(self@, 0, n as nat),
        ensures
            r@ == shift_up_param(self@, 0, n as nat),
    {
        up_shift_param_at(self, 0, n)
    }

    pub fn down_shift(&self, n: usize) -> (r: Result<Parameter, NoSolution>)
        requires
            depth_ok_param(self@, 0),
        ensures
            match r {
                Ok(p) => shift_down_param(self@, 0, n as nat) == Some(p@),
                Err(_) => shift_down_param(self@, 0, n as nat) is None,
            },
    {
        down_shift_param_at(self, 0, n)
    }
}

pub fn up_shift_ty_at(t: &Ty, binders: usize, n: usize) -> (r: Ty)
    requires
        up_fits_ty(t@, binders as nat, n as nat),
    ensures
        r@ == shift_up_ty(t@, binders as nat, n as nat),
    decreases *t,
{
    match t {
        Ty::Var(d) => if *d >= binders {
            Ty::Var(*d + n)
        } else {
            Ty::Var(*d)
        },
        Ty::Apply(a) => Ty::Apply(
            ApplicationTy { name: a.name, parameters: up_shift_params_at(&a.parameters, binders, n) },
        ),
        Ty::Projection(p) => Ty::Projection(
            ProjectionTy {
                associated_ty_id: p.associated_ty_id,
                parameters: up_shift_params_at(&p.parameters, binders, n),
            },
        ),
        Ty::UnselectedProjection(p) => Ty::UnselectedProjection(
            UnselectedProjectionTy {
                head_name: p.head_name,
                parameters: up_shift_params_at(&p.parameters, binders, n),
            },
        ),
        Ty::ForAll { num_binders, ty } => Ty::ForAll {
            num_binders: *num_binders,
            ty: Box::new(up_shift_ty_at(&**ty, binders + *num_binders, n)),
        },
    }
}

pub fn up_shift_lifetime_at(l: &Lifetime, binders: usize, n: usize) -> (r: Lifetime)
    requires
        up_fits_lifetime(l@, binders as nat, n as nat),
    ensures
        r@ == shift_up_lifetime(l@, binders as nat, n as nat),
{
    match l {
        Lifetime::Var(d) => if *d >= binders {
            Lifetime::Var(*d + n)
        } else {
            Lifetime::Var(*d)
        },
        Lifetime::ForAll(u) => Lifetime::ForAll(*u),
    }
}

pub fn up_shift_const_at(c: &Const, binders: usize, n: usize) -> (r: Const)
    requires
        up_fits_const(c@, binders as nat, n as nat),
    ensures
        r@ == shift_up_const(c@, binders as nat, n as nat),
{
    match c {
        Const::Var(d) => if *d >= binders {
            Const::Var(*d + n)
        } else {
            Const::Var(*d)
        },
    }
}

pub fn up_shift_param_at(p: &Parameter, binders: usize, n: usize) -> (r: Parameter)
    requires
        up_fits_param(p@, binders as nat, n as nat),
    ensures
        r@ == shift_up_param(p@, binders as nat, n as nat),
    decreases *p,
{
    match p {
        Parameter::Ty(t) => Parameter::Ty(up_shift_ty_at(t, binders, n)),
        Parameter::Lifetime(l) => Parameter::Lifetime(up_shift_lifetime_at(l, binders, n)),
        Parameter::Const(c) => Parameter::Const(up_shift_const_at(c, binders, n)),
    }
}

pub fn up_shift_params_at(ps: &Vec<Parameter>, binders: usize, n: usize) -> (r: Vec<Parameter>)
    requires
        up_fits_params(params_view(ps@), binders as nat, n as nat),
    ensures
        params_view(r@) == shift_up_params(params_view(ps@), binders as nat, n as nat),
    decreases *ps,
{
    proof {
        lemma_params_view(ps@);
    }
    let mut out: Vec<Parameter> = Vec::new();
    let mut i: usize = 0;
    while i < ps.len()
        invariant
            i <= ps@.len(),
            out@.len() == i,
            up_fits_params(params_view(ps@), binders as nat, n as nat),
            params_view(ps@).len() == ps@.len(),
            forall|j: int| 0 <= j < ps@.len() ==> params_view(ps@)[j] == param_view(ps@[j]),
            forall|j: int|
                0 <= j < i ==> param_view(out@[j]) == shift_up_param(
                    param_view(ps@[j]),
                    binders as nat,
                    n as nat,
                ),
        decreases ps@.len() - i,
    {
        proof {
            assert(up_fits_param(params_view(ps@)[i as int], binders as nat, n as nat));
        }
        out.push(up_shift_param_at(&ps[i], binders, n));
        i += 1;
    }
    proof {
        lemma_params_view(out@);
        lemma_shift_up_params(params_view(ps@), binders as nat, n as nat);
        assert(params_view(out@) =~= shift_up_params(params_view(ps@), binders as nat, n as nat));
    }
    out
}

pub fn down_shift_ty_at(t: &Ty, binders: usize, n: usize) -> (r: Result<Ty, NoSolution>)
    requires
        depth_ok_ty(t@, binders as nat),
    ensures
        match r {
            Ok(t2) => shift_down_ty(t@, binders as nat, n as nat) == Some(t2@),
            Err(_) => shift_down_ty(t@, binders as nat, n as nat) is None,
        },
    decreases *t,
{
    match t {
        Ty::Var(d) => if *d < binders {
            Ok(Ty::Var(*d))
        } else if *d - binders >= n {
            Ok(Ty::Var(*d - n))
        } else {
            Err(NoSolution)
        },
        Ty::Apply(a) => match down_shift_params_at(&a.parameters, binders, n) {
            Ok(ps) => Ok(Ty::Apply(ApplicationTy { name: a.name, parameters: ps })),
            Err(e) => Err(e),
        },
        Ty::Projection(p) => match down_shift_params_at(&p.parameters, binders, n) {
            Ok(ps) => Ok(
                Ty::Projection(ProjectionTy { associated_ty_id: p.associated_ty_id, parameters: ps }),
            ),
            Err(e) => Err(e),
        },
        Ty::UnselectedProjection(p) => match down_shift_params_at(&p.parameters, binders, n) {
            Ok(ps) => Ok(
                Ty::UnselectedProjection(
                    UnselectedProjectionTy { head_name: p.head_name, parameters: ps },
                ),
            ),
            Err(e) => Err(e),
        },
        Ty::ForAll { num_binders, ty } => match down_shift_ty_at(&**ty, binders + *num_binders, n) {
            Ok(inner) => Ok(Ty::ForAll { num_binders: *num_binders, ty: Box::new(inner) }),
            Err(e) => Err(e),
        },
    }
}

pub fn down_shift_lifetime_at(l: &Lifetime, binders: usize, n: usize) -> (r: Result<
    Lifetime,
    NoSolution,
>)
    ensures
        match r {
            Ok(l2) => shift_down_lifetime(l@, binders as nat, n as nat) == Some(l2@),
            Err(_) => shift_down_lifetime(l@, binders as nat, n as nat) is None,
        },
{
    match l {
        Lifetime::Var(d) => if *d < binders {
            Ok(Lifetime::Var(*d))
        } else if *d - binders >= n {
            Ok(Lifetime::Var(*d - n))
        } else {
            Err(NoSolution)
        },
        Lifetime::ForAll(u) => Ok(Lifetime::ForAll(*u)),
    }
}

pub fn down_shift_const_at(c: &Const, binders: usize, n: usize) -> (r: Result<Const, NoSolution>)
    ensures
        match r {
            Ok(c2) => shift_down_const(c@, binders as nat, n as nat) == Some(c2@),
            Err(_) => shift_down_const(c@, binders as nat, n as nat) is None,
        },
{
    match c {
        Const::Var(d) => if *d < binders {
            Ok(Const::Var(*d))
        } else if *d - binders >= n {
            Ok(Const::Var(*d - n))
        } else {
            Err(NoSolution)
        },
    }
}

pub fn down_shift_param_at(p: &Parameter, binders: usize, n: usize) -> (r: Result<
    Parameter,
    NoSolution,
>)
    requires
        depth_ok_param(p@, binders as nat),
    ensures
        match r {
            Ok(p2) => shift_down_param(p@, binders as nat, n as nat) == Some(p2@),
            Err(_) => shift_down_param(p@, binders as nat, n as nat) is None,
        },
    decreases *p,
{
    match p {
        Parameter::Ty(t) => match down_shift_ty_at(t, binders, n) {
            Ok(t2) => Ok(Parameter::Ty(t2)),
            Err(e) => Err(e),
        },
        Parameter::Lifetime(l) => match down_shift_lifetime_at(l, binders, n) {
            Ok(l2) => Ok(Parameter::Lifetime(l2)),
            Err(e) => Err(e),
        },
        Parameter::Const(c) => match down_shift_const_at(c, binders, n) {
            Ok(c2) => Ok(Parameter::Const(c2)),
            Err(e) => Err(e),
        },
    }
}

pub fn down_shift_params_at(ps: &Vec<Parameter>, binders: usize, n: usize) -> (r: Result<
    Vec<Parameter>,
    NoSolution,
>)
    requires
        depth_ok_params(params_view(ps@), binders as nat),
    ensures
        match r {
            Ok(ps2) => shift_down_params(params_view(ps@), binders as nat, n as nat) == Some(
                params_view(ps2@),
            ),
            Err(_) => shift_down_params(params_view(ps@), binders as nat, n as nat) is None,
        },
    decreases *ps,
{
    proof {
        lemma_params_view(ps@);
        lemma_shift_down_params(params_view(ps@), binders as nat, n as nat);
    }
    let mut out: Vec<Parameter> = Vec::new();
    let mut i: usize = 0;
    while i < ps.len()
        invariant
            i <= ps@.len(),
            out@.len() == i,
            depth_ok_params(params_view(ps@), binders as nat),
            params_view(ps@).len() == ps@.len(),
            forall|j: int| 0 <= j < ps@.len() ==> params_view(ps@)[j] == param_view(ps@[j]),
            forall|j: int|
                0 <= j < i ==> Some(param_view(out@[j])) == shift_down_param(
                    param_view(ps@[j]),
                    binders as nat,
                    n as nat,
                ),
        decreases ps@.len() - i,
    {
        proof {
            assert(depth_ok_param(params_view(ps@)[i as int], binders as nat));
        }
        match down_shift_param_at(&ps[i], binders, n) {
            Ok(p2) => out.push(p2),
            Err(e) => {
                proof {
                    let ps_v = params_view(ps@);
                    lemma_shift_down_params(ps_v, binders as nat, n as nat);
                    assert(ps_v[i as int] == param_view(ps@[i as int]));
                    assert(shift_down_param(ps_v[i as int], binders as nat, n as nat) is None);
                    if shift_down_params(ps_v, binders as nat, n as nat) is Some {
                        assert(shift_down_param(ps_v[i as int], binders as nat, n as nat) is Some);
                        assert(false);
                    }
                }
                return Err(e);
            },
        }
        i += 1;
    }
    proof {
        lemma_params_view(out@);
        lemma_params_view(ps@);
        let ps_v = params_view(ps@);
        lemma_shift_down_params(ps_v, binders as nat, n as nat);
        assert forall|j: int|
            0 <= j < ps@.len() implies shift_down_param(
            #[trigger] ps_v[j],
            binders as nat,
            n as nat,
        ) is Some by {
            assert(ps_v[j] == param_view(ps@[j]));
            assert(Some(param_view(out@[j])) == shift_down_param(
                param_view(ps@[j]),
                binders as nat,
                n as nat,
            ));
        }
        let spec_r = shift_down_params(ps_v, binders as nat, n as nat);
        assert(spec_r is Some);
        let r = spec_r->Some_0;
        assert forall|j: int| 0 <= j < ps@.len() implies params_view(out@)[j] == r[j] by {
            assert(Some(r[j]) == shift_down_param(ps_v[j], binders as nat, n as nat));
            assert(ps_v[j] == param_view(ps@[j]));
            assert(Some(param_view(out@[j])) == shift_down_param(
                param_view(ps@[j]),
                binders as nat,
                n as nat,
            ));
            assert(params_view(out@)[j] == param_view(out@[j]));
        }
        assert(params_view(out@) =~= r);
    }
    Ok(out)
}

// ---------------------------------------------------------------------------
// The round trip: shifting up then down restores the term.
// ---------------------------------------------------------------------------

pub proof fn lemma_shift_round_trip_ty(t: TyV, binders: nat, n: nat)
    ensures
        shift_down_ty(shift_up_ty(t, binders, n), binders, n) == Some(t),
    decreases t,
{
    match t {
        TyV::Var(_) => {},
        TyV::Apply(a) => {
            lemma_shift_round_trip_params(a.parameters, binders, n);
        },
        TyV::Projection(p) => {
            lemma_shift_round_trip_params(p.parameters, binders, n);
        },
        TyV::UnselectedProjection(p) => {
            lemma_shift_round_trip_params(p.parameters, binders, n);
        },
        TyV::ForAll(nb, ty) => {
            lemma_shift_round_trip_ty(*ty, binders + nb, n);
        },
    }
}

pub proof fn lemma_shift_round_trip_param(p: ParameterV, binders: nat, n: nat)
    ensures
        shift_down_param(shift_up_param(p, binders, n), binders, n) == Some(p),
    decreases p,
{
    match p {
        ParameterV::Ty(t) => {
            lemma_shift_round_trip_ty(t, binders, n);
        },
        ParameterV::Lifetime(_) => {},
        ParameterV::Const(_) => {},
    }
}

pub proof fn lemma_shift_round_trip_params(ps: Seq<ParameterV>, binders: nat, n: nat)
    ensures
        shift_down_params(shift_up_params(ps, binders, n), binders, n) == Some(ps),
    decreases ps,
{
    if ps.len() == 0 {
        assert(shift_down_params(shift_up_params(ps, binders, n), binders, n) matches Some(r)
            ==> r =~= ps);
    } else {
        lemma_shift_round_trip_params(ps.drop_last(), binders, n);
        lemma_shift_round_trip_param(ps.last(), binders, n);
        let up = shift_up_params(ps, binders, n);
        assert(up.drop_last() =~= shift_up_params(ps.drop_last(), binders, n));
        assert(up.last() == shift_up_param(ps.last(), binders, n));
        let down = shift_down_params(up, binders, n);
        assert(down matches Some(r) ==> r =~= ps);
    }
}

// ---------------------------------------------------------------------------
// Shifting by zero is the identity.
// ---------------------------------------------------------------------------

pub proof fn lemma_shift_up_ty_zero(t: TyV, binders: nat)
    ensures
        shift_up_ty(t, binders, 0) == t,
    decreases t,
{
    match t {
        TyV::Var(_) => {},
        TyV::Apply(a) => {
            lemma_shift_up_params_zero(a.parameters, binders);
            assert(shift_up_ty(t, binders, 0) == TyV::Apply(
                ApplicationTyV { name: a.name, parameters: a.parameters },
            ));
        },
        TyV::Projection(p) => {
            lemma_shift_up_params_zero(p.parameters, binders);
            assert(shift_up_ty(t, binders, 0) == TyV::Projection(
                ProjectionTyV { associated_ty_id: p.associated_ty_id, parameters: p.parameters },
            ));
        },
        TyV::UnselectedProjection(p) => {
            lemma_shift_up_params_zero(p.parameters, binders);
            assert(shift_up_ty(t, binders, 0) == TyV::UnselectedProjection(
                UnselectedProjectionTyV { head_name: p.head_name, parameters: p.parameters },
            ));
        },
        TyV::ForAll(nb, ty) => {
            lemma_shift_up_ty_zero(*ty, binders + nb);
            assert(shift_up_ty(t, binders, 0) == TyV::ForAll(nb, Box::new(*ty)));
        },
    }
}

pub proof fn lemma_shift_up_param_zero(p: ParameterV, binders: nat)
    ensures
        shift_up_param(p, binders, 0) == p,
    decreases p,
{
    match p {
        ParameterV::Ty(t) => {
            lemma_shift_up_ty_zero(t, binders);
        },
        ParameterV::Lifetime(_) => {},
        ParameterV::Const(_) => {},
    }
}

pub proof fn lemma_shift_up_params_zero(ps: Seq<ParameterV>, binders: nat)
    ensures
        shift_up_params(ps, binders, 0) =~= ps,
    decreases ps,
{
    if ps.len() > 0 {
        lemma_shift_up_params_zero(ps.drop_last(), binders);
        lemma_shift_up_param_zero(ps.last(), binders);
    }
}

} // verus!
