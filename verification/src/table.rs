//! The inference table: per-kind stores of existential variables.
//!
//! Each variable is born into a universe, may become instantiated once,
//! and is then pinned.  The table also tracks the greatest universe
//! created so far; fresh universes are strictly greater than everything
//! before them.  Snapshots capture the whole state; rolling back
//! restores it exactly.

use vstd::prelude::*;

use crate::clone_impls::{clone_lifetime_slots, clone_const_slots, clone_ty, clone_ty_slots};
use crate::ir::{
    Const, ConstV, InferenceVariable, Lifetime, LifetimeV, ParamKind, Ty, TyV, UniverseIndex,
    const_view, lifetime_view, ty_view,
};
use crate::shift::{lemma_shift_up_ty_zero, shift_up_ty, up_fits_ty, up_shift_ty_at};

verus! {

/// One existential variable: the universe it was created in and, once
/// unification has pinned it, its value.
#[derive(Debug, PartialEq, Eq)]
pub struct VarSlot<T> {
    pub universe: UniverseIndex,
    pub value: Option<T>,
}

/// Mathematical view of a variable slot.
#[verifier::ext_equal]
pub struct SlotV<V> {
    pub universe: nat,
    pub value: Option<V>,
}

pub open spec fn ty_slot_view(s: VarSlot<Ty>) -> SlotV<TyV> {
    SlotV {
        universe: s.universe.counter as nat,
        value: match s.value {
            Some(t) => Some(ty_view(t)),
            None => None,
        },
    }
}

pub open spec fn lifetime_slot_view(s: VarSlot<Lifetime>) -> SlotV<LifetimeV> {
    SlotV {
        universe: s.universe.counter as nat,
        value: match s.value {
            Some(l) => Some(lifetime_view(l)),
            None => None,
        },
    }
}

pub open spec fn const_slot_view(s: VarSlot<Const>) -> SlotV<ConstV> {
    SlotV {
        universe: s.universe.counter as nat,
        value: match s.value {
            Some(c) => Some(const_view(c)),
            None => None,
        },
    }
}

/// Mathematical view of the whole table.
#[verifier::ext_equal]
pub struct TableV {
    pub ty_vars: Seq<SlotV<TyV>>,
    pub lifetime_vars: Seq<SlotV<LifetimeV>>,
    pub const_vars: Seq<SlotV<ConstV>>,
    pub max_universe: nat,
}

/// The store of existential variables, one store per parameter kind.
#[derive(Debug, PartialEq, Eq)]
pub struct InferenceTable {
    pub ty_vars: Vec<VarSlot<Ty>>,
    pub lifetime_vars: Vec<VarSlot<Lifetime>>,
    pub const_vars: Vec<VarSlot<Const>>,
    pub max_universe: UniverseIndex,
}

impl View for InferenceTable {
    type V = TableV;

    open spec fn view(&self) -> TableV {
        TableV {
            ty_vars: self.ty_vars@.map_values(|s: VarSlot<Ty>| ty_slot_view(s)),
            lifetime_vars: self.lifetime_vars@.map_values(
                |s: VarSlot<Lifetime>| lifetime_slot_view(s),
            ),
            const_vars: self.const_vars@.map_values(|s: VarSlot<Const>| const_slot_view(s)),
            max_universe: self.max_universe.counter as nat,
        }
    }
}

// ---------------------------------------------------------------------------
// Probing, as a specification.
// ---------------------------------------------------------------------------

pub open spec fn probe_ty(st: TableV, i: nat) -> Option<TyV> {
    if i < st.ty_vars.len() {
        st.ty_vars[i as int].value
    } else {
        None
    }
}

pub open spec fn probe_lifetime(st: TableV, i: nat) -> Option<LifetimeV> {
    if i < st.lifetime_vars.len() {
        st.lifetime_vars[i as int].value
    } else {
        None
    }
}

pub open spec fn probe_const(st: TableV, i: nat) -> Option<ConstV> {
    if i < st.const_vars.len() {
        st.const_vars[i as int].value
    } else {
        None
    }
}

/// What `normalize_shallow` returns: the instantiation of a free
/// variable, shifted up to the depth it is read at; `None` for anything
/// that is not an instantiated free variable.
pub open spec fn normalize_shallow_ty_spec(st: TableV, t: TyV, binders: nat) -> Option<TyV> {
    match t {
        TyV::Var(d) => if d >= binders {
            match probe_ty(st, (d - binders) as nat) {
                Some(v) => Some(shift_up_ty(v, 0, binders)),
                None => None,
            }
        } else {
            None
        },
        _ => None,
    }
}

pub open spec fn normalize_shallow_lifetime_spec(st: TableV, l: LifetimeV, binders: nat) -> Option<
    LifetimeV,
> {
    match l {
        LifetimeV::Var(d) => if d >= binders {
            match probe_lifetime(st, (d - binders) as nat) {
                Some(v) => Some(crate::shift::shift_up_lifetime(v, 0, binders)),
                None => None,
            }
        } else {
            None
        },
        _ => None,
    }
}

pub open spec fn normalize_shallow_const_spec(st: TableV, c: ConstV, binders: nat) -> Option<
    ConstV,
> {
    match c {
        ConstV::Var(d) => if d >= binders {
            match probe_const(st, (d - binders) as nat) {
                Some(v) => Some(crate::shift::shift_up_const(v, 0, binders)),
                None => None,
            }
        } else {
            None
        },
    }
}

impl InferenceTable {
    /// An empty table: no variables, the root universe only.
    pub fn new() -> (r: InferenceTable)
        ensures
            r@.ty_vars =~= Seq::<SlotV<TyV>>::empty(),
            r@.lifetime_vars =~= Seq::<SlotV<LifetimeV>>::empty(),
            r@.const_vars =~= Seq::<SlotV<ConstV>>::empty(),
            r@.max_universe == 0,
    {
        InferenceTable {
            ty_vars: Vec::new(),
            lifetime_vars: Vec::new(),
            const_vars: Vec::new(),
            max_universe: UniverseIndex::root(),
        }
    }

    /// Allocate a fresh existential variable of the given kind in the
    /// given universe.  The new variable is uninstantiated; the table's
    /// greatest universe absorbs `ui`.
    pub fn new_variable(&mut self, kind: ParamKind, ui: UniverseIndex) -> (r: InferenceVariable)
        ensures
            kind == ParamKind::Ty ==> {
                &&& final(self)@.ty_vars =~= old(self)@.ty_vars.push(
                    SlotV { universe: ui.counter as nat, value: None },
                )
                &&& r.index == old(self)@.ty_vars.len()
                &&& final(self)@.lifetime_vars == old(self)@.lifetime_vars
                &&& final(self)@.const_vars == old(self)@.const_vars
            },
            kind == ParamKind::Lifetime ==> {
                &&& final(self)@.lifetime_vars =~= old(self)@.lifetime_vars.push(
                    SlotV { universe: ui.counter as nat, value: None },
                )
                &&& r.index == old(self)@.lifetime_vars.len()
                &&& final(self)@.ty_vars == old(self)@.ty_vars
                &&& final(self)@.const_vars == old(self)@.const_vars
            },
            kind == ParamKind::Const ==> {
                &&& final(self)@.const_vars =~= old(self)@.const_vars.push(
                    SlotV { universe: ui.counter as nat, value: None },
                )
                &&& r.index == old(self)@.const_vars.len()
                &&& final(self)@.ty_vars == old(self)@.ty_vars
                &&& final(self)@.lifetime_vars == old(self)@.lifetime_vars
            },
            final(self)@.max_universe == if ui.counter as nat > old(self)@.max_universe {
                ui.counter as nat
            } else {
                old(self)@.max_universe
            },
    {
        if ui.counter > self.max_universe.counter {
            self.max_universe = ui;
        }
        match kind {
            ParamKind::Ty => {
                let index = self.ty_vars.len();
                self.ty_vars.push(VarSlot { universe: ui, value: None });
                InferenceVariable { index }
            },
            ParamKind::Lifetime => {
                let index = self.lifetime_vars.len();
                self.lifetime_vars.push(VarSlot { universe: ui, value: None });
                InferenceVariable { index }
            },
            ParamKind::Const => {
                let index = self.const_vars.len();
                self.const_vars.push(VarSlot { universe: ui, value: None });
                InferenceVariable { index }
            },
        }
    }

    /// Allocate a universe strictly greater than every universe created
    /// so far.
    pub fn new_universe(&mut self) -> (r: UniverseIndex)
        requires
            old(self)@.max_universe < usize::MAX,
        ensures
            r.counter as nat == old(self)@.max_universe + 1,
            final(self)@.max_universe == old(self)@.max_universe + 1,
            final(self)@.ty_vars == old(self)@.ty_vars,
            final(self)@.lifetime_vars == old(self)@.lifetime_vars,
            final(self)@.const_vars == old(self)@.const_vars,
    {
        let next = UniverseIndex { counter: self.max_universe.counter + 1 };
        self.max_universe = next;
        next
    }

    /// Peek the current instantiation of a type variable.
    pub fn probe_ty_var(&self, var: InferenceVariable) -> (r: Option<Ty>)
        ensures
            match r {
                Some(t) => probe_ty(self@, var.index as nat) == Some(t@),
                None => probe_ty(self@, var.index as nat) is None,
            },
    {
        if var.index < self.ty_vars.len() {
            match &self.ty_vars[var.index].value {
                Some(t) => Some(clone_ty(t)),
                None => None,
            }
        } else {
            None
        }
    }

    /// Peek the current instantiation of a lifetime variable.
    pub fn probe_lifetime_var(&self, var: InferenceVariable) -> (r: Option<Lifetime>)
        ensures
            match r {
                Some(l) => probe_lifetime(self@, var.index as nat) == Some(l@),
                None => probe_lifetime(self@, var.index as nat) is None,
            },
    {
        if var.index < self.lifetime_vars.len() {
            self.lifetime_vars[var.index].value
        } else {
            None
        }
    }

    /// Peek the current instantiation of a const variable.
    pub fn probe_const_var(&self, var: InferenceVariable) -> (r: Option<Const>)
        ensures
            match r {
                Some(c) => probe_const(self@, var.index as nat) == Some(c@),
                None => probe_const(self@, var.index as nat) is None,
            },
    {
        if var.index < self.const_vars.len() {
            self.const_vars[var.index].value
        } else {
            None
        }
    }

    /// If `ty`, read under `binders` enclosing binders, is a free
    /// variable whose representative is instantiated, return that
    /// instantiation shifted up by `binders`; else `None`.
    pub fn normalize_shallow(&self, ty: &Ty, binders: usize) -> (r: Option<Ty>)
        requires
            binders == 0 || (match ty@ {
                TyV::Var(d) => d >= binders ==> (match probe_ty(
                    self@,
                    (d - binders) as nat,
                ) {
                    Some(v) => up_fits_ty(v, 0, binders as nat),
                    None => true,
                }),
                _ => true,
            }),
        ensures
            match r {
                Some(t) => normalize_shallow_ty_spec(self@, ty@, binders as nat) == Some(t@),
                None => normalize_shallow_ty_spec(self@, ty@, binders as nat) is None,
            },
    {
        match ty {
            Ty::Var(d) => {
                if *d >= binders {
                    match self.probe_ty_var(InferenceVariable { index: *d - binders }) {
                        Some(v) => {
                            if binders == 0 {
                                proof {
                                    lemma_shift_up_ty_zero(v@, 0);
                                }
                                Some(v)
                            } else {
                                Some(up_shift_ty_at(&v, 0, binders))
                            }
                        },
                        None => None,
                    }
                } else {
                    None
                }
            },
            _ => None,
        }
    }

    /// As `normalize_shallow`, for a lifetime.
    pub fn normalize_lifetime(&self, l: &Lifetime, binders: usize) -> (r: Option<Lifetime>)
        requires
            binders == 0 || (match l@ {
                LifetimeV::Var(d) => d >= binders ==> (match probe_lifetime(
                    self@,
                    (d - binders) as nat,
                ) {
                    Some(v) => crate::shift::up_fits_lifetime(v, 0, binders as nat),
                    None => true,
                }),
                _ => true,
            }),
        ensures
            match r {
                Some(l2) => normalize_shallow_lifetime_spec(self@, l@, binders as nat) == Some(l2@),
                None => normalize_shallow_lifetime_spec(self@, l@, binders as nat) is None,
            },
    {
        match l {
            Lifetime::Var(d) => {
                if *d >= binders {
                    match self.probe_lifetime_var(InferenceVariable { index: *d - binders }) {
                        Some(v) => Some(crate::shift::up_shift_lifetime_at(&v, 0, binders)),
                        None => None,
                    }
                } else {
                    None
                }
            },
            _ => None,
        }
    }

    /// As `normalize_shallow`, for a const.
    pub fn normalize_const(&self, c: &Const, binders: usize) -> (r: Option<Const>)
        requires
            binders == 0 || (match c@ {
                ConstV::Var(d) => d >= binders ==> (match probe_const(
                    self@,
                    (d - binders) as nat,
                ) {
                    Some(v) => crate::shift::up_fits_const(v, 0, binders as nat),
                    None => true,
                }),
            }),
        ensures
            match r {
                Some(c2) => normalize_shallow_const_spec(self@, c@, binders as nat) == Some(c2@),
                None => normalize_shallow_const_spec(self@, c@, binders as nat) is None,
            },
    {
        match c {
            Const::Var(d) => {
                if *d >= binders {
                    match self.probe_const_var(InferenceVariable { index: *d - binders }) {
                        Some(v) => Some(crate::shift::up_shift_const_at(&v, 0, binders)),
                        None => None,
                    }
                } else {
                    None
                }
            },
        }
    }

    /// Capture the current state; `rollback_to` restores it exactly.
    pub fn snapshot(&self) -> (r: Snapshot)
        ensures
            r.saved@ == self@,
    {
        let saved = InferenceTable {
            ty_vars: clone_ty_slots(&self.ty_vars),
            lifetime_vars: clone_lifetime_slots(&self.lifetime_vars),
            const_vars: clone_const_slots(&self.const_vars),
            max_universe: self.max_universe,
        };
        proof {
            assert(saved@.ty_vars =~= self@.ty_vars);
            assert(saved@.lifetime_vars =~= self@.lifetime_vars);
            assert(saved@.const_vars =~= self@.const_vars);
        }
        Snapshot { saved }
    }

    /// Undo everything since the snapshot was taken.
    pub fn rollback_to(&mut self, snapshot: Snapshot)
        ensures
            final(self)@ == snapshot.saved@,
    {
        let Snapshot { saved } = snapshot;
        *self = saved;
    }

    /// Accept everything since the snapshot was taken.
    pub fn commit(&mut self, snapshot: Snapshot)
        ensures
            final(self)@ == old(self)@,
    {
        let Snapshot { saved: _ } = snapshot;
    }
}

/// A captured table state.  Snapshots bracket speculative work: the
/// scheduler commits or rolls back before yielding the table.
#[derive(Debug, PartialEq, Eq)]
pub struct Snapshot {
    pub saved: InferenceTable,
}

} // verus!
