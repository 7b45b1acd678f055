//! Rendering terms, against an optional program.
//!
//! The engine itself never needs names; rendering does.  A [`Program`]
//! carries, as plain data, what the name queries return: the declared
//! name of a nominal item, and for an associated type its trait, its
//! name and the arity of that trait — enough to split a projection's
//! parameter list and render it `<T as Trait<..>>::Item<..>`.  When no
//! program is at hand, or an id is not in it, structural fallbacks
//! (index literals, raw id forms) apply.  Callers that want the current
//! variable state rendered normalize deeply first; the renderer never
//! reads the inference table.

use vstd::prelude::*;

use crate::ir::{
    Const, ConstV, Identifier, ItemId, Lifetime, LifetimeV, Parameter, ParameterV, ProjectionTyV,
    Ty, TyV, TypeName, TypeNameV, UniverseIndex, lemma_params_view, param_view, params_view,
};

verus! {

// ---------------------------------------------------------------------------
// The program, as plain data.
// ---------------------------------------------------------------------------

/// The declared name of a nominal item.
#[derive(Debug)]
pub struct TypeKind {
    pub id: ItemId,
    pub name: String,
}

/// What the program knows of an associated type: the trait it belongs
/// to, its name, and how many of a projection's parameters belong to
/// the trait.
#[derive(Debug)]
pub struct AssociatedTyDatum {
    pub id: ItemId,
    pub trait_id: ItemId,
    pub name: String,
    pub num_trait_parameters: usize,
}

/// The name oracle, threaded through rendering calls explicitly.
#[derive(Debug)]
pub struct Program {
    pub type_kinds: Vec<TypeKind>,
    pub associated_ty_data: Vec<AssociatedTyDatum>,
}

pub struct TypeKindV {
    pub id: nat,
    pub name: Seq<char>,
}

pub struct AssociatedTyDatumV {
    pub id: nat,
    pub trait_id: nat,
    pub name: Seq<char>,
    pub num_trait_parameters: nat,
}

#[verifier::ext_equal]
pub struct ProgramV {
    pub type_kinds: Seq<TypeKindV>,
    pub associated_ty_data: Seq<AssociatedTyDatumV>,
}

impl View for Program {
    type V = ProgramV;

    open spec fn view(&self) -> ProgramV {
        ProgramV {
            type_kinds: self.type_kinds@.map_values(
                |k: TypeKind| TypeKindV { id: k.id.index as nat, name: k.name@ },
            ),
            associated_ty_data: self.associated_ty_data@.map_values(
                |d: AssociatedTyDatum|
                    AssociatedTyDatumV {
                        id: d.id.index as nat,
                        trait_id: d.trait_id.index as nat,
                        name: d.name@,
                        num_trait_parameters: d.num_trait_parameters as nat,
                    },
            ),
        }
    }
}

/// The program a renderer was handed, if any.
pub open spec fn opt_program_view(program: Option<&Program>) -> Option<ProgramV> {
    match program {
        Some(p) => Some(p@),
        None => None,
    }
}

/// The first type kind declared for `id`, scanning in order.
pub open spec fn lookup_type_kind(ks: Seq<TypeKindV>, id: nat) -> Option<Seq<char>>
    decreases ks.len(),
{
    if ks.len() == 0 {
        None
    } else if ks[0].id == id {
        Some(ks[0].name)
    } else {
        lookup_type_kind(ks.drop_first(), id)
    }
}

/// The first associated-type datum declared for `id`, scanning in order.
pub open spec fn lookup_assoc(ds: Seq<AssociatedTyDatumV>, id: nat) -> Option<AssociatedTyDatumV>
    decreases ds.len(),
{
    if ds.len() == 0 {
        None
    } else if ds[0].id == id {
        Some(ds[0])
    } else {
        lookup_assoc(ds.drop_first(), id)
    }
}

impl Program {
    /// The declared name of a nominal item, if the program has one.
    pub fn type_kind_name(&self, id: ItemId) -> (r: Option<&String>)
        ensures
            match r {
                Some(name) => lookup_type_kind(self@.type_kinds, id.index as nat) == Some(name@),
                None => lookup_type_kind(self@.type_kinds, id.index as nat) is None,
            },
    {
        let ghost ks = self@.type_kinds;
        proof {
            assert(ks.skip(0) =~= ks);
        }
        let mut i: usize = 0;
        while i < self.type_kinds.len()
            invariant
                i <= self.type_kinds@.len(),
                ks == self@.type_kinds,
                ks.len() == self.type_kinds@.len(),
                forall|j: int| 0 <= j < ks.len() ==> (#[trigger] ks[j]).id
                    == self.type_kinds@[j].id.index as nat && ks[j].name
                    == self.type_kinds@[j].name@,
                lookup_type_kind(ks, id.index as nat) == lookup_type_kind(
                    ks.skip(i as int),
                    id.index as nat,
                ),
            decreases self.type_kinds@.len() - i,
        {
            proof {
                assert(ks.skip(i as int).drop_first() =~= ks.skip(i + 1));
                assert(ks.skip(i as int)[0] == ks[i as int]);
            }
            if self.type_kinds[i].id.index == id.index {
                return Some(&self.type_kinds[i].name);
            }
            i += 1;
        }
        proof {
            assert(ks.skip(ks.len() as int) =~= Seq::<TypeKindV>::empty());
        }
        None
    }

    /// The associated-type datum of an item, if the program has one.
    pub fn associated_ty_datum(&self, id: ItemId) -> (r: Option<&AssociatedTyDatum>)
        ensures
            match r {
                Some(d) => lookup_assoc(self@.associated_ty_data, id.index as nat) == Some(
                    AssociatedTyDatumV {
                        id: d.id.index as nat,
                        trait_id: d.trait_id.index as nat,
                        name: d.name@,
                        num_trait_parameters: d.num_trait_parameters as nat,
                    },
                ),
                None => lookup_assoc(self@.associated_ty_data, id.index as nat) is None,
            },
    {
        let ghost ds = self@.associated_ty_data;
        proof {
            assert(ds.skip(0) =~= ds);
        }
        let mut i: usize = 0;
        while i < self.associated_ty_data.len()
            invariant
                i <= self.associated_ty_data@.len(),
                ds == self@.associated_ty_data,
                ds.len() == self.associated_ty_data@.len(),
                forall|j: int| 0 <= j < ds.len() ==> #[trigger] ds[j] == (AssociatedTyDatumV {
                    id: self.associated_ty_data@[j].id.index as nat,
                    trait_id: self.associated_ty_data@[j].trait_id.index as nat,
                    name: self.associated_ty_data@[j].name@,
                    num_trait_parameters: self.associated_ty_data@[
                        j
                    ].num_trait_parameters as nat,
                }),
                lookup_assoc(ds, id.index as nat) == lookup_assoc(
                    ds.skip(i as int),
                    id.index as nat,
                ),
            decreases self.associated_ty_data@.len() - i,
        {
            proof {
                assert(ds.skip(i as int).drop_first() =~= ds.skip(i + 1));
                assert(ds.skip(i as int)[0] == ds[i as int]);
            }
            if self.associated_ty_data[i].id.index == id.index {
                return Some(&self.associated_ty_data[i]);
            }
            i += 1;
        }
        proof {
            assert(ds.skip(ds.len() as int) =~= Seq::<AssociatedTyDatumV>::empty());
        }
        None
    }
}

// ---------------------------------------------------------------------------
// Decimal rendering.
// ---------------------------------------------------------------------------

pub open spec fn digit_char(n: nat) -> char {
    if n == 0 {
        '0'
    } else if n == 1 {
        '1'
    } else if n == 2 {
        '2'
    } else if n == 3 {
        '3'
    } else if n == 4 {
        '4'
    } else if n == 5 {
        '5'
    } else if n == 6 {
        '6'
    } else if n == 7 {
        '7'
    } else if n == 8 {
        '8'
    } else {
        '9'
    }
}

/// The decimal digits of `n`, most significant first.
pub open spec fn dec_digits(n: nat) -> Seq<char>
    decreases n,
{
    if n < 10 {
        seq![digit_char(n)]
    } else {
        dec_digits(n / 10) + seq![digit_char(n % 10)]
    }
}

fn digit_str(d: usize) -> (r: &'static str)
    requires
        d < 10,
    ensures
        r@ =~= seq![digit_char(d as nat)],
{
    proof {
        reveal_strlit("0");
        reveal_strlit("1");
        reveal_strlit("2");
        reveal_strlit("3");
        reveal_strlit("4");
        reveal_strlit("5");
        reveal_strlit("6");
        reveal_strlit("7");
        reveal_strlit("8");
        reveal_strlit("9");
    }
    if d == 0 {
        "0"
    } else if d == 1 {
        "1"
    } else if d == 2 {
        "2"
    } else if d == 3 {
        "3"
    } else if d == 4 {
        "4"
    } else if d == 5 {
        "5"
    } else if d == 6 {
        "6"
    } else if d == 7 {
        "7"
    } else if d == 8 {
        "8"
    } else {
        "9"
    }
}

/// `n` in decimal.
pub fn render_usize(n: usize) -> (r: String)
    ensures
        r@ == dec_digits(n as nat),
    decreases n,
{
    if n < 10 {
        String::from_str(digit_str(n))
    } else {
        let mut s = render_usize(n / 10);
        s.append(digit_str(n % 10));
        s
    }
}

// ---------------------------------------------------------------------------
// Rendering, as a specification.
// ---------------------------------------------------------------------------

/// The structural fallback for an item without a declared name.
pub open spec fn render_raw_item_spec(id: nat) -> Seq<char> {
    "ItemId("@ + dec_digits(id) + ")"@
}

/// An item id: its declared name; or, for an associated type, the raw
/// `(Trait::name)` form; or the structural fallback.
pub open spec fn render_item_id_spec(p: Option<ProgramV>, id: nat) -> Seq<char> {
    match p {
        Some(prog) => match lookup_type_kind(prog.type_kinds, id) {
            Some(name) => name,
            None => match lookup_assoc(prog.associated_ty_data, id) {
                Some(d) => "("@ + (match lookup_type_kind(prog.type_kinds, d.trait_id) {
                    Some(name) => name,
                    None => render_raw_item_spec(d.trait_id),
                }) + "::"@ + d.name + ")"@,
                None => render_raw_item_spec(id),
            },
        },
        None => render_raw_item_spec(id),
    }
}

pub open spec fn render_head_name_spec(p: Option<ProgramV>, n: TypeNameV) -> Seq<char> {
    match n {
        TypeNameV::ItemId(id) => render_item_id_spec(p, id),
        TypeNameV::ForAll(u) => "!"@ + dec_digits(u),
        TypeNameV::AssociatedType(id) => render_item_id_spec(p, id),
    }
}

pub open spec fn render_lifetime_spec(l: LifetimeV) -> Seq<char> {
    match l {
        LifetimeV::Var(d) => "'?"@ + dec_digits(d),
        LifetimeV::ForAll(u) => "'!"@ + dec_digits(u),
    }
}

pub open spec fn render_const_spec(c: ConstV) -> Seq<char> {
    match c {
        ConstV::Var(d) => "const ?"@ + dec_digits(d),
    }
}

pub open spec fn render_ty_spec(p: Option<ProgramV>, t: TyV) -> Seq<char>
    decreases t, 1nat,
{
    match t {
        TyV::Var(d) => "?"@ + dec_digits(d),
        TyV::Apply(a) => render_head_name_spec(p, a.name) + render_angle_spec(p, a.parameters),
        TyV::Projection(pr) => render_projection_spec(p, pr),
        TyV::UnselectedProjection(pr) => dec_digits(pr.head_name) + render_angle_spec(
            p,
            pr.parameters,
        ),
        TyV::ForAll(nb, inner) => "for<"@ + dec_digits(nb) + "> "@ + render_ty_spec(p, *inner),
    }
}

/// A projection with a program splits its parameters by the trait's
/// declared arity and renders `<T as Trait<..>>::Item<..>`; without
/// one, or without the split, the raw `(id)<params>` form applies.
pub open spec fn render_projection_spec(p: Option<ProgramV>, pr: ProjectionTyV) -> Seq<char>
    decreases pr, 0nat,
{
    match p {
        Some(prog) => match lookup_assoc(prog.associated_ty_data, pr.associated_ty_id) {
            Some(d) => if 1 <= d.num_trait_parameters <= pr.parameters.len() {
                "<"@ + render_param_spec(p, pr.parameters[0]) + " as "@ + (
                match lookup_type_kind(prog.type_kinds, d.trait_id) {
                    Some(name) => name,
                    None => render_raw_item_spec(d.trait_id),
                }) + render_angle_spec(
                    p,
                    pr.parameters.subrange(1, d.num_trait_parameters as int),
                ) + ">::"@ + d.name + render_angle_spec(
                    p,
                    pr.parameters.subrange(
                        d.num_trait_parameters as int,
                        pr.parameters.len() as int,
                    ),
                )
            } else {
                "("@ + dec_digits(pr.associated_ty_id) + ")"@ + render_angle_spec(
                    p,
                    pr.parameters,
                )
            },
            None => "("@ + dec_digits(pr.associated_ty_id) + ")"@ + render_angle_spec(
                p,
                pr.parameters,
            ),
        },
        None => "("@ + dec_digits(pr.associated_ty_id) + ")"@ + render_angle_spec(
            p,
            pr.parameters,
        ),
    }
}

pub open spec fn render_param_spec(p: Option<ProgramV>, par: ParameterV) -> Seq<char>
    decreases par, 2nat,
{
    match par {
        ParameterV::Ty(t) => render_ty_spec(p, t),
        ParameterV::Lifetime(l) => render_lifetime_spec(l),
        ParameterV::Const(c) => render_const_spec(c),
    }
}

/// Parameters joined by `, `.
pub open spec fn render_comma_spec(p: Option<ProgramV>, ps: Seq<ParameterV>) -> Seq<char>
    decreases ps, 3nat,
{
    if ps.len() == 0 {
        Seq::empty()
    } else if ps.len() == 1 {
        render_param_spec(p, ps[0])
    } else {
        render_comma_spec(p, ps.drop_last()) + ", "@ + render_param_spec(p, ps.last())
    }
}

/// An angle-bracketed parameter list, empty when there is nothing to
/// show.
pub open spec fn render_angle_spec(p: Option<ProgramV>, ps: Seq<ParameterV>) -> Seq<char>
    decreases ps, 4nat,
{
    if ps.len() == 0 {
        Seq::empty()
    } else {
        "<"@ + render_comma_spec(p, ps) + ">"@
    }
}

// ---------------------------------------------------------------------------
// Rendering, executable.
// ---------------------------------------------------------------------------

fn render_raw_item(id: ItemId) -> (r: String)
    ensures
        r@ == render_raw_item_spec(id.index as nat),
{
    let mut s = String::from_str("ItemId(");
    s.append(render_usize(id.index).as_str());
    s.append(")");
    s
}

fn render_item_id(program: Option<&Program>, id: ItemId) -> (r: String)
    ensures
        r@ == render_item_id_spec(opt_program_view(program), id.index as nat),
{
    match program {
        Some(prog) => {
            match prog.type_kind_name(id) {
                Some(name) => String::from_str(name.as_str()),
                None => {
                    match prog.associated_ty_datum(id) {
                        Some(d) => {
                            let mut s = String::from_str("(");
                            match prog.type_kind_name(d.trait_id) {
                                Some(name) => {
                                    s.append(name.as_str());
                                },
                                None => {
                                    s.append(render_raw_item(d.trait_id).as_str());
                                },
                            }
                            s.append("::");
                            s.append(d.name.as_str());
                            s.append(")");
                            s
                        },
                        None => render_raw_item(id),
                    }
                },
            }
        },
        None => render_raw_item(id),
    }
}

fn render_head_name(program: Option<&Program>, n: TypeName) -> (r: String)
    ensures
        r@ == render_head_name_spec(opt_program_view(program), crate::ir::head_name_view(n)),
{
    match n {
        TypeName::ItemId(id) => render_item_id(program, id),
        TypeName::ForAll(u) => {
            let mut s = String::from_str("!");
            s.append(render_usize(u.counter).as_str());
            s
        },
        TypeName::AssociatedType(id) => render_item_id(program, id),
    }
}

impl Lifetime {
    /// Render this lifetime: `'?d` for a variable, `'!u` for a skolem.
    pub fn render(&self) -> (r: String)
        ensures
            r@ == render_lifetime_spec(self@),
    {
        match self {
            Lifetime::Var(d) => {
                let mut s = String::from_str("'?");
                s.append(render_usize(*d).as_str());
                s
            },
            Lifetime::ForAll(u) => {
                let mut s = String::from_str("'!");
                s.append(render_usize(u.counter).as_str());
                s
            },
        }
    }
}

impl Const {
    /// Render this const: `const ?d`.
    pub fn render(&self) -> (r: String)
        ensures
            r@ == render_const_spec(self@),
    {
        match self {
            Const::Var(d) => {
                let mut s = String::from_str("const ?");
                s.append(render_usize(*d).as_str());
                s
            },
        }
    }
}

impl Ty {
    /// Render this type against an optional program: variables as
    /// `?d`, applications as a head name with an angle-bracketed
    /// parameter list, projections in their program-resolved or raw
    /// form, quantified types as `for<n> T`.
    #[verifier::rlimit(100)]
    #[verifier::spinoff_prover]
    pub fn render(&self, program: Option<&Program>) -> (r: String)
        ensures
            r@ == render_ty_spec(opt_program_view(program), self@),
        decreases *self,
    {
        match self {
            Ty::Var(d) => {
                let mut s = String::from_str("?");
                s.append(render_usize(*d).as_str());
                s
            },
            Ty::Apply(a) => {
                let mut s = render_head_name(program, a.name);
                s.append(render_angle(program, &a.parameters, 0, a.parameters.len()).as_str());
                proof {
                    lemma_params_view(a.parameters@);
                    assert(params_view(a.parameters@).subrange(
                        0,
                        params_view(a.parameters@).len() as int,
                    ) =~= params_view(a.parameters@));
                }
                s
            },
            Ty::Projection(pr) => {
                proof {
                    lemma_params_view(pr.parameters@);
                }
                let ghost pv = opt_program_view(program);
                let ghost prv = crate::ir::projection_view(*pr);
                match program {
                    Some(prog) => {
                        match prog.associated_ty_datum(pr.associated_ty_id) {
                            Some(d) => {
                                let ghost d2 = AssociatedTyDatumV {
                                    id: d.id.index as nat,
                                    trait_id: d.trait_id.index as nat,
                                    name: d.name@,
                                    num_trait_parameters: d.num_trait_parameters as nat,
                                };
                                if 1 <= d.num_trait_parameters && d.num_trait_parameters
                                    <= pr.parameters.len() {
                                    let trait_name: String = match prog.type_kind_name(
                                        d.trait_id,
                                    ) {
                                        Some(name) => String::from_str(name.as_str()),
                                        None => render_raw_item(d.trait_id),
                                    };
                                    proof {
                                        assert(trait_name@ == (match lookup_type_kind(
                                            prog@.type_kinds,
                                            d2.trait_id,
                                        ) {
                                            Some(name) => name,
                                            None => render_raw_item_spec(d2.trait_id),
                                        }));
                                    }
                                    let p0 = render_param(program, &pr.parameters[0]);
                                    let a1 = render_angle(
                                        program,
                                        &pr.parameters,
                                        1,
                                        d.num_trait_parameters,
                                    );
                                    let a2 = render_angle(
                                        program,
                                        &pr.parameters,
                                        d.num_trait_parameters,
                                        pr.parameters.len(),
                                    );
                                    let mut s = String::from_str("<");
                                    s.append(p0.as_str());
                                    s.append(" as ");
                                    s.append(trait_name.as_str());
                                    s.append(a1.as_str());
                                    s.append(">::");
                                    s.append(d.name.as_str());
                                    s.append(a2.as_str());
                                    proof {
                                        assert(p0@ == render_param_spec(pv, prv.parameters[0]));
                                        assert(a1@ == render_angle_spec(
                                            pv,
                                            prv.parameters.subrange(
                                                1,
                                                d2.num_trait_parameters as int,
                                            ),
                                        ));
                                        assert(a2@ == render_angle_spec(
                                            pv,
                                            prv.parameters.subrange(
                                                d2.num_trait_parameters as int,
                                                prv.parameters.len() as int,
                                            ),
                                        ));
                                        assert(lookup_assoc(
                                            prog@.associated_ty_data,
                                            prv.associated_ty_id,
                                        ) == Some(d2));
                                        assert(render_projection_spec(pv, prv) == "<"@ + p0@
                                            + " as "@ + trait_name@ + a1@ + ">::"@ + d2.name
                                            + a2@);
                                        assert(s@ == render_projection_spec(pv, prv));
                                    }
                                    s
                                } else {
                                    let mut s = String::from_str("(");
                                    s.append(render_usize(pr.associated_ty_id.index).as_str());
                                    s.append(")");
                                    s.append(
                                        render_angle(
                                            program,
                                            &pr.parameters,
                                            0,
                                            pr.parameters.len(),
                                        ).as_str(),
                                    );
                                    proof {
                                        assert(prv.parameters.subrange(
                                            0,
                                            prv.parameters.len() as int,
                                        ) =~= prv.parameters);
                                        assert(s@ == render_projection_spec(pv, prv));
                                    }
                                    s
                                }
                            },
                            None => {
                                let mut s = String::from_str("(");
                                s.append(render_usize(pr.associated_ty_id.index).as_str());
                                s.append(")");
                                s.append(
                                    render_angle(
                                        program,
                                        &pr.parameters,
                                        0,
                                        pr.parameters.len(),
                                    ).as_str(),
                                );
                                proof {
                                    assert(prv.parameters.subrange(
                                        0,
                                        prv.parameters.len() as int,
                                    ) =~= prv.parameters);
                                    assert(s@ == render_projection_spec(pv, prv));
                                }
                                s
                            },
                        }
                    },
                    None => {
                        let mut s = String::from_str("(");
                        s.append(render_usize(pr.associated_ty_id.index).as_str());
                        s.append(")");
                        s.append(
                            render_angle(program, &pr.parameters, 0, pr.parameters.len()).as_str(),
                        );
                        proof {
                            assert(prv.parameters.subrange(0, prv.parameters.len() as int)
                                =~= prv.parameters);
                            assert(s@ == render_projection_spec(pv, prv));
                        }
                        s
                    },
                }
            },
            Ty::UnselectedProjection(pr) => {
                let mut s = render_usize(pr.head_name.index);
                s.append(render_angle(program, &pr.parameters, 0, pr.parameters.len()).as_str());
                proof {
                    lemma_params_view(pr.parameters@);
                    assert(params_view(pr.parameters@).subrange(
                        0,
                        params_view(pr.parameters@).len() as int,
                    ) =~= params_view(pr.parameters@));
                }
                s
            },
            Ty::ForAll { num_binders, ty } => {
                let mut s = String::from_str("for<");
                s.append(render_usize(*num_binders).as_str());
                s.append("> ");
                s.append(ty.render(program).as_str());
                s
            },
        }
    }
}

fn render_param(program: Option<&Program>, par: &Parameter) -> (r: String)
    ensures
        r@ == render_param_spec(opt_program_view(program), par@),
    decreases *par,
{
    match par {
        Parameter::Ty(t) => t.render(program),
        Parameter::Lifetime(l) => l.render(),
        Parameter::Const(c) => c.render(),
    }
}

/// Render `ps[from..to]` as an angle-bracketed list.
fn render_angle(program: Option<&Program>, ps: &Vec<Parameter>, from: usize, to: usize) -> (r:
    String)
    requires
        from <= to <= ps@.len(),
    ensures
        r@ == render_angle_spec(
            opt_program_view(program),
            params_view(ps@).subrange(from as int, to as int),
        ),
    decreases *ps,
{
    proof {
        lemma_params_view(ps@);
    }
    let ghost pv = params_view(ps@);
    let ghost sub = pv.subrange(from as int, to as int);
    if from == to {
        proof {
            assert(sub.len() == 0);
        }
        String::new()
    } else {
        let mut s = String::from_str("<");
        let mut i: usize = from;
        let mut acc = String::new();
        while i < to
            invariant
                from <= i <= to <= ps@.len(),
                pv == params_view(ps@),
                pv.len() == ps@.len(),
                sub == pv.subrange(from as int, to as int),
                forall|j: int| 0 <= j < ps@.len() ==> pv[j] == param_view(ps@[j]),
                acc@ == render_comma_spec(
                    opt_program_view(program),
                    sub.take(i - from),
                ),
            decreases to - i,
        {
            proof {
                assert(sub.take(i - from + 1).drop_last() =~= sub.take(i - from));
                assert(sub.take(i - from + 1).last() == pv[i as int]);
                assert(sub.take(i - from + 1)[0] == pv[from as int]);
            }
            if i > from {
                acc.append(", ");
            }
            acc.append(render_param(program, &ps[i]).as_str());
            i += 1;
        }
        proof {
            assert(sub.take(to - from) =~= sub);
        }
        s.append(acc.as_str());
        s.append(">");
        s
    }
}

} // verus!
