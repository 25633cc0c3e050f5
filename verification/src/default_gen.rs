//! The defaulting generator: from a declaration to the shape of its
//! zero-argument-constructor implementation.
//!
//! A named record constructs every field in source order; a positional
//! record likewise by position; a tagged union constructs its single
//! designated default variant.  Each field may additionally request a
//! public constant and a public zero-argument function holding its
//! default; the constructor body prefers the constant over the function
//! over the inline value, and the function returns the constant when
//! both exist, so that each value has a single source of truth.

use vstd::prelude::*;
use crate::model::{
    view_strings, Diag, DiagKind, TypeBody, TypeBodyV, TypeDecl, TypeDeclV, VariantNodeV, AttrV,
};
use crate::attrs::{find_attr, spec_find_attr};
use crate::descriptor::{
    apply_attr, process_fields, spec_apply_metas, spec_process_fields, DefaultExpr, DefaultExprV,
    FieldDescriptor, FieldDescriptorV, view_descs,
};
use crate::fragment::{
    spec_resolve, view_consts, view_funcs, view_named_inits, view_resolveds, ConstDecl, ConstDeclV,
    DefaultBody, DefaultBodyV, DefaultFragment, DefaultFragmentV, FnBody, FnBodyV, FnDecl, FnDeclV,
    NamedInit, NamedInitV, Resolved, ResolvedV,
};

verus! {

/// The emitted constants: one per descriptor that requested one, in
/// source order, each holding the descriptor's default value at the
/// descriptor's type.
pub open spec fn spec_consts(ds: Seq<FieldDescriptorV>) -> Seq<ConstDeclV>
    decreases ds.len(),
{
    if ds.len() == 0 {
        Seq::empty()
    } else {
        let rest = spec_consts(ds.drop_last());
        match ds.last().constant {
            Option::Some(n) => rest.push(
                ConstDeclV { name: n, ty: ds.last().ty, value: ds.last().value },
            ),
            Option::None => rest,
        }
    }
}

/// The emitted functions: one per descriptor that requested one, in
/// source order; the body refers to the descriptor's constant when one
/// exists, else it holds the value itself.
pub open spec fn spec_funcs(ds: Seq<FieldDescriptorV>) -> Seq<FnDeclV>
    decreases ds.len(),
{
    if ds.len() == 0 {
        Seq::empty()
    } else {
        let rest = spec_funcs(ds.drop_last());
        match ds.last().function {
            Option::Some(n) => rest.push(
                FnDeclV {
                    name: n,
                    ty: ds.last().ty,
                    body: match ds.last().constant {
                        Option::Some(c) => FnBodyV::ConstRef(c),
                        Option::None => FnBodyV::Inline(ds.last().value),
                    },
                },
            ),
            Option::None => rest,
        }
    }
}

/// A name, or the empty sequence where there is none.
pub open spec fn opt_or_empty(o: Option<Seq<char>>) -> Seq<char> {
    match o {
        Option::Some(s) => s,
        Option::None => Seq::empty(),
    }
}

/// The named-record constructor body: one initializer per field, in
/// source order, each resolved by the constant-over-function-over-inline
/// preference.
pub open spec fn spec_named_inits(ds: Seq<FieldDescriptorV>) -> Seq<NamedInitV> {
    Seq::new(ds.len(), |i: int| NamedInitV { field: opt_or_empty(ds[i].ident), value: spec_resolve(ds[i]) })
}

/// The positional-record constructor body: one resolved value per
/// field, in source order.
pub open spec fn spec_resolved_list(ds: Seq<FieldDescriptorV>) -> Seq<ResolvedV> {
    Seq::new(ds.len(), |i: int| spec_resolve(ds[i]))
}

/// A designated default variant together with the annotation that marks
/// it.
#[verifier::ext_equal]
pub ghost struct MarkV {
    pub variant: VariantNodeV,
    pub attr: AttrV,
}

/// The scan for the designated default variant: variants in order, each
/// asked for its single recognized annotation; a second designated
/// variant is fatal at the position of its annotation.
pub open spec fn spec_scan_default(vs: Seq<VariantNodeV>) -> Result<Option<MarkV>, Diag>
    decreases vs.len(),
{
    if vs.len() == 0 {
        Result::Ok(Option::None)
    } else {
        match spec_scan_default(vs.drop_last()) {
            Result::Err(e) => Result::Err(e),
            Result::Ok(acc) => match spec_find_attr(vs.last().attrs, "default"@) {
                Result::Err(e) => Result::Err(e),
                Result::Ok(Option::None) => Result::Ok(acc),
                Result::Ok(Option::Some(a)) => match acc {
                    Option::None => Result::Ok(
                        Option::Some(MarkV { variant: vs.last(), attr: a }),
                    ),
                    Option::Some(_) => Result::Err(
                        Diag { kind: DiagKind::MultipleDefaultVariants, span: a.span },
                    ),
                },
            },
        }
    }
}

/// A failing prefix decides the whole scan.
pub proof fn lemma_scan_prefix_err(vs: Seq<VariantNodeV>, i: int)
    requires
        0 <= i <= vs.len(),
        spec_scan_default(vs.take(i)) is Err,
    ensures
        spec_scan_default(vs) == spec_scan_default(vs.take(i)),
    decreases vs.len() - i,
{
    if i == vs.len() {
        assert(vs.take(i) =~= vs);
    } else {
        assert(vs.take(i + 1).drop_last() =~= vs.take(i));
        assert(vs.take(i + 1).last() == vs[i]);
        assert(spec_scan_default(vs.take(i + 1)) == spec_scan_default(vs.take(i)));
        lemma_scan_prefix_err(vs, i + 1);
    }
}

/// The descriptor of the designated default variant: named after the
/// variant, typed at the deriving type, defaulting to the variant's own
/// qualified path, then enriched from the marking annotation's items.
pub open spec fn spec_enum_descriptor(d: TypeDeclV, m: MarkV) -> FieldDescriptorV {
    let base = FieldDescriptorV {
        ident: Option::Some(m.variant.ident),
        ty: d.ident,
        value: DefaultExprV::SelfVariant(m.variant.ident),
        constant: Option::None,
        function: Option::None,
    };
    match m.attr.args {
        Option::None => base,
        Option::Some(ms) => spec_apply_metas(base, ms, 0),
    }
}

/// What the defaulting generator produces for one declaration: the
/// fragment for the three supported shapes, and the exact diagnostic
/// for every other input.
pub open spec fn spec_expand_default(d: TypeDeclV) -> Result<DefaultFragmentV, Diag> {
    match d.body {
        TypeBodyV::NamedStruct(fs) => match spec_process_fields(fs) {
            Result::Err(e) => Result::Err(e),
            Result::Ok(ds) => Result::Ok(
                DefaultFragmentV {
                    type_ident: d.ident,
                    generics: d.generics,
                    consts: spec_consts(ds),
                    funcs: spec_funcs(ds),
                    body: DefaultBodyV::Named(spec_named_inits(ds)),
                },
            ),
        },
        TypeBodyV::TupleStruct(fs) => match spec_process_fields(fs) {
            Result::Err(e) => Result::Err(e),
            Result::Ok(ds) => Result::Ok(
                DefaultFragmentV {
                    type_ident: d.ident,
                    generics: d.generics,
                    consts: spec_consts(ds),
                    funcs: spec_funcs(ds),
                    body: DefaultBodyV::Tuple(spec_resolved_list(ds)),
                },
            ),
        },
        TypeBodyV::UnitStruct => Result::Err(
            Diag { kind: DiagKind::UnitStructNotSupported, span: d.span },
        ),
        TypeBodyV::Enum(vs) => match spec_scan_default(vs) {
            Result::Err(e) => Result::Err(e),
            Result::Ok(Option::None) => Result::Err(
                Diag { kind: DiagKind::NoDefaultVariant, span: d.span },
            ),
            Result::Ok(Option::Some(m)) => Result::Ok(
                {
                    let desc = spec_enum_descriptor(d, m);
                    DefaultFragmentV {
                        type_ident: d.ident,
                        generics: d.generics,
                        consts: spec_consts(seq![desc]),
                        funcs: spec_funcs(seq![desc]),
                        body: DefaultBodyV::Single(spec_resolve(desc)),
                    }
                },
            ),
        },
        TypeBodyV::Union => Result::Err(
            Diag { kind: DiagKind::UnionNotSupported, span: d.span },
        ),
    }
}

/// Clones a default value expression.
pub fn clone_default_expr(e: &DefaultExpr) -> (r: DefaultExpr)
    ensures
        r@ == e@,
{
    match e {
        DefaultExpr::ZeroValue => DefaultExpr::ZeroValue,
        DefaultExpr::SelfVariant(s) => DefaultExpr::SelfVariant(s.clone()),
        DefaultExpr::IntoStr(s) => DefaultExpr::IntoStr(s.clone()),
        DefaultExpr::IntoByteStr(s) => DefaultExpr::IntoByteStr(s.clone()),
        DefaultExpr::Plain(s) => DefaultExpr::Plain(s.clone()),
    }
}

/// Clones a list of names.
pub fn clone_strings(v: &Vec<String>) -> (r: Vec<String>)
    ensures
        r@ == v@,
{
    let mut out: Vec<String> = Vec::new();
    let mut i: usize = 0;
    while i < v.len()
        invariant
            i <= v@.len(),
            out@ =~= v@.take(i as int),
        decreases v@.len() - i,
    {
        out.push(v[i].clone());
        i = i + 1;
    }
    proof {
        assert(v@.take(v@.len() as int) =~= v@);
    }
    out
}

/// Resolves one descriptor's value for the constructor body; see
/// [`spec_resolve`].
pub fn resolve_value(d: &FieldDescriptor) -> (r: Resolved)
    ensures
        r@ == spec_resolve(d@),
{
    match &d.constant {
        Option::Some(c) => Resolved::ConstRef(c.clone()),
        Option::None => match &d.function {
            Option::Some(f) => Resolved::FnCall(f.clone()),
            Option::None => Resolved::Inline(clone_default_expr(&d.value)),
        },
    }
}

/// Emits the public constants the descriptors request; see
/// [`spec_consts`].
pub fn struct_consts(fields: &Vec<FieldDescriptor>) -> (r: Vec<ConstDecl>)
    ensures
        view_consts(r@) == spec_consts(view_descs(fields@)),
{
    let ghost dv = view_descs(fields@);
    let mut out: Vec<ConstDecl> = Vec::new();
    let mut i: usize = 0;
    proof {
        assert(dv.take(0) =~= Seq::<FieldDescriptorV>::empty());
        assert(view_consts(out@) =~= Seq::<ConstDeclV>::empty());
    }
    while i < fields.len()
        invariant
            dv == view_descs(fields@),
            dv.len() == fields@.len(),
            i <= fields@.len(),
            view_consts(out@) == spec_consts(dv.take(i as int)),
        decreases fields@.len() - i,
    {
        proof {
            assert(dv[i as int] == fields@[i as int]@);
            assert(dv.take(i + 1).drop_last() =~= dv.take(i as int));
            assert(dv.take(i + 1).last() == dv[i as int]);
        }
        let f = &fields[i];
        match &f.constant {
            Option::Some(name) => {
                let ghost old_out = out@;
                let c = ConstDecl {
                    name: name.clone(),
                    ty: f.ty.clone(),
                    value: clone_default_expr(&f.value),
                };
                let ghost cv = c@;
                out.push(c);
                proof {
                    assert(view_consts(old_out.push(out@[out@.len() - 1])) =~= view_consts(old_out)
                        .push(cv));
                    assert(spec_consts(dv.take(i + 1)) == view_consts(old_out).push(cv));
                }
            },
            Option::None => {},
        }
        i = i + 1;
    }
    proof {
        assert(dv.take(dv.len() as int) =~= dv);
    }
    out
}

/// Emits the public functions the descriptors request; see
/// [`spec_funcs`].
pub fn struct_functions(fields: &Vec<FieldDescriptor>) -> (r: Vec<FnDecl>)
    ensures
        view_funcs(r@) == spec_funcs(view_descs(fields@)),
{
    let ghost dv = view_descs(fields@);
    let mut out: Vec<FnDecl> = Vec::new();
    let mut i: usize = 0;
    proof {
        assert(dv.take(0) =~= Seq::<FieldDescriptorV>::empty());
        assert(view_funcs(out@) =~= Seq::<FnDeclV>::empty());
    }
    while i < fields.len()
        invariant
            dv == view_descs(fields@),
            dv.len() == fields@.len(),
            i <= fields@.len(),
            view_funcs(out@) == spec_funcs(dv.take(i as int)),
        decreases fields@.len() - i,
    {
        proof {
            assert(dv[i as int] == fields@[i as int]@);
            assert(dv.take(i + 1).drop_last() =~= dv.take(i as int));
            assert(dv.take(i + 1).last() == dv[i as int]);
        }
        let f = &fields[i];
        match &f.function {
            Option::Some(name) => {
                let ghost old_out = out@;
                let body = match &f.constant {
                    Option::Some(c) => FnBody::ConstRef(c.clone()),
                    Option::None => FnBody::Inline(clone_default_expr(&f.value)),
                };
                let fd = FnDecl { name: name.clone(), ty: f.ty.clone(), body };
                let ghost fv = fd@;
                out.push(fd);
                proof {
                    assert(view_funcs(old_out.push(out@[out@.len() - 1])) =~= view_funcs(old_out)
                        .push(fv));
                    assert(spec_funcs(dv.take(i + 1)) == view_funcs(old_out).push(fv));
                }
            },
            Option::None => {},
        }
        i = i + 1;
    }
    proof {
        assert(dv.take(dv.len() as int) =~= dv);
    }
    out
}

/// Emits the named-record constructor body; see [`spec_named_inits`].
pub fn struct_default_body(fields: &Vec<FieldDescriptor>) -> (r: Vec<NamedInit>)
    ensures
        view_named_inits(r@) == spec_named_inits(view_descs(fields@)),
{
    let ghost dv = view_descs(fields@);
    let mut out: Vec<NamedInit> = Vec::new();
    let mut i: usize = 0;
    while i < fields.len()
        invariant
            dv == view_descs(fields@),
            dv.len() == fields@.len(),
            i <= fields@.len(),
            out@.len() == i,
            forall|j: int| 0 <= j < i ==> (#[trigger] out@[j])@ == spec_named_inits(dv)[j],
        decreases fields@.len() - i,
    {
        proof {
            assert(dv[i as int] == fields@[i as int]@);
        }
        let f = &fields[i];
        let name = match &f.ident {
            Option::Some(s) => s.clone(),
            Option::None => String::new(),
        };
        let init = NamedInit { field: name, value: resolve_value(f) };
        out.push(init);
        i = i + 1;
    }
    proof {
        assert(view_named_inits(out@) =~= spec_named_inits(dv));
    }
    out
}

/// Emits the positional-record constructor body; see
/// [`spec_resolved_list`].
pub fn unnamed_struct_default_body(fields: &Vec<FieldDescriptor>) -> (r: Vec<Resolved>)
    ensures
        view_resolveds(r@) == spec_resolved_list(view_descs(fields@)),
{
    let ghost dv = view_descs(fields@);
    let mut out: Vec<Resolved> = Vec::new();
    let mut i: usize = 0;
    while i < fields.len()
        invariant
            dv == view_descs(fields@),
            dv.len() == fields@.len(),
            i <= fields@.len(),
            out@.len() == i,
            forall|j: int| 0 <= j < i ==> (#[trigger] out@[j])@ == spec_resolved_list(dv)[j],
        decreases fields@.len() - i,
    {
        proof {
            assert(dv[i as int] == fields@[i as int]@);
        }
        out.push(resolve_value(&fields[i]));
        i = i + 1;
    }
    proof {
        assert(view_resolveds(out@) =~= spec_resolved_list(dv));
    }
    out
}

/// Derives the zero-argument-constructor implementation shape for one
/// declaration; see [`spec_expand_default`] for exactly what is
/// produced, and for which declarations which diagnostic is returned
/// instead.
pub fn expand(input: &TypeDecl) -> (r: Result<DefaultFragment, Diag>)
    ensures
        (match r {
            Result::Ok(f) => spec_expand_default(input@) == Result::<
                DefaultFragmentV,
                Diag,
            >::Ok(f@),
            Result::Err(e) => spec_expand_default(input@) == Result::<
                DefaultFragmentV,
                Diag,
            >::Err(e),
        }),
{
    match &input.body {
        TypeBody::NamedStruct(fs) => {
            match process_fields(fs) {
                Result::Err(e) => Result::Err(e),
                Result::Ok(ds) => {
                    let consts = struct_consts(&ds);
                    let funcs = struct_functions(&ds);
                    let inits = struct_default_body(&ds);
                    Result::Ok(
                        DefaultFragment {
                            type_ident: input.ident.clone(),
                            generics: clone_strings(&input.generics),
                            consts,
                            funcs,
                            body: DefaultBody::Named(inits),
                        },
                    )
                },
            }
        },
        TypeBody::TupleStruct(fs) => {
            match process_fields(fs) {
                Result::Err(e) => Result::Err(e),
                Result::Ok(ds) => {
                    let consts = struct_consts(&ds);
                    let funcs = struct_functions(&ds);
                    let vals = unnamed_struct_default_body(&ds);
                    Result::Ok(
                        DefaultFragment {
                            type_ident: input.ident.clone(),
                            generics: clone_strings(&input.generics),
                            consts,
                            funcs,
                            body: DefaultBody::Tuple(vals),
                        },
                    )
                },
            }
        },
        TypeBody::UnitStruct => Result::Err(
            Diag { kind: DiagKind::UnitStructNotSupported, span: input.span },
        ),
        TypeBody::Enum(vs) => expand_enum(input, vs),
        TypeBody::Union => Result::Err(
            Diag { kind: DiagKind::UnionNotSupported, span: input.span },
        ),
    }
}

/// The defaulting generator's tagged-union path: find the single
/// designated default variant and construct it.
fn expand_enum(input: &TypeDecl, vs: &Vec<crate::model::VariantNode>) -> (r: Result<
    DefaultFragment,
    Diag,
>)
    requires
        input@.body == TypeBodyV::Enum(crate::model::view_variants(vs@)),
    ensures
        (match r {
            Result::Ok(f) => spec_expand_default(input@) == Result::<
                DefaultFragmentV,
                Diag,
            >::Ok(f@),
            Result::Err(e) => spec_expand_default(input@) == Result::<
                DefaultFragmentV,
                Diag,
            >::Err(e),
        }),
{
    let ghost vv = crate::model::view_variants(vs@);
    let mut first: Option<(usize, &crate::model::Attr)> = Option::None;
    let mut i: usize = 0;
    proof {
        assert(vv.take(0) =~= Seq::<VariantNodeV>::empty());
    }
    while i < vs.len()
        invariant
            vv == crate::model::view_variants(vs@),
            input@.body == TypeBodyV::Enum(vv),
            vv.len() == vs@.len(),
            i <= vs@.len(),
            (match first {
                Option::None => spec_scan_default(vv.take(i as int)) == Result::<
                    Option<MarkV>,
                    Diag,
                >::Ok(Option::None),
                Option::Some((j, a)) => j < i && spec_scan_default(vv.take(i as int)) == Result::<
                    Option<MarkV>,
                    Diag,
                >::Ok(Option::Some(MarkV { variant: vv[j as int], attr: a@ })),
            }),
        decreases vs@.len() - i,
    {
        proof {
            assert(vv[i as int] == vs@[i as int]@);
            assert(vv.take(i + 1).drop_last() =~= vv.take(i as int));
            assert(vv.take(i + 1).last() == vv[i as int]);
        }
        let v = &vs[i];
        match find_attr("default", &v.attrs) {
            Result::Err(e) => {
                proof {
                    assert(vv[i as int].attrs == crate::model::view_attrs(vs@[i as int].attrs@));
                    assert(spec_scan_default(vv.take(i + 1)) == Result::<Option<MarkV>, Diag>::Err(
                        e,
                    ));
                    lemma_scan_prefix_err(vv, i + 1);
                }
                return Result::Err(e);
            },
            Result::Ok(Option::Some(a)) => {
                match first {
                    Option::Some(_) => {
                        proof {
                            assert(vv[i as int].attrs == crate::model::view_attrs(
                                vs@[i as int].attrs@,
                            ));
                            assert(spec_scan_default(vv.take(i + 1)) == Result::<
                                Option<MarkV>,
                                Diag,
                            >::Err(Diag { kind: DiagKind::MultipleDefaultVariants, span: a.span }));
                            lemma_scan_prefix_err(vv, i + 1);
                        }
                        return Result::Err(
                            Diag { kind: DiagKind::MultipleDefaultVariants, span: a.span },
                        );
                    },
                    Option::None => {
                        first = Option::Some((i, a));
                    },
                }
            },
            Result::Ok(Option::None) => {},
        }
        i = i + 1;
    }
    proof {
        assert(vv.take(vv.len() as int) =~= vv);
    }
    match first {
        Option::None => Result::Err(
            Diag { kind: DiagKind::NoDefaultVariant, span: input.span },
        ),
        Option::Some((j, a)) => {
            let v = &vs[j];
            let mut field = FieldDescriptor {
                ident: Option::Some(v.ident.clone()),
                ty: input.ident.clone(),
                value: DefaultExpr::SelfVariant(v.ident.clone()),
                constant: Option::None,
                function: Option::None,
            };
            proof {
                assert(field@ =~= FieldDescriptorV {
                    ident: Option::Some(vv[j as int].ident),
                    ty: input@.ident,
                    value: DefaultExprV::SelfVariant(vv[j as int].ident),
                    constant: Option::None,
                    function: Option::None,
                });
            }
            apply_attr(a, 0, &mut field);
            proof {
                assert(field@ == spec_enum_descriptor(input@, MarkV {
                    variant: vv[j as int],
                    attr: a@,
                }));
            }
            let dvec = vec![field];
            proof {
                assert(view_descs(dvec@) =~= seq![dvec@[0]@]);
            }
            let consts = struct_consts(&dvec);
            let funcs = struct_functions(&dvec);
            let val = resolve_value(&dvec[0]);
            Result::Ok(
                DefaultFragment {
                    type_ident: input.ident.clone(),
                    generics: clone_strings(&input.generics),
                    consts,
                    funcs,
                    body: DefaultBody::Single(val),
                },
            )
        },
    }
}

} // verus!
