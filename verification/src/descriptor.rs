//! The descriptor builder: from a field and its annotations to the
//! canonical unit the emitters consume.
//!
//! Each field (or the designated default variant) becomes exactly one
//! [`FieldDescriptor`]: its identity, its declared type, the default
//! value expression, and the optional secondary constant and function
//! names.  The default value starts as the target type's own zero-value
//! protocol and is overridden by a `value=` key; a quoted literal is
//! wrapped in a literal-to-target-type conversion.  A bare `constant` or
//! `function` key synthesizes its name deterministically; `key=name`
//! overrides it.  Keys apply in order, later occurrences over earlier
//! ones, and unrecognized keys are ignored.

use vstd::prelude::*;
use crate::model::{
    view_attrs, view_fields, view_metas, Attr, AttrV, Diag, Expr, ExprV, FieldNode, FieldNodeV,
    MetaItem, MetaItemV,
};
use crate::attrs::{find_attr, spec_find_attr};
use crate::names::{spec_const_name, spec_fn_name, str_eq, synth_const_name, synth_fn_name};

verus! {

/// A default value expression, as the emitters see it.
#[derive(Debug, PartialEq, Eq)]
pub enum DefaultExpr {
    /// Construct via the field type's own zero-value protocol.
    ZeroValue,
    /// The qualified path to the named variant of the deriving type.
    SelfVariant(String),
    /// A quoted string literal, wrapped in a conversion to the target
    /// type.
    IntoStr(String),
    /// A byte-string literal, wrapped in a conversion to the target type.
    IntoByteStr(String),
    /// Any other expression, emitted verbatim.
    Plain(String),
}

/// Ghost mirror of [`DefaultExpr`].
#[verifier::ext_equal]
pub ghost enum DefaultExprV {
    ZeroValue,
    SelfVariant(Seq<char>),
    IntoStr(Seq<char>),
    IntoByteStr(Seq<char>),
    Plain(Seq<char>),
}

impl View for DefaultExpr {
    type V = DefaultExprV;

    open spec fn view(&self) -> DefaultExprV {
        match self {
            DefaultExpr::ZeroValue => DefaultExprV::ZeroValue,
            DefaultExpr::SelfVariant(s) => DefaultExprV::SelfVariant(s@),
            DefaultExpr::IntoStr(s) => DefaultExprV::IntoStr(s@),
            DefaultExpr::IntoByteStr(s) => DefaultExprV::IntoByteStr(s@),
            DefaultExpr::Plain(s) => DefaultExprV::Plain(s@),
        }
    }
}

/// The canonical unit the emitters consume: one field or designated
/// variant, enriched from its annotation.
#[derive(Debug, PartialEq, Eq)]
pub struct FieldDescriptor {
    /// The field's name; `None` for a positional field.
    pub ident: Option<String>,
    /// The declared type, as source text.
    pub ty: String,
    /// The default value expression.
    pub value: DefaultExpr,
    /// The secondary constant's name, when one was requested.
    pub constant: Option<String>,
    /// The secondary function's name, when one was requested.
    pub function: Option<String>,
}

/// Ghost mirror of [`FieldDescriptor`].
#[verifier::ext_equal]
pub ghost struct FieldDescriptorV {
    pub ident: Option<Seq<char>>,
    pub ty: Seq<char>,
    pub value: DefaultExprV,
    pub constant: Option<Seq<char>>,
    pub function: Option<Seq<char>>,
}

impl View for FieldDescriptor {
    type V = FieldDescriptorV;

    open spec fn view(&self) -> FieldDescriptorV {
        FieldDescriptorV {
            ident: self.ident.deep_view(),
            ty: self.ty@,
            value: self.value@,
            constant: self.constant.deep_view(),
            function: self.function.deep_view(),
        }
    }
}

/// The views of a list of descriptors.
pub open spec fn view_descs(s: Seq<FieldDescriptor>) -> Seq<FieldDescriptorV> {
    s.map_values(|d: FieldDescriptor| d@)
}

/// The conversion a `value=` expression undergoes: string and
/// byte-string literals are wrapped in a conversion to the target type,
/// anything else is taken verbatim.
pub open spec fn spec_lit_convert(e: ExprV) -> DefaultExprV {
    match e {
        ExprV::StrLit(s) => DefaultExprV::IntoStr(s),
        ExprV::ByteStrLit(s) => DefaultExprV::IntoByteStr(s),
        ExprV::Other(t) => DefaultExprV::Plain(t),
    }
}

/// The text of an override expression, as a name.
pub open spec fn spec_meta_text(e: ExprV) -> Seq<char> {
    match e {
        ExprV::StrLit(s) => s,
        ExprV::ByteStrLit(s) => s,
        ExprV::Other(t) => t,
    }
}

/// An explicit override name, or the synthesized one.
pub open spec fn spec_override_or(v: Option<ExprV>, synth: Seq<char>) -> Seq<char> {
    match v {
        Option::Some(e) => spec_meta_text(e),
        Option::None => synth,
    }
}

/// How one key/value item transforms a descriptor.
pub open spec fn spec_apply_meta(d: FieldDescriptorV, m: MetaItemV, index: nat) -> FieldDescriptorV {
    if m.key == "value"@ {
        match m.value {
            Option::Some(e) => FieldDescriptorV { value: spec_lit_convert(e), ..d },
            Option::None => d,
        }
    } else if m.key == "constant"@ {
        FieldDescriptorV {
            constant: Option::Some(spec_override_or(m.value, spec_const_name(d.ident, index))),
            ..d
        }
    } else if m.key == "function"@ {
        FieldDescriptorV {
            function: Option::Some(spec_override_or(m.value, spec_fn_name(d.ident, index))),
            ..d
        }
    } else {
        d
    }
}

/// The key/value items of an annotation, applied in order.
pub open spec fn spec_apply_metas(d: FieldDescriptorV, ms: Seq<MetaItemV>, index: nat) -> FieldDescriptorV
    decreases ms.len(),
{
    if ms.len() == 0 {
        d
    } else {
        spec_apply_meta(spec_apply_metas(d, ms.drop_last(), index), ms.last(), index)
    }
}

/// The descriptor a field starts from: its own name and type, the
/// zero-value protocol, and no secondary names.
pub open spec fn spec_base(f: FieldNodeV) -> FieldDescriptorV {
    FieldDescriptorV {
        ident: f.ident,
        ty: f.ty,
        value: DefaultExprV::ZeroValue,
        constant: Option::None,
        function: Option::None,
    }
}

/// How a whole annotation list transforms a descriptor: the one
/// recognized annotation is found (a duplicate is fatal) and its items
/// are applied; a bare annotation leaves the descriptor as it is.
pub open spec fn spec_process_attrs(d: FieldDescriptorV, attrs: Seq<AttrV>, index: nat) -> Result<
    FieldDescriptorV,
    Diag,
> {
    match spec_find_attr(attrs, "default"@) {
        Result::Err(e) => Result::Err(e),
        Result::Ok(Option::None) => Result::Ok(d),
        Result::Ok(Option::Some(a)) => Result::Ok(
            match a.args {
                Option::None => d,
                Option::Some(ms) => spec_apply_metas(d, ms, index),
            },
        ),
    }
}

/// The descriptor of the field at the given position.
pub open spec fn spec_field_descriptor(f: FieldNodeV, index: nat) -> Result<FieldDescriptorV, Diag> {
    spec_process_attrs(spec_base(f), f.attrs, index)
}

/// The descriptors of a field list, in order; the first fatal
/// annotation aborts the whole list.
pub open spec fn spec_process_fields(fs: Seq<FieldNodeV>) -> Result<Seq<FieldDescriptorV>, Diag>
    decreases fs.len(),
{
    if fs.len() == 0 {
        Result::Ok(Seq::empty())
    } else {
        match spec_process_fields(fs.drop_last()) {
            Result::Err(e) => Result::Err(e),
            Result::Ok(ds) => match spec_field_descriptor(fs.last(), (fs.len() - 1) as nat) {
                Result::Err(e) => Result::Err(e),
                Result::Ok(d) => Result::Ok(ds.push(d)),
            },
        }
    }
}

/// A failing prefix decides the whole list.
pub proof fn lemma_process_fields_prefix_err(fs: Seq<FieldNodeV>, i: int)
    requires
        0 <= i <= fs.len(),
        spec_process_fields(fs.take(i)) is Err,
    ensures
        spec_process_fields(fs) == spec_process_fields(fs.take(i)),
    decreases fs.len() - i,
{
    if i == fs.len() {
        assert(fs.take(i) =~= fs);
    } else {
        assert(fs.take(i + 1).drop_last() =~= fs.take(i));
        assert(fs.take(i + 1).last() == fs[i]);
        assert(spec_process_fields(fs.take(i + 1)) == spec_process_fields(fs.take(i)));
        lemma_process_fields_prefix_err(fs, i + 1);
    }
}

/// Clones an optional name.
fn clone_opt_string(s: &Option<String>) -> (r: Option<String>)
    ensures
        r.deep_view() == s.deep_view(),
{
    match s {
        Option::Some(x) => Option::Some(x.clone()),
        Option::None => Option::None,
    }
}

/// The conversion a `value=` expression undergoes; see
/// [`spec_lit_convert`].
pub fn lit_convert(e: &Expr) -> (r: DefaultExpr)
    ensures
        r@ == spec_lit_convert(e@),
{
    match e {
        Expr::StrLit(s) => DefaultExpr::IntoStr(s.clone()),
        Expr::ByteStrLit(s) => DefaultExpr::IntoByteStr(s.clone()),
        Expr::Other(t) => DefaultExpr::Plain(t.clone()),
    }
}

/// The text of an override expression, as a name.
fn meta_text(e: &Expr) -> (r: String)
    ensures
        r@ == spec_meta_text(e@),
{
    match e {
        Expr::StrLit(s) => s.clone(),
        Expr::ByteStrLit(s) => s.clone(),
        Expr::Other(t) => t.clone(),
    }
}

/// Applies one key/value item to the descriptor under construction.
fn apply_meta_item(out: &mut FieldDescriptor, m: &MetaItem, index: usize)
    ensures
        final(out)@ == spec_apply_meta(old(out)@, m@, index as nat),
{
    if str_eq(m.key.as_str(), "value") {
        match &m.value {
            Option::Some(e) => {
                out.value = lit_convert(e);
            },
            Option::None => {},
        }
    } else if str_eq(m.key.as_str(), "constant") {
        let name = match &m.value {
            Option::Some(e) => meta_text(e),
            Option::None => synth_const_name(&out.ident, index),
        };
        out.constant = Option::Some(name);
    } else if str_eq(m.key.as_str(), "function") {
        let name = match &m.value {
            Option::Some(e) => meta_text(e),
            Option::None => synth_fn_name(&out.ident, index),
        };
        out.function = Option::Some(name);
    }
}

/// Applies the key/value items of one recognized annotation, in order;
/// a bare annotation changes nothing.
pub fn apply_attr(a: &Attr, index: usize, out: &mut FieldDescriptor)
    ensures
        final(out)@ == (match a@.args {
            Option::None => old(out)@,
            Option::Some(ms) => spec_apply_metas(old(out)@, ms, index as nat),
        }),
{
    match &a.args {
        Option::None => {},
        Option::Some(ms) => {
            let ghost start = out@;
            let ghost mv = view_metas(ms@);
            let mut i: usize = 0;
            while i < ms.len()
                invariant
                    mv == view_metas(ms@),
                    mv.len() == ms@.len(),
                    i <= ms@.len(),
                    out@ == spec_apply_metas(start, mv.take(i as int), index as nat),
                decreases ms@.len() - i,
            {
                proof {
                    assert(mv[i as int] == ms@[i as int]@);
                    assert(mv.take(i + 1).drop_last() =~= mv.take(i as int));
                    assert(mv.take(i + 1).last() == mv[i as int]);
                }
                apply_meta_item(out, &ms[i], index);
                i = i + 1;
            }
            proof {
                assert(mv.take(mv.len() as int) =~= mv);
            }
        },
    }
}

/// Enriches a descriptor from a field or variant's annotation list; see
/// [`spec_process_attrs`].
pub fn process_attrs(attrs: &Vec<Attr>, index: usize, out: &mut FieldDescriptor) -> (r: Result<
    (),
    Diag,
>)
    ensures
        (match r {
            Result::Ok(_) => spec_process_attrs(old(out)@, view_attrs(attrs@), index as nat)
                == Result::<FieldDescriptorV, Diag>::Ok(final(out)@),
            Result::Err(e) => spec_process_attrs(old(out)@, view_attrs(attrs@), index as nat)
                == Result::<FieldDescriptorV, Diag>::Err(e) && *final(out) == *old(out),
        }),
{
    let fa = find_attr("default", attrs);
    match fa {
        Result::Err(e) => Result::Err(e),
        Result::Ok(Option::None) => Result::Ok(()),
        Result::Ok(Option::Some(a)) => {
            apply_attr(a, index, out);
            Result::Ok(())
        },
    }
}

/// Builds the descriptor of the field at the given position; see
/// [`spec_field_descriptor`].
pub fn field_descriptor(f: &FieldNode, index: usize) -> (r: Result<FieldDescriptor, Diag>)
    ensures
        (match r {
            Result::Ok(d) => spec_field_descriptor(f@, index as nat) == Result::<
                FieldDescriptorV,
                Diag,
            >::Ok(d@),
            Result::Err(e) => spec_field_descriptor(f@, index as nat) == Result::<
                FieldDescriptorV,
                Diag,
            >::Err(e),
        }),
{
    let mut d = FieldDescriptor {
        ident: clone_opt_string(&f.ident),
        ty: f.ty.clone(),
        value: DefaultExpr::ZeroValue,
        constant: Option::None,
        function: Option::None,
    };
    proof {
        assert(d@ =~= spec_base(f@));
    }
    match process_attrs(&f.attrs, index, &mut d) {
        Result::Err(e) => Result::Err(e),
        Result::Ok(_) => Result::Ok(d),
    }
}

/// Builds the descriptors of a whole field list, in order; see
/// [`spec_process_fields`].
pub fn process_fields(fields: &Vec<FieldNode>) -> (r: Result<Vec<FieldDescriptor>, Diag>)
    ensures
        (match r {
            Result::Ok(ds) => spec_process_fields(view_fields(fields@)) == Result::<
                Seq<FieldDescriptorV>,
                Diag,
            >::Ok(view_descs(ds@)),
            Result::Err(e) => spec_process_fields(view_fields(fields@)) == Result::<
                Seq<FieldDescriptorV>,
                Diag,
            >::Err(e),
        }),
{
    let ghost fv = view_fields(fields@);
    let mut out: Vec<FieldDescriptor> = Vec::new();
    let mut i: usize = 0;
    proof {
        assert(fv.take(0) =~= Seq::<FieldNodeV>::empty());
        assert(view_descs(out@) =~= Seq::<FieldDescriptorV>::empty());
    }
    while i < fields.len()
        invariant
            fv == view_fields(fields@),
            fv.len() == fields@.len(),
            i <= fields@.len(),
            out@.len() == i,
            spec_process_fields(fv.take(i as int)) == Result::<Seq<FieldDescriptorV>, Diag>::Ok(
                view_descs(out@),
            ),
        decreases fields@.len() - i,
    {
        proof {
            assert(fv[i as int] == fields@[i as int]@);
            assert(fv.take(i + 1).drop_last() =~= fv.take(i as int));
            assert(fv.take(i + 1).last() == fv[i as int]);
        }
        let r = field_descriptor(&fields[i], i);
        match r {
            Result::Err(e) => {
                proof {
                    lemma_process_fields_prefix_err(fv, i + 1);
                }
                return Result::Err(e);
            },
            Result::Ok(d) => {
                let ghost old_out = out@;
                let ghost dv = d@;
                out.push(d);
                proof {
                    assert(view_descs(old_out.push(out@[i as int])) =~= view_descs(old_out).push(
                        dv,
                    ));
                    assert(spec_process_fields(fv.take(i + 1)) == Result::<
                        Seq<FieldDescriptorV>,
                        Diag,
                    >::Ok(view_descs(old_out).push(dv)));
                }
            },
        }
        i = i + 1;
    }
    proof {
        assert(fv.take(fv.len() as int) =~= fv);
    }
    Result::Ok(out)
}

} // verus!
