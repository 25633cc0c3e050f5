//! The laws of the two generators, each proved from the specifications
//! that the executable functions are verified against.

use vstd::prelude::*;
use crate::model::{AttrV, Diag, DiagKind, ExprV, FieldNodeV, MetaItemV, TypeBodyV, TypeDeclV, VariantNodeV};
use crate::attrs::{spec_find_attr, spec_matching};
use crate::names::{spec_const_name, spec_fn_name};
use crate::descriptor::{
    spec_apply_meta, spec_apply_metas, spec_base, spec_field_descriptor, spec_lit_convert,
    spec_process_fields, FieldDescriptorV,
};
use crate::fragment::{
    spec_resolve, ConstDeclV, DefaultBodyV, DefaultFragmentV, FnBodyV, FnDeclV, OperArmV,
    OperBodyV, OperFragmentV, ResolvedV,
};
use crate::default_gen::{
    lemma_scan_prefix_err, opt_or_empty, spec_consts, spec_enum_descriptor, spec_expand_default,
    spec_funcs, spec_named_inits, spec_scan_default, MarkV,
};
use crate::add_like::{spec_expand_oper, spec_oper_arm};

verus! {

/// A list without the keyword has no matching annotation.
proof fn lemma_matching_empty(attrs: Seq<AttrV>, kw: Seq<char>)
    requires
        forall|j: int| 0 <= j < attrs.len() ==> (#[trigger] attrs[j].name) != kw,
    ensures
        spec_matching(attrs, kw) == Seq::<AttrV>::empty(),
    decreases attrs.len(),
{
    if attrs.len() == 0 {
    } else {
        lemma_matching_empty(attrs.drop_last(), kw);
    }
}

/// Fields without the recognized annotation all yield their base
/// descriptor.
proof fn lemma_process_fields_bare(fs: Seq<FieldNodeV>)
    requires
        forall|i: int, j: int|
            0 <= i < fs.len() && 0 <= j < fs[i].attrs.len() ==> (#[trigger] fs[i].attrs[j].name)
                != "default"@,
    ensures
        spec_process_fields(fs) == Result::<Seq<FieldDescriptorV>, Diag>::Ok(
            Seq::new(fs.len(), |i: int| spec_base(fs[i])),
        ),
    decreases fs.len(),
{
    let bases = Seq::new(fs.len(), |i: int| spec_base(fs[i]));
    if fs.len() == 0 {
        assert(bases =~= Seq::<FieldDescriptorV>::empty());
    } else {
        let rest = fs.drop_last();
        assert(forall|i: int, j: int|
            0 <= i < rest.len() && 0 <= j < rest[i].attrs.len() ==> (#[trigger] rest[i].attrs[j].name)
                != "default"@) by {
            assert(forall|i: int| 0 <= i < rest.len() ==> rest[i] == fs[i]);
        }
        lemma_process_fields_bare(rest);
        lemma_matching_empty(fs.last().attrs, "default"@);
        assert(spec_field_descriptor(fs.last(), (fs.len() - 1) as nat) == Result::<
            FieldDescriptorV,
            Diag,
        >::Ok(spec_base(fs.last())));
        assert(Seq::new(rest.len(), |i: int| spec_base(rest[i])).push(spec_base(fs.last()))
            =~= bases);
    }
}

/// Descriptors that request no secondary constant emit none.
proof fn lemma_consts_empty(ds: Seq<FieldDescriptorV>)
    requires
        forall|i: int| 0 <= i < ds.len() ==> (#[trigger] ds[i].constant) is None,
    ensures
        spec_consts(ds) == Seq::<ConstDeclV>::empty(),
    decreases ds.len(),
{
    if ds.len() == 0 {
    } else {
        lemma_consts_empty(ds.drop_last());
    }
}

/// Descriptors that request no secondary function emit none.
proof fn lemma_funcs_empty(ds: Seq<FieldDescriptorV>)
    requires
        forall|i: int| 0 <= i < ds.len() ==> (#[trigger] ds[i].function) is None,
    ensures
        spec_funcs(ds) == Seq::<FnDeclV>::empty(),
    decreases ds.len(),
{
    if ds.len() == 0 {
    } else {
        lemma_funcs_empty(ds.drop_last());
    }
}

/// For a named record with no recognized annotations, the generated
/// constructor is a record literal that sets every field, in source
/// order, to its own type's zero-value protocol, and no secondary
/// constant or function is emitted.
pub proof fn lemma_unannotated_named_record(d: TypeDeclV, fs: Seq<FieldNodeV>)
    requires
        d.body == TypeBodyV::NamedStruct(fs),
        forall|i: int, j: int|
            0 <= i < fs.len() && 0 <= j < fs[i].attrs.len() ==> (#[trigger] fs[i].attrs[j].name)
                != "default"@,
    ensures
        spec_expand_default(d) is Ok,
        spec_expand_default(d)->Ok_0.consts == Seq::<ConstDeclV>::empty(),
        spec_expand_default(d)->Ok_0.funcs == Seq::<FnDeclV>::empty(),
        spec_expand_default(d)->Ok_0.body == DefaultBodyV::Named(
            Seq::new(
                fs.len(),
                |i: int| crate::fragment::NamedInitV {
                    field: opt_or_empty(fs[i].ident),
                    value: ResolvedV::Inline(crate::descriptor::DefaultExprV::ZeroValue),
                },
            ),
        ),
{
    lemma_process_fields_bare(fs);
    let bases = Seq::new(fs.len(), |i: int| spec_base(fs[i]));
    lemma_consts_empty(bases);
    lemma_funcs_empty(bases);
    assert(spec_named_inits(bases) =~= Seq::new(
        fs.len(),
        |i: int| crate::fragment::NamedInitV {
            field: opt_or_empty(fs[i].ident),
            value: ResolvedV::Inline(crate::descriptor::DefaultExprV::ZeroValue),
        },
    ));
}

/// For a field annotated with a single `value=` key, the descriptor's
/// default value is that expression after literal-to-target-type
/// conversion, and — with no secondary names requested — the
/// constructor inlines it.
pub proof fn lemma_value_override(f: FieldNodeV, a: AttrV, e: ExprV, index: nat)
    requires
        spec_find_attr(f.attrs, "default"@) == Result::<Option<AttrV>, Diag>::Ok(Option::Some(a)),
        a.args == Option::Some(seq![MetaItemV { key: "value"@, value: Option::Some(e) }]),
    ensures
        spec_field_descriptor(f, index) == Result::<FieldDescriptorV, Diag>::Ok(
            (FieldDescriptorV { value: spec_lit_convert(e), ..spec_base(f) }),
        ),
        spec_resolve(spec_field_descriptor(f, index)->Ok_0) == ResolvedV::Inline(
            spec_lit_convert(e),
        ),
{
    let m = MetaItemV { key: "value"@, value: Option::Some(e) };
    let ms = seq![m];
    assert(ms.drop_last() =~= Seq::<MetaItemV>::empty());
    assert(ms.last() == m);
    assert(spec_apply_metas(spec_base(f), Seq::<MetaItemV>::empty(), index) == spec_base(f));
    assert(spec_apply_metas(spec_base(f), ms, index) == spec_apply_meta(spec_base(f), m, index));
    assert(spec_apply_metas(spec_base(f), ms, index) == (FieldDescriptorV {
        value: spec_lit_convert(e),
        ..spec_base(f)
    }));
}

/// The `constant` and `function` keys commute: requesting both, in
/// either order, enriches the descriptor identically.
pub proof fn lemma_constant_function_commute(
    d: FieldDescriptorV,
    m1: MetaItemV,
    m2: MetaItemV,
    index: nat,
)
    requires
        m1.key == "constant"@,
        m2.key == "function"@,
    ensures
        spec_apply_metas(d, seq![m1, m2], index) == spec_apply_metas(d, seq![m2, m1], index),
{
    reveal_strlit("value");
    reveal_strlit("constant");
    reveal_strlit("function");
    assert("constant"@[0] != "function"@[0]);
    assert("constant"@.len() != "value"@.len());
    assert("function"@.len() != "value"@.len());
    let a = seq![m1, m2];
    let b = seq![m2, m1];
    assert(a.drop_last() =~= seq![m1]);
    assert(b.drop_last() =~= seq![m2]);
    assert(seq![m1].drop_last() =~= Seq::<MetaItemV>::empty());
    assert(seq![m2].drop_last() =~= Seq::<MetaItemV>::empty());
    let e0 = Seq::<MetaItemV>::empty();
    assert(spec_apply_metas(d, e0, index) == d);
    assert(spec_apply_metas(d, seq![m1], index) == spec_apply_meta(d, m1, index));
    assert(spec_apply_metas(d, seq![m2], index) == spec_apply_meta(d, m2, index));
    assert(spec_apply_metas(d, a, index) == spec_apply_meta(
        spec_apply_meta(d, m1, index),
        m2,
        index,
    ));
    assert(spec_apply_metas(d, b, index) == spec_apply_meta(
        spec_apply_meta(d, m2, index),
        m1,
        index,
    ));
}

/// When a descriptor carries both secondary names, the emitted constant
/// holds the value, the emitted function's body is a reference to that
/// constant — not a recomputation — and the constructor refers to the
/// constant too: one source of truth for all three.
pub proof fn lemma_secondary_single_source(d: FieldDescriptorV, c: Seq<char>, f: Seq<char>)
    requires
        d.constant == Option::Some(c),
        d.function == Option::Some(f),
    ensures
        spec_resolve(d) == ResolvedV::ConstRef(c),
        spec_consts(seq![d]) == seq![ConstDeclV { name: c, ty: d.ty, value: d.value }],
        spec_funcs(seq![d]) == seq![FnDeclV { name: f, ty: d.ty, body: FnBodyV::ConstRef(c) }],
{
    assert(seq![d].drop_last() =~= Seq::<FieldDescriptorV>::empty());
    assert(seq![d].last() == d);
    assert(spec_consts(Seq::<FieldDescriptorV>::empty()) == Seq::<ConstDeclV>::empty());
    assert(spec_funcs(Seq::<FieldDescriptorV>::empty()) == Seq::<FnDeclV>::empty());
    assert(spec_consts(seq![d]) =~= seq![ConstDeclV { name: c, ty: d.ty, value: d.value }]);
    assert(spec_funcs(seq![d]) =~= seq![FnDeclV { name: f, ty: d.ty, body: FnBodyV::ConstRef(c) }]);
}

/// The synthesized secondary names of a field named `foo`, and of the
/// positional field at index 1.
pub proof fn lemma_synthesized_names()
    ensures
        spec_const_name(Option::Some("foo"@), 0) == "DEFAULT_FOO"@,
        spec_fn_name(Option::Some("Foo"@), 0) == "default_foo"@,
        spec_const_name(Option::None, 1) == "DEFAULT_1"@,
        spec_fn_name(Option::None, 1) == "default_1"@,
{
    reveal_strlit("foo");
    reveal_strlit("Foo");
    reveal_strlit("DEFAULT_");
    reveal_strlit("default_");
    reveal_strlit("DEFAULT_FOO");
    reveal_strlit("default_foo");
    reveal_strlit("1");
    reveal_strlit("DEFAULT_1");
    reveal_strlit("default_1");
    assert(spec_const_name(Option::Some("foo"@), 0) =~= "DEFAULT_FOO"@);
    assert(spec_fn_name(Option::Some("Foo"@), 0) =~= "default_foo"@);
    assert(spec_const_name(Option::None, 1) =~= "DEFAULT_1"@);
    assert(spec_fn_name(Option::None, 1) =~= "default_1"@);
}

/// A scan over variants none of which is designated finds nothing.
proof fn lemma_scan_none(vs: Seq<VariantNodeV>)
    requires
        forall|i: int| 0 <= i < vs.len() ==> #[trigger] spec_find_attr(vs[i].attrs, "default"@)
            == Result::<Option<AttrV>, Diag>::Ok(Option::None),
    ensures
        spec_scan_default(vs) == Result::<Option<MarkV>, Diag>::Ok(Option::None),
    decreases vs.len(),
{
    if vs.len() == 0 {
    } else {
        lemma_scan_none(vs.drop_last());
    }
}

/// A scan over variants exactly one of which is designated finds
/// exactly that one.
proof fn lemma_scan_single(vs: Seq<VariantNodeV>, k: int, a: AttrV)
    requires
        0 <= k < vs.len(),
        spec_find_attr(vs[k].attrs, "default"@) == Result::<Option<AttrV>, Diag>::Ok(
            Option::Some(a),
        ),
        forall|i: int| 0 <= i < vs.len() && i != k ==> #[trigger] spec_find_attr(
            vs[i].attrs,
            "default"@,
        ) == Result::<Option<AttrV>, Diag>::Ok(Option::None),
    ensures
        spec_scan_default(vs) == Result::<Option<MarkV>, Diag>::Ok(
            Option::Some(MarkV { variant: vs[k], attr: a }),
        ),
    decreases vs.len(),
{
    let rest = vs.drop_last();
    if k == vs.len() - 1 {
        lemma_scan_none(rest);
    } else {
        lemma_scan_single(rest, k, a);
    }
}

/// A tagged union with exactly one designated default variant derives
/// successfully, and the constructor is that variant's descriptor —
/// its qualified path, or the annotation's override — resolved as any
/// field's would be.
pub proof fn lemma_enum_single_default(
    d: TypeDeclV,
    vs: Seq<VariantNodeV>,
    k: int,
    a: AttrV,
)
    requires
        d.body == TypeBodyV::Enum(vs),
        0 <= k < vs.len(),
        spec_find_attr(vs[k].attrs, "default"@) == Result::<Option<AttrV>, Diag>::Ok(
            Option::Some(a),
        ),
        forall|i: int| 0 <= i < vs.len() && i != k ==> #[trigger] spec_find_attr(
            vs[i].attrs,
            "default"@,
        ) == Result::<Option<AttrV>, Diag>::Ok(Option::None),
    ensures
        spec_expand_default(d) is Ok,
        spec_expand_default(d)->Ok_0.body == DefaultBodyV::Single(
            spec_resolve(spec_enum_descriptor(d, MarkV { variant: vs[k], attr: a })),
        ),
{
    lemma_scan_single(vs, k, a);
}

/// A tagged union with no designated default variant is rejected.
pub proof fn lemma_enum_no_default(d: TypeDeclV, vs: Seq<VariantNodeV>)
    requires
        d.body == TypeBodyV::Enum(vs),
        forall|i: int| 0 <= i < vs.len() ==> #[trigger] spec_find_attr(vs[i].attrs, "default"@)
            == Result::<Option<AttrV>, Diag>::Ok(Option::None),
    ensures
        spec_expand_default(d) == Result::<DefaultFragmentV, Diag>::Err(
            Diag { kind: DiagKind::NoDefaultVariant, span: d.span },
        ),
{
    lemma_scan_none(vs);
}

/// A tagged union with a second designated default variant is rejected,
/// at the second designation's position.
pub proof fn lemma_enum_multiple_defaults(
    d: TypeDeclV,
    vs: Seq<VariantNodeV>,
    k1: int,
    a1: AttrV,
    k2: int,
    a2: AttrV,
)
    requires
        d.body == TypeBodyV::Enum(vs),
        0 <= k1 < k2 < vs.len(),
        spec_find_attr(vs[k1].attrs, "default"@) == Result::<Option<AttrV>, Diag>::Ok(
            Option::Some(a1),
        ),
        spec_find_attr(vs[k2].attrs, "default"@) == Result::<Option<AttrV>, Diag>::Ok(
            Option::Some(a2),
        ),
        forall|i: int| 0 <= i < k2 && i != k1 ==> #[trigger] spec_find_attr(
            vs[i].attrs,
            "default"@,
        ) == Result::<Option<AttrV>, Diag>::Ok(Option::None),
    ensures
        spec_expand_default(d) == Result::<DefaultFragmentV, Diag>::Err(
            Diag { kind: DiagKind::MultipleDefaultVariants, span: a2.span },
        ),
{
    let head = vs.take(k2);
    assert(forall|i: int| 0 <= i < head.len() ==> head[i] == vs[i]);
    lemma_scan_single(head, k1, a1);
    assert(vs.take(k2 + 1).drop_last() =~= head);
    assert(vs.take(k2 + 1).last() == vs[k2]);
    assert(spec_scan_default(vs.take(k2 + 1)) == Result::<Option<MarkV>, Diag>::Err(
        Diag { kind: DiagKind::MultipleDefaultVariants, span: a2.span },
    ));
    lemma_scan_prefix_err(vs, k2 + 1);
}

/// A positional record derives an operator that combines the two
/// operands slot by slot, one combine per declared field in positional
/// order, with no result wrapping.
pub proof fn lemma_oper_tuple_elementwise(d: TypeDeclV, fs: Seq<FieldNodeV>, t: Seq<char>)
    requires
        d.body == TypeBodyV::TupleStruct(fs),
    ensures
        spec_expand_oper(d, t) is Ok,
        !spec_expand_oper(d, t)->Ok_0.wraps_result,
        spec_expand_oper(d, t)->Ok_0.body == (OperBodyV::TupleCombine { arity: fs.len() }),
{
}

/// A tagged union derives an operator whose result is wrapped in a
/// call-time error carrier: a payload-less variant combines to the
/// cannot-combine error arm, every variant gets exactly one arm, and
/// the mismatched-variant catch-all arm exists exactly when more than
/// one variant does — so mismatches are reported at call time, never at
/// generation time.
pub proof fn lemma_oper_enum_arms(d: TypeDeclV, vs: Seq<VariantNodeV>, t: Seq<char>)
    requires
        d.body == TypeBodyV::Enum(vs),
    ensures
        spec_expand_oper(d, t) is Ok,
        spec_expand_oper(d, t)->Ok_0.wraps_result,
        spec_expand_oper(d, t)->Ok_0.body matches OperBodyV::EnumMatch { arms, catch_all } ==> {
            &&& arms.len() == vs.len()
            &&& catch_all == (vs.len() > 1)
            &&& forall|i: int| 0 <= i < vs.len() ==> arms[i] == spec_oper_arm(#[trigger] vs[i])
            &&& forall|i: int|
                0 <= i < vs.len() && (#[trigger] vs[i].payload) is Unit ==> arms[i]
                    == (OperArmV::UnitArm { variant: vs[i].ident })
        },
        spec_expand_oper(d, t)->Ok_0.body is EnumMatch,
{
}

/// Regeneration from the same declaration is deterministic: any two
/// defaulting results that satisfy the generator's contract are
/// structurally identical.
pub proof fn lemma_default_regeneration_identical(
    d: TypeDeclV,
    r1: Result<DefaultFragmentV, Diag>,
    r2: Result<DefaultFragmentV, Diag>,
)
    requires
        r1 == spec_expand_default(d),
        r2 == spec_expand_default(d),
    ensures
        r1 == r2,
{
}

/// Regeneration from the same declaration and trait is deterministic
/// for the operator generator too.
pub proof fn lemma_oper_regeneration_identical(
    d: TypeDeclV,
    t: Seq<char>,
    r1: Result<OperFragmentV, Diag>,
    r2: Result<OperFragmentV, Diag>,
)
    requires
        r1 == spec_expand_oper(d, t),
        r2 == spec_expand_oper(d, t),
    ensures
        r1 == r2,
{
}

} // verus!
