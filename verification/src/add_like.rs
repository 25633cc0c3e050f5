//! The operator generator: from a declaration to the shape of an
//! element-wise binary-operator implementation.
//!
//! A record combines its two operands field by field (positionally for
//! a tuple record); the method is named after the derived trait, folded
//! to lower case.  A tagged union is combined by a pairwise match: two
//! instances of the same payload-bearing variant combine slot by slot,
//! two instances of the same payload-less variant report a
//! cannot-combine error at call time, and — when more than one variant
//! exists — a catch-all arm reports mismatched variants at call time.
//! Those two failures are the generated code's own recoverable results,
//! never generation-time diagnostics, since cross-variant combination
//! is not statically decidable from the declaration's shape alone.

use vstd::prelude::*;
use crate::model::{
    view_fields, view_strings, view_variants, Diag, DiagKind, FieldNode, FieldNodeV, TypeBody,
    TypeBodyV, TypeDecl, TypeDeclV, VariantNode, VariantNodeV, VariantPayload, VariantPayloadV,
};
use crate::names::{spec_lower, to_lower};
use crate::default_gen::opt_or_empty;
use crate::fragment::{
    view_arms, OperArm, OperArmV, OperBody, OperBodyV, OperFragment, OperFragmentV,
};

verus! {

/// The names of a named field list, in source order.
pub open spec fn spec_field_names(fs: Seq<FieldNodeV>) -> Seq<Seq<char>> {
    Seq::new(fs.len(), |i: int| opt_or_empty(fs[i].ident))
}

/// The match arm one variant contributes to the pairwise combine.
pub open spec fn spec_oper_arm(v: VariantNodeV) -> OperArmV {
    match v.payload {
        VariantPayloadV::Unit => OperArmV::UnitArm { variant: v.ident },
        VariantPayloadV::Tuple(fs) => OperArmV::TupleArm { variant: v.ident, arity: fs.len() },
        VariantPayloadV::Named(fs) => OperArmV::NamedArm {
            variant: v.ident,
            fields: spec_field_names(fs),
        },
    }
}

/// The match arms of all variants, in source order.
pub open spec fn spec_arms(vs: Seq<VariantNodeV>) -> Seq<OperArmV> {
    Seq::new(vs.len(), |i: int| spec_oper_arm(vs[i]))
}

/// What the operator generator produces for one declaration: records
/// route to the field-wise combine, tagged unions to the pairwise
/// match, and everything else is rejected.
pub open spec fn spec_expand_oper(d: TypeDeclV, trait_name: Seq<char>) -> Result<
    OperFragmentV,
    Diag,
> {
    let method = spec_lower(trait_name);
    match d.body {
        TypeBodyV::TupleStruct(fs) => Result::Ok(
            OperFragmentV {
                trait_ident: trait_name,
                method_ident: method,
                type_ident: d.ident,
                wraps_result: false,
                body: OperBodyV::TupleCombine { arity: fs.len() },
            },
        ),
        TypeBodyV::NamedStruct(fs) => Result::Ok(
            OperFragmentV {
                trait_ident: trait_name,
                method_ident: method,
                type_ident: d.ident,
                wraps_result: false,
                body: OperBodyV::NamedCombine { fields: spec_field_names(fs) },
            },
        ),
        TypeBodyV::Enum(vs) => Result::Ok(
            OperFragmentV {
                trait_ident: trait_name,
                method_ident: method,
                type_ident: d.ident,
                wraps_result: true,
                body: OperBodyV::EnumMatch { arms: spec_arms(vs), catch_all: vs.len() > 1 },
            },
        ),
        TypeBodyV::UnitStruct => Result::Err(
            Diag { kind: DiagKind::OperatorShapeNotSupported, span: d.span },
        ),
        TypeBodyV::Union => Result::Err(
            Diag { kind: DiagKind::OperatorShapeNotSupported, span: d.span },
        ),
    }
}

/// Extracts the field names of a named field list; see
/// [`spec_field_names`].
pub fn field_names(fields: &Vec<FieldNode>) -> (r: Vec<String>)
    ensures
        view_strings(r@) == spec_field_names(view_fields(fields@)),
{
    let ghost fv = view_fields(fields@);
    let mut out: Vec<String> = Vec::new();
    let mut i: usize = 0;
    while i < fields.len()
        invariant
            fv == view_fields(fields@),
            fv.len() == fields@.len(),
            i <= fields@.len(),
            out@.len() == i,
            forall|j: int| 0 <= j < i ==> (#[trigger] out@[j])@ == spec_field_names(fv)[j],
        decreases fields@.len() - i,
    {
        proof {
            assert(fv[i as int] == fields@[i as int]@);
        }
        let name = match &fields[i].ident {
            Option::Some(s) => s.clone(),
            Option::None => String::new(),
        };
        out.push(name);
        i = i + 1;
    }
    proof {
        assert(view_strings(out@) =~= spec_field_names(fv));
    }
    out
}

/// The positional-record combine body: one slot-wise combine per field.
pub fn tuple_content(fields: &Vec<FieldNode>) -> (r: OperBody)
    ensures
        r@ == (OperBodyV::TupleCombine { arity: view_fields(fields@).len() }),
{
    OperBody::TupleCombine { arity: fields.len() }
}

/// The named-record combine body: one field-wise combine per field.
pub fn struct_content(fields: &Vec<FieldNode>) -> (r: OperBody)
    ensures
        r@ == (OperBodyV::NamedCombine { fields: spec_field_names(view_fields(fields@)) }),
{
    OperBody::NamedCombine { fields: field_names(fields) }
}

/// The tagged-union combine body: one arm per variant and — when more
/// than one variant exists — the catch-all mismatch arm.
pub fn enum_content(variants: &Vec<VariantNode>) -> (r: OperBody)
    ensures
        r@ == (OperBodyV::EnumMatch {
            arms: spec_arms(view_variants(variants@)),
            catch_all: view_variants(variants@).len() > 1,
        }),
{
    let ghost vv = view_variants(variants@);
    let mut arms: Vec<OperArm> = Vec::new();
    let mut i: usize = 0;
    while i < variants.len()
        invariant
            vv == view_variants(variants@),
            vv.len() == variants@.len(),
            i <= variants@.len(),
            arms@.len() == i,
            forall|j: int| 0 <= j < i ==> (#[trigger] arms@[j])@ == spec_arms(vv)[j],
        decreases variants@.len() - i,
    {
        proof {
            assert(vv[i as int] == variants@[i as int]@);
        }
        let v = &variants[i];
        let arm = match &v.payload {
            VariantPayload::Unit => OperArm::UnitArm { variant: v.ident.clone() },
            VariantPayload::Tuple(fs) => OperArm::TupleArm {
                variant: v.ident.clone(),
                arity: fs.len(),
            },
            VariantPayload::Named(fs) => OperArm::NamedArm {
                variant: v.ident.clone(),
                fields: field_names(fs),
            },
        };
        arms.push(arm);
        i = i + 1;
    }
    proof {
        assert(view_arms(arms@) =~= spec_arms(vv));
    }
    OperBody::EnumMatch { arms, catch_all: variants.len() > 1 }
}

/// Derives the element-wise binary-operator implementation shape for
/// one declaration and trait; see [`spec_expand_oper`] for exactly what
/// is produced and which declarations are rejected.
pub fn expand(input: &TypeDecl, trait_name: &str) -> (r: Result<OperFragment, Diag>)
    ensures
        (match r {
            Result::Ok(f) => spec_expand_oper(input@, trait_name@) == Result::<
                OperFragmentV,
                Diag,
            >::Ok(f@),
            Result::Err(e) => spec_expand_oper(input@, trait_name@) == Result::<
                OperFragmentV,
                Diag,
            >::Err(e),
        }),
{
    let method = to_lower(trait_name);
    let trait_ident = String::from_str(trait_name);
    match &input.body {
        TypeBody::TupleStruct(fs) => Result::Ok(
            OperFragment {
                trait_ident,
                method_ident: method,
                type_ident: input.ident.clone(),
                wraps_result: false,
                body: tuple_content(fs),
            },
        ),
        TypeBody::NamedStruct(fs) => Result::Ok(
            OperFragment {
                trait_ident,
                method_ident: method,
                type_ident: input.ident.clone(),
                wraps_result: false,
                body: struct_content(fs),
            },
        ),
        TypeBody::Enum(vs) => Result::Ok(
            OperFragment {
                trait_ident,
                method_ident: method,
                type_ident: input.ident.clone(),
                wraps_result: true,
                body: enum_content(vs),
            },
        ),
        TypeBody::UnitStruct => Result::Err(
            Diag { kind: DiagKind::OperatorShapeNotSupported, span: input.span },
        ),
        TypeBody::Union => Result::Err(
            Diag { kind: DiagKind::OperatorShapeNotSupported, span: input.span },
        ),
    }
}

} // verus!
