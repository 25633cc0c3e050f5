use derive_gen::add_like::expand;
use derive_gen::fragment::{OperArm, OperBody};
use derive_gen::model::{DiagKind, FieldNode, TypeBody, TypeDecl, VariantNode, VariantPayload};
use derive_gen::names::{dec_string, synth_const_name, synth_fn_name};

fn s(x: &str) -> String {
    x.to_string()
}

fn decl(name: &str, body: TypeBody) -> TypeDecl {
    TypeDecl { ident: s(name), span: 3, generics: vec![], body }
}

fn named_field(name: &str, ty: &str) -> FieldNode {
    FieldNode { ident: Some(s(name)), ty: s(ty), attrs: vec![] }
}

fn pos_field(ty: &str) -> FieldNode {
    FieldNode { ident: None, ty: s(ty), attrs: vec![] }
}

#[test]
fn tuple_struct_add_test() {
    let d = decl("Pair", TypeBody::TupleStruct(vec![pos_field("i32"), pos_field("i32")]));
    let frag = expand(&d, "Add").unwrap();
    assert_eq!(frag.trait_ident, s("Add"));
    assert_eq!(frag.method_ident, s("add"));
    assert_eq!(frag.type_ident, s("Pair"));
    assert!(!frag.wraps_result);
    assert_eq!(frag.body, OperBody::TupleCombine { arity: 2 });
}

#[test]
fn named_struct_mul_test() {
    let d = decl("Point", TypeBody::NamedStruct(vec![named_field("x", "i32"), named_field("y", "i32")]));
    let frag = expand(&d, "Mul").unwrap();
    assert_eq!(frag.method_ident, s("mul"));
    assert!(!frag.wraps_result);
    assert_eq!(frag.body, OperBody::NamedCombine { fields: vec![s("x"), s("y")] });
}

#[test]
fn enum_add_arms_test() {
    let d = decl(
        "Mixed",
        TypeBody::Enum(vec![
            VariantNode {
                ident: s("Pair"),
                payload: VariantPayload::Tuple(vec![pos_field("i32"), pos_field("i32")]),
                attrs: vec![],
            },
            VariantNode {
                ident: s("Named"),
                payload: VariantPayload::Named(vec![named_field("a", "i32")]),
                attrs: vec![],
            },
            VariantNode { ident: s("Nothing"), payload: VariantPayload::Unit, attrs: vec![] },
        ]),
    );
    let frag = expand(&d, "Add").unwrap();
    assert!(frag.wraps_result);
    assert_eq!(
        frag.body,
        OperBody::EnumMatch {
            arms: vec![
                OperArm::TupleArm { variant: s("Pair"), arity: 2 },
                OperArm::NamedArm { variant: s("Named"), fields: vec![s("a")] },
                OperArm::UnitArm { variant: s("Nothing") },
            ],
            catch_all: true,
        }
    );
}

#[test]
fn single_variant_enum_no_catch_all_test() {
    let d = decl(
        "Only",
        TypeBody::Enum(vec![VariantNode {
            ident: s("One"),
            payload: VariantPayload::Tuple(vec![pos_field("u8")]),
            attrs: vec![],
        }]),
    );
    let frag = expand(&d, "Add").unwrap();
    assert_eq!(
        frag.body,
        OperBody::EnumMatch {
            arms: vec![OperArm::TupleArm { variant: s("One"), arity: 1 }],
            catch_all: false,
        }
    );
}

#[test]
fn operator_unit_struct_rejected_test() {
    let e = expand(&decl("S", TypeBody::UnitStruct), "Sub").unwrap_err();
    assert_eq!(e.kind, DiagKind::OperatorShapeNotSupported);
    assert_eq!(e.span, 3);
    assert_eq!(e.message(), "Only structs and enums can derive an operator");
}

#[test]
fn operator_regeneration_identical_test() {
    let d = decl("Pair", TypeBody::TupleStruct(vec![pos_field("i32"), pos_field("i32")]));
    assert_eq!(expand(&d, "Sub"), expand(&d, "Sub"));
}

#[test]
fn synthesized_name_test() {
    assert_eq!(synth_const_name(&Some(s("foo")), 0), s("DEFAULT_FOO"));
    assert_eq!(synth_fn_name(&Some(s("Foo")), 0), s("default_foo"));
    assert_eq!(synth_const_name(&None, 1), s("DEFAULT_1"));
    assert_eq!(synth_fn_name(&None, 1), s("default_1"));
    assert_eq!(synth_const_name(&Some(s("x_y9")), 0), s("DEFAULT_X_Y9"));
    assert_eq!(dec_string(0), s("0"));
    assert_eq!(dec_string(210), s("210"));
}

#[test]
fn operator_union_rejected_test() {
    let e = expand(&decl("U", TypeBody::Union), "Add").unwrap_err();
    assert_eq!(e.kind, DiagKind::OperatorShapeNotSupported);
}
