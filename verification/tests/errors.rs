use derive_gen::default_gen::expand;
use derive_gen::model::{Attr, DiagKind, Expr, FieldNode, MetaItem, TypeBody, TypeDecl, VariantNode, VariantPayload};

fn s(x: &str) -> String {
    x.to_string()
}

fn decl(name: &str, body: TypeBody) -> TypeDecl {
    TypeDecl { ident: s(name), span: 42, generics: vec![], body }
}

fn default_attr_at(span: u64) -> Attr {
    Attr { name: s("default"), span, args: None }
}

fn value_attr(span: u64, text: &str) -> Attr {
    Attr {
        name: s("default"),
        span,
        args: Some(vec![MetaItem { key: s("value"), value: Some(Expr::Other(s(text))) }]),
    }
}

#[test]
fn union_rejected_test() {
    let e = expand(&decl("U", TypeBody::Union)).unwrap_err();
    assert_eq!(e.kind, DiagKind::UnionNotSupported);
    assert_eq!(e.span, 42);
    assert_eq!(e.message(), "Can't derive a Default for a Union");
}

#[test]
fn unit_struct_rejected_test() {
    let e = expand(&decl("S", TypeBody::UnitStruct)).unwrap_err();
    assert_eq!(e.kind, DiagKind::UnitStructNotSupported);
    assert_eq!(e.message(), "Only named structs can derive a Default");
}

#[test]
fn duplicate_annotation_rejected_test() {
    let f = FieldNode {
        ident: Some(s("x")),
        ty: s("i32"),
        attrs: vec![value_attr(1, "1"), value_attr(2, "2")],
    };
    let e = expand(&decl("S", TypeBody::NamedStruct(vec![f]))).unwrap_err();
    assert_eq!(e.kind, DiagKind::DuplicateAnnotation);
    // reported at the second occurrence
    assert_eq!(e.span, 2);
    assert_eq!(e.message(), "Attribute 'default' should be defined only once per field");
}

#[test]
fn unrelated_annotations_ignored_test() {
    let f = FieldNode {
        ident: Some(s("x")),
        ty: s("i32"),
        attrs: vec![
            Attr { name: s("doc"), span: 1, args: None },
            Attr { name: s("serde"), span: 2, args: None },
        ],
    };
    assert!(expand(&decl("S", TypeBody::NamedStruct(vec![f]))).is_ok());
}

#[test]
fn no_default_variant_rejected_test() {
    let vs = vec![
        VariantNode { ident: s("A"), payload: VariantPayload::Unit, attrs: vec![] },
        VariantNode { ident: s("B"), payload: VariantPayload::Unit, attrs: vec![] },
    ];
    let e = expand(&decl("E", TypeBody::Enum(vs))).unwrap_err();
    assert_eq!(e.kind, DiagKind::NoDefaultVariant);
    assert_eq!(e.span, 42);
    assert_eq!(e.message(), "Enums must define a variant as a Default");
}

#[test]
fn multiple_default_variants_rejected_test() {
    let vs = vec![
        VariantNode { ident: s("A"), payload: VariantPayload::Unit, attrs: vec![default_attr_at(5)] },
        VariantNode { ident: s("B"), payload: VariantPayload::Unit, attrs: vec![default_attr_at(9)] },
    ];
    let e = expand(&decl("E", TypeBody::Enum(vs))).unwrap_err();
    assert_eq!(e.kind, DiagKind::MultipleDefaultVariants);
    // reported at the second designation
    assert_eq!(e.span, 9);
}

#[test]
fn duplicate_on_variant_rejected_test() {
    let vs = vec![VariantNode {
        ident: s("A"),
        payload: VariantPayload::Unit,
        attrs: vec![default_attr_at(3), default_attr_at(4)],
    }];
    let e = expand(&decl("E", TypeBody::Enum(vs))).unwrap_err();
    assert_eq!(e.kind, DiagKind::DuplicateAnnotation);
    assert_eq!(e.span, 4);
}

#[test]
fn later_value_key_wins_test() {
    let f = FieldNode {
        ident: Some(s("x")),
        ty: s("i32"),
        attrs: vec![Attr {
            name: s("default"),
            span: 0,
            args: Some(vec![
                MetaItem { key: s("value"), value: Some(Expr::Other(s("1"))) },
                MetaItem { key: s("other"), value: None },
                MetaItem { key: s("value"), value: Some(Expr::Other(s("2"))) },
            ]),
        }],
    };
    let frag = expand(&decl("S", TypeBody::NamedStruct(vec![f]))).unwrap();
    match &frag.body {
        derive_gen::fragment::DefaultBody::Named(inits) => {
            assert_eq!(
                inits[0].value,
                derive_gen::fragment::Resolved::Inline(
                    derive_gen::descriptor::DefaultExpr::Plain(s("2")),
                ),
            );
        },
        other => panic!("expected a named constructor body, got {:?}", other),
    }
}

#[test]
fn empty_named_struct_test() {
    let frag = expand(&decl("Empty", TypeBody::NamedStruct(vec![]))).unwrap();
    assert!(frag.consts.is_empty());
    assert!(frag.funcs.is_empty());
    assert_eq!(frag.body, derive_gen::fragment::DefaultBody::Named(vec![]));
}
