use derive_gen::default_gen::expand;
use derive_gen::descriptor::DefaultExpr;
use derive_gen::fragment::{ConstDecl, DefaultBody, DefaultFragment, FnBody, FnDecl, Resolved};
use derive_gen::model::{Attr, Expr, FieldNode, MetaItem, TypeBody, TypeDecl, VariantNode, VariantPayload};

fn s(x: &str) -> String {
    x.to_string()
}

fn mi(key: &str, value: Option<Expr>) -> MetaItem {
    MetaItem { key: s(key), value }
}

fn default_attr(items: Vec<MetaItem>) -> Attr {
    Attr { name: s("default"), span: 0, args: Some(items) }
}

fn bare_default_attr() -> Attr {
    Attr { name: s("default"), span: 0, args: None }
}

fn named_field(name: &str, ty: &str, attrs: Vec<Attr>) -> FieldNode {
    FieldNode { ident: Some(s(name)), ty: s(ty), attrs }
}

fn pos_field(ty: &str, attrs: Vec<Attr>) -> FieldNode {
    FieldNode { ident: None, ty: s(ty), attrs }
}

fn decl(name: &str, generics: Vec<&str>, body: TypeBody) -> TypeDecl {
    TypeDecl {
        ident: s(name),
        span: 7,
        generics: generics.into_iter().map(s).collect(),
        body,
    }
}

fn point2d() -> TypeDecl {
    decl(
        "Point2D",
        vec!["'a"],
        TypeBody::NamedStruct(vec![
            named_field("x", "i32", vec![default_attr(vec![mi("value", Some(Expr::Other(s("1"))))])]),
            named_field(
                "y",
                "i32",
                vec![default_attr(vec![mi("value", Some(Expr::Other(s("2")))), mi("constant", None)])],
            ),
            named_field(
                "z",
                "i32",
                vec![default_attr(vec![mi("value", Some(Expr::Other(s("3")))), mi("function", None)])],
            ),
            named_field(
                "a",
                "i32",
                vec![default_attr(vec![
                    mi("value", Some(Expr::Other(s("10")))),
                    mi("function", None),
                    mi("constant", None),
                ])],
            ),
            named_field(
                "b",
                "i32",
                vec![default_attr(vec![
                    mi("value", Some(Expr::Other(s("11")))),
                    mi("constant", None),
                    mi("function", None),
                ])],
            ),
            named_field(
                "c",
                "i32",
                vec![default_attr(vec![
                    mi("value", Some(Expr::Other(s("10+10")))),
                    mi("function", Some(Expr::Other(s("init_c")))),
                    mi("constant", Some(Expr::Other(s("INIT_C")))),
                ])],
            ),
            named_field(
                "d",
                "i32",
                vec![default_attr(vec![
                    mi("value", Some(Expr::Other(s("10+11")))),
                    mi("constant", Some(Expr::Other(s("INIT_D")))),
                    mi("function", Some(Expr::Other(s("init_d")))),
                ])],
            ),
            named_field(
                "e",
                "&'a str",
                vec![default_attr(vec![
                    mi("value", Some(Expr::StrLit(s("ok")))),
                    mi("function", Some(Expr::Other(s("init_e")))),
                ])],
            ),
            named_field(
                "f",
                "String",
                vec![default_attr(vec![
                    mi("value", Some(Expr::StrLit(s("ok")))),
                    mi("function", None),
                ])],
            ),
            named_field(
                "host",
                "std::borrow::Cow<'static, str>",
                vec![default_attr(vec![mi("value", Some(Expr::StrLit(s("localhost"))))])],
            ),
        ]),
    )
}

#[test]
fn named_struct_test() {
    let frag = expand(&point2d()).unwrap();
    assert_eq!(frag.type_ident, s("Point2D"));
    assert_eq!(frag.generics, vec![s("'a")]);

    let inits = match &frag.body {
        DefaultBody::Named(inits) => inits,
        other => panic!("expected a named constructor body, got {:?}", other),
    };
    assert_eq!(inits.len(), 10);
    assert_eq!(inits[0].field, s("x"));
    assert_eq!(inits[0].value, Resolved::Inline(DefaultExpr::Plain(s("1"))));
    assert_eq!(inits[1].value, Resolved::ConstRef(s("DEFAULT_Y")));
    assert_eq!(inits[2].value, Resolved::FnCall(s("default_z")));
    assert_eq!(inits[3].value, Resolved::ConstRef(s("DEFAULT_A")));
    assert_eq!(inits[4].value, Resolved::ConstRef(s("DEFAULT_B")));
    assert_eq!(inits[5].value, Resolved::ConstRef(s("INIT_C")));
    assert_eq!(inits[6].value, Resolved::ConstRef(s("INIT_D")));
    assert_eq!(inits[7].value, Resolved::FnCall(s("init_e")));
    assert_eq!(inits[8].value, Resolved::FnCall(s("default_f")));
    assert_eq!(inits[9].value, Resolved::Inline(DefaultExpr::IntoStr(s("localhost"))));

    assert_eq!(
        frag.consts,
        vec![
            ConstDecl { name: s("DEFAULT_Y"), ty: s("i32"), value: DefaultExpr::Plain(s("2")) },
            ConstDecl { name: s("DEFAULT_A"), ty: s("i32"), value: DefaultExpr::Plain(s("10")) },
            ConstDecl { name: s("DEFAULT_B"), ty: s("i32"), value: DefaultExpr::Plain(s("11")) },
            ConstDecl { name: s("INIT_C"), ty: s("i32"), value: DefaultExpr::Plain(s("10+10")) },
            ConstDecl { name: s("INIT_D"), ty: s("i32"), value: DefaultExpr::Plain(s("10+11")) },
        ]
    );
    // the generator never evaluates: `10+10` is carried as text, and the
    // generated code itself computes 20 (and `10+11` computes 21)
    assert_ne!(frag.consts[3].value, DefaultExpr::Plain(s("20")));
    assert_ne!(frag.consts[4].value, DefaultExpr::Plain(s("21")));

    assert_eq!(
        frag.funcs,
        vec![
            FnDecl { name: s("default_z"), ty: s("i32"), body: FnBody::Inline(DefaultExpr::Plain(s("3"))) },
            FnDecl { name: s("default_a"), ty: s("i32"), body: FnBody::ConstRef(s("DEFAULT_A")) },
            FnDecl { name: s("default_b"), ty: s("i32"), body: FnBody::ConstRef(s("DEFAULT_B")) },
            FnDecl { name: s("init_c"), ty: s("i32"), body: FnBody::ConstRef(s("INIT_C")) },
            FnDecl { name: s("init_d"), ty: s("i32"), body: FnBody::ConstRef(s("INIT_D")) },
            FnDecl { name: s("init_e"), ty: s("&'a str"), body: FnBody::Inline(DefaultExpr::IntoStr(s("ok"))) },
            FnDecl { name: s("default_f"), ty: s("String"), body: FnBody::Inline(DefaultExpr::IntoStr(s("ok"))) },
        ]
    );
}

fn point3d() -> TypeDecl {
    decl(
        "Point3D",
        vec![],
        TypeBody::TupleStruct(vec![
            pos_field("i32", vec![default_attr(vec![mi("value", Some(Expr::Other(s("1"))))])]),
            pos_field(
                "i32",
                vec![default_attr(vec![mi("value", Some(Expr::Other(s("2")))), mi("constant", None)])],
            ),
            pos_field(
                "i32",
                vec![default_attr(vec![mi("value", Some(Expr::Other(s("3")))), mi("function", None)])],
            ),
        ]),
    )
}

#[test]
fn unnamed_struct_test() {
    let frag = expand(&point3d()).unwrap();
    let vals = match &frag.body {
        DefaultBody::Tuple(vals) => vals,
        other => panic!("expected a positional constructor body, got {:?}", other),
    };
    assert_eq!(
        vals,
        &vec![
            Resolved::Inline(DefaultExpr::Plain(s("1"))),
            Resolved::ConstRef(s("DEFAULT_1")),
            Resolved::FnCall(s("default_2")),
        ]
    );
    assert_eq!(
        frag.consts,
        vec![ConstDecl { name: s("DEFAULT_1"), ty: s("i32"), value: DefaultExpr::Plain(s("2")) }]
    );
    assert_eq!(
        frag.funcs,
        vec![FnDecl { name: s("default_2"), ty: s("i32"), body: FnBody::Inline(DefaultExpr::Plain(s("3"))) }]
    );
}

fn variant(name: &str, payload: VariantPayload, attrs: Vec<Attr>) -> VariantNode {
    VariantNode { ident: s(name), payload, attrs }
}

#[test]
fn enum_test() {
    let d = decl(
        "SimpleEnum",
        vec![],
        TypeBody::Enum(vec![
            variant("One", VariantPayload::Unit, vec![bare_default_attr()]),
            variant("Two", VariantPayload::Unit, vec![]),
        ]),
    );
    let frag = expand(&d).unwrap();
    assert!(matches!(
        &frag.body,
        DefaultBody::Single(Resolved::Inline(DefaultExpr::SelfVariant(v))) if v == "One"
    ));
}

#[test]
fn generic_enum_test() {
    let d = decl(
        "GenericEnum",
        vec!["T"],
        TypeBody::Enum(vec![
            variant("None", VariantPayload::Unit, vec![bare_default_attr()]),
            variant("Some", VariantPayload::Tuple(vec![pos_field("T", vec![])]), vec![]),
        ]),
    );
    let frag = expand(&d).unwrap();
    assert_eq!(frag.generics, vec![s("T")]);
    assert!(matches!(
        &frag.body,
        DefaultBody::Single(Resolved::Inline(DefaultExpr::SelfVariant(v))) if v == "None"
    ));
}

#[test]
fn named_enum_test() {
    let d = decl(
        "NamedStructEnum",
        vec![],
        TypeBody::Enum(vec![
            variant("None", VariantPayload::Unit, vec![]),
            variant(
                "Point2D",
                VariantPayload::Named(vec![named_field("x", "i32", vec![]), named_field("y", "i32", vec![])]),
                vec![default_attr(vec![mi("value", Some(Expr::Other(s("Self::Point2D{x:1,y:2}"))))])],
            ),
        ]),
    );
    let frag = expand(&d).unwrap();
    assert!(matches!(
        &frag.body,
        DefaultBody::Single(Resolved::Inline(DefaultExpr::Plain(v))) if v == "Self::Point2D{x:1,y:2}"
    ));
}

#[test]
fn unnamed_enum_test() {
    let d = decl(
        "UnamedStructEnum",
        vec![],
        TypeBody::Enum(vec![
            variant("None", VariantPayload::Unit, vec![]),
            variant(
                "Point2D",
                VariantPayload::Tuple(vec![pos_field("i32", vec![]), pos_field("i32", vec![])]),
                vec![default_attr(vec![mi("value", Some(Expr::Other(s("Self::Point2D(1,2)"))))])],
            ),
        ]),
    );
    let frag = expand(&d).unwrap();
    assert!(matches!(
        &frag.body,
        DefaultBody::Single(Resolved::Inline(DefaultExpr::Plain(v))) if v == "Self::Point2D(1,2)"
    ));
}

#[test]
fn unannotated_named_struct_test() {
    let d = decl(
        "Plain",
        vec![],
        TypeBody::NamedStruct(vec![
            named_field("a", "u8", vec![]),
            named_field("b", "String", vec![]),
            named_field("c", "Vec<u32>", vec![]),
        ]),
    );
    let frag = expand(&d).unwrap();
    assert!(frag.consts.is_empty());
    assert!(frag.funcs.is_empty());
    let inits = match &frag.body {
        DefaultBody::Named(inits) => inits,
        other => panic!("expected a named constructor body, got {:?}", other),
    };
    assert_eq!(inits.len(), 3);
    for init in inits {
        assert_eq!(init.value, Resolved::Inline(DefaultExpr::ZeroValue));
    }
}

#[test]
fn single_source_scenario_test() {
    // a record with x defaulted to 1, y to 2 with a synthesized constant,
    // z to 3 with a synthesized function
    let d = decl(
        "P",
        vec![],
        TypeBody::NamedStruct(vec![
            named_field("x", "i32", vec![default_attr(vec![mi("value", Some(Expr::Other(s("1"))))])]),
            named_field(
                "y",
                "i32",
                vec![default_attr(vec![mi("value", Some(Expr::Other(s("2")))), mi("constant", None)])],
            ),
            named_field(
                "z",
                "i32",
                vec![default_attr(vec![mi("value", Some(Expr::Other(s("3")))), mi("function", None)])],
            ),
        ]),
    );
    let frag = expand(&d).unwrap();
    assert_eq!(
        frag.consts,
        vec![ConstDecl { name: s("DEFAULT_Y"), ty: s("i32"), value: DefaultExpr::Plain(s("2")) }]
    );
    assert_eq!(
        frag.funcs,
        vec![FnDecl { name: s("default_z"), ty: s("i32"), body: FnBody::Inline(DefaultExpr::Plain(s("3"))) }]
    );
    let inits = match &frag.body {
        DefaultBody::Named(inits) => inits,
        other => panic!("expected a named constructor body, got {:?}", other),
    };
    assert_eq!(inits[0].value, Resolved::Inline(DefaultExpr::Plain(s("1"))));
    assert_eq!(inits[1].value, Resolved::ConstRef(s("DEFAULT_Y")));
    assert_eq!(inits[2].value, Resolved::FnCall(s("default_z")));
}

#[test]
fn byte_string_literal_test() {
    let d = decl(
        "Raw",
        vec![],
        TypeBody::NamedStruct(vec![named_field(
            "data",
            "Vec<u8>",
            vec![default_attr(vec![mi("value", Some(Expr::ByteStrLit(s("abc"))))])],
        )]),
    );
    let frag = expand(&d).unwrap();
    let inits = match &frag.body {
        DefaultBody::Named(inits) => inits,
        other => panic!("expected a named constructor body, got {:?}", other),
    };
    assert_eq!(inits[0].value, Resolved::Inline(DefaultExpr::IntoByteStr(s("abc"))));
}

#[test]
fn regeneration_identical_test() {
    let d = point2d();
    let first: Result<DefaultFragment, _> = expand(&d);
    let second: Result<DefaultFragment, _> = expand(&d);
    assert_eq!(first, second);
    let e = point3d();
    assert_eq!(expand(&e), expand(&e));
}
