//! Structural model of an annotated type declaration.
//!
//! The generators never read source text: an external parsing collaborator
//! hands them a [`TypeDecl`], the uniform description of one `struct`,
//! `enum` or `union` declaration together with the raw annotation lists
//! attached to its fields and variants.  Every type here carries a ghost
//! mirror (`...V`) over `Seq<char>`, which is what the contracts speak of.

use vstd::prelude::*;

verus! {

/// An expression carried by an annotation key, as the parser classified it.
///
/// String and byte-string literals are kept apart from every other
/// expression because the descriptor builder wraps them in a
/// literal-to-target-type conversion; any other expression is carried
/// verbatim as its source text.
#[derive(Debug, PartialEq, Eq)]
pub enum Expr {
    /// A quoted string literal; the `String` holds its content.
    StrLit(String),
    /// A byte-string literal; the `String` holds its content.
    ByteStrLit(String),
    /// Any other expression, as verbatim source text.
    Other(String),
}

/// Ghost mirror of [`Expr`].
#[verifier::ext_equal]
pub ghost enum ExprV {
    StrLit(Seq<char>),
    ByteStrLit(Seq<char>),
    Other(Seq<char>),
}

impl View for Expr {
    type V = ExprV;

    open spec fn view(&self) -> ExprV {
        match self {
            Expr::StrLit(s) => ExprV::StrLit(s@),
            Expr::ByteStrLit(s) => ExprV::ByteStrLit(s@),
            Expr::Other(s) => ExprV::Other(s@),
        }
    }
}

/// The views of a list of key/value items.
pub open spec fn view_metas(s: Seq<MetaItem>) -> Seq<MetaItemV> {
    s.map_values(|m: MetaItem| m@)
}

/// The views of a list of annotations.
pub open spec fn view_attrs(s: Seq<Attr>) -> Seq<AttrV> {
    s.map_values(|a: Attr| a@)
}

/// The views of a list of fields.
pub open spec fn view_fields(s: Seq<FieldNode>) -> Seq<FieldNodeV> {
    s.map_values(|f: FieldNode| f@)
}

/// The views of a list of variants.
pub open spec fn view_variants(s: Seq<VariantNode>) -> Seq<VariantNodeV> {
    s.map_values(|v: VariantNode| v@)
}

/// The views of a list of strings.
pub open spec fn view_strings(s: Seq<String>) -> Seq<Seq<char>> {
    s.map_values(|s: String| s@)
}

/// One `key` or `key = expr` item inside a recognized annotation's
/// parenthesized list.
#[derive(Debug, PartialEq, Eq)]
pub struct MetaItem {
    /// The key, e.g. `value`, `constant`, `function`.
    pub key: String,
    /// The expression after `=`, when one is present.
    pub value: Option<Expr>,
}

/// Ghost mirror of [`MetaItem`].
#[verifier::ext_equal]
pub ghost struct MetaItemV {
    pub key: Seq<char>,
    pub value: Option<ExprV>,
}

impl View for MetaItem {
    type V = MetaItemV;

    open spec fn view(&self) -> MetaItemV {
        MetaItemV {
            key: self.key@,
            value: match &self.value {
                Option::Some(e) => Option::Some(e@),
                Option::None => Option::None,
            },
        }
    }
}

/// One annotation attached to a field or variant.
#[derive(Debug, PartialEq, Eq)]
pub struct Attr {
    /// The annotation keyword, e.g. `default`.
    pub name: String,
    /// The source position the parser recorded for this annotation,
    /// carried into diagnostics.
    pub span: u64,
    /// `None` for a bare `#[name]`; `Some` for `#[name(...)]` with the
    /// parsed key/value items.
    pub args: Option<Vec<MetaItem>>,
}

/// Ghost mirror of [`Attr`].
#[verifier::ext_equal]
pub ghost struct AttrV {
    pub name: Seq<char>,
    pub span: u64,
    pub args: Option<Seq<MetaItemV>>,
}

impl View for Attr {
    type V = AttrV;

    open spec fn view(&self) -> AttrV {
        AttrV {
            name: self.name@,
            span: self.span,
            args: match &self.args {
                Option::Some(v) => Option::Some(view_metas(v@)),
                Option::None => Option::None,
            },
        }
    }
}

/// One member of a record, or one payload slot of a variant.
#[derive(Debug, PartialEq, Eq)]
pub struct FieldNode {
    /// The field's name; `None` for a positional field, which is
    /// identified by its zero-based index instead.
    pub ident: Option<String>,
    /// The declared type, as source text.
    pub ty: String,
    /// The raw annotation list attached to the field.
    pub attrs: Vec<Attr>,
}

/// Ghost mirror of [`FieldNode`].
#[verifier::ext_equal]
pub ghost struct FieldNodeV {
    pub ident: Option<Seq<char>>,
    pub ty: Seq<char>,
    pub attrs: Seq<AttrV>,
}

impl View for FieldNode {
    type V = FieldNodeV;

    open spec fn view(&self) -> FieldNodeV {
        FieldNodeV {
            ident: match &self.ident {
                Option::Some(s) => Option::Some(s@),
                Option::None => Option::None,
            },
            ty: self.ty@,
            attrs: view_attrs(self.attrs@),
        }
    }
}

/// The payload shape of one tagged-union variant.
#[derive(Debug, PartialEq, Eq)]
pub enum VariantPayload {
    /// A unit variant, no payload.
    Unit,
    /// A positional payload, `V(T, U)`.
    Tuple(Vec<FieldNode>),
    /// A named payload, `V { a: T }`.
    Named(Vec<FieldNode>),
}

/// Ghost mirror of [`VariantPayload`].
#[verifier::ext_equal]
pub ghost enum VariantPayloadV {
    Unit,
    Tuple(Seq<FieldNodeV>),
    Named(Seq<FieldNodeV>),
}

impl View for VariantPayload {
    type V = VariantPayloadV;

    open spec fn view(&self) -> VariantPayloadV {
        match self {
            VariantPayload::Unit => VariantPayloadV::Unit,
            VariantPayload::Tuple(fs) => VariantPayloadV::Tuple(view_fields(fs@)),
            VariantPayload::Named(fs) => VariantPayloadV::Named(view_fields(fs@)),
        }
    }
}

/// One arm of a tagged union.
#[derive(Debug, PartialEq, Eq)]
pub struct VariantNode {
    /// The variant's name.
    pub ident: String,
    /// The payload shape.
    pub payload: VariantPayload,
    /// The raw annotation list attached to the variant.
    pub attrs: Vec<Attr>,
}

/// Ghost mirror of [`VariantNode`].
#[verifier::ext_equal]
pub ghost struct VariantNodeV {
    pub ident: Seq<char>,
    pub payload: VariantPayloadV,
    pub attrs: Seq<AttrV>,
}

impl View for VariantNode {
    type V = VariantNodeV;

    open spec fn view(&self) -> VariantNodeV {
        VariantNodeV {
            ident: self.ident@,
            payload: self.payload@,
            attrs: view_attrs(self.attrs@),
        }
    }
}

/// The structural category of a declaration.
#[derive(Debug, PartialEq, Eq)]
pub enum TypeBody {
    /// A record with named fields.
    NamedStruct(Vec<FieldNode>),
    /// A record with positional fields.
    TupleStruct(Vec<FieldNode>),
    /// A record with no field list at all, `struct S;`.
    UnitStruct,
    /// A tagged union.
    Enum(Vec<VariantNode>),
    /// An untagged union; never derivable.
    Union,
}

/// Ghost mirror of [`TypeBody`].
#[verifier::ext_equal]
pub ghost enum TypeBodyV {
    NamedStruct(Seq<FieldNodeV>),
    TupleStruct(Seq<FieldNodeV>),
    UnitStruct,
    Enum(Seq<VariantNodeV>),
    Union,
}

impl View for TypeBody {
    type V = TypeBodyV;

    open spec fn view(&self) -> TypeBodyV {
        match self {
            TypeBody::NamedStruct(fs) => TypeBodyV::NamedStruct(view_fields(fs@)),
            TypeBody::TupleStruct(fs) => TypeBodyV::TupleStruct(view_fields(fs@)),
            TypeBody::UnitStruct => TypeBodyV::UnitStruct,
            TypeBody::Enum(vs) => TypeBodyV::Enum(view_variants(vs@)),
            TypeBody::Union => TypeBodyV::Union,
        }
    }
}

/// The structural description of one annotated type declaration.
#[derive(Debug, PartialEq, Eq)]
pub struct TypeDecl {
    /// The declared name.
    pub ident: String,
    /// The source position of the declaration, carried into diagnostics
    /// that concern the declaration as a whole.
    pub span: u64,
    /// The declared generic parameters, as source text, in order.
    pub generics: Vec<String>,
    /// The fields or variants.
    pub body: TypeBody,
}

/// Ghost mirror of [`TypeDecl`].
#[verifier::ext_equal]
pub ghost struct TypeDeclV {
    pub ident: Seq<char>,
    pub span: u64,
    pub generics: Seq<Seq<char>>,
    pub body: TypeBodyV,
}

impl View for TypeDecl {
    type V = TypeDeclV;

    open spec fn view(&self) -> TypeDeclV {
        TypeDeclV {
            ident: self.ident@,
            span: self.span,
            generics: view_strings(self.generics@),
            body: self.body@,
        }
    }
}

/// Every field of a named-field list carries a name; every field of a
/// positional list carries none.  The external parser guarantees this of
/// the declarations it hands over; the generators require it.
pub open spec fn fields_named(fs: Seq<FieldNodeV>) -> bool {
    forall|i: int| 0 <= i < fs.len() ==> (#[trigger] fs[i].ident) is Some
}

/// See [`fields_named`].
pub open spec fn fields_positional(fs: Seq<FieldNodeV>) -> bool {
    forall|i: int| 0 <= i < fs.len() ==> (#[trigger] fs[i].ident) is None
}

impl TypeDeclV {
    /// Shape consistency that the external parser guarantees: named-field
    /// lists carry names, positional lists do not, and the same holds
    /// inside every variant payload.
    pub open spec fn wf(self) -> bool {
        match self.body {
            TypeBodyV::NamedStruct(fs) => fields_named(fs),
            TypeBodyV::TupleStruct(fs) => fields_positional(fs),
            TypeBodyV::UnitStruct => true,
            TypeBodyV::Enum(vs) => forall|i: int|
                0 <= i < vs.len() ==> ((#[trigger] vs[i].payload) matches VariantPayloadV::Named(fs)
                    ==> fields_named(fs)),
            TypeBodyV::Union => true,
        }
    }
}

/// What went wrong, for a fatal generator-time condition.
#[derive(Clone, Copy, Debug, PartialEq, Eq, Structural)]
pub enum DiagKind {
    /// The same recognized annotation keyword appears more than once on
    /// one field or variant.
    DuplicateAnnotation,
    /// An untagged union can never derive a constructor.
    UnionNotSupported,
    /// A record with no field list has nothing to construct from.
    UnitStructNotSupported,
    /// The defaulting path over a tagged union found no designated
    /// default variant.
    NoDefaultVariant,
    /// The defaulting path over a tagged union found more than one
    /// designated default variant.
    MultipleDefaultVariants,
    /// The operator path applies to records and tagged unions only.
    OperatorShapeNotSupported,
}

/// A fatal generator-time diagnostic: the kind of failure and the source
/// position it is reported at.
#[derive(Clone, Copy, Debug, PartialEq, Eq, Structural)]
pub struct Diag {
    pub kind: DiagKind,
    pub span: u64,
}

impl Diag {
    /// The human-readable message for this diagnostic.
    pub fn message(&self) -> (r: &'static str)
        ensures
            self.kind == DiagKind::DuplicateAnnotation ==> r@ =~= "Attribute 'default' should be defined only once per field"@,
            self.kind == DiagKind::UnionNotSupported ==> r@ =~= "Can't derive a Default for a Union"@,
            self.kind == DiagKind::UnitStructNotSupported ==> r@ =~= "Only named structs can derive a Default"@,
            self.kind == DiagKind::NoDefaultVariant ==> r@ =~= "Enums must define a variant as a Default"@,
            self.kind == DiagKind::MultipleDefaultVariants ==> r@ =~= "Only one variant can be marked as the Default"@,
            self.kind == DiagKind::OperatorShapeNotSupported ==> r@ =~= "Only structs and enums can derive an operator"@,
    {
        match self.kind {
            DiagKind::DuplicateAnnotation => "Attribute 'default' should be defined only once per field",
            DiagKind::UnionNotSupported => "Can't derive a Default for a Union",
            DiagKind::UnitStructNotSupported => "Only named structs can derive a Default",
            DiagKind::NoDefaultVariant => "Enums must define a variant as a Default",
            DiagKind::MultipleDefaultVariants => "Only one variant can be marked as the Default",
            DiagKind::OperatorShapeNotSupported => "Only structs and enums can derive an operator",
        }
    }
}

} // verus!
