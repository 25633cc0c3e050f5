//! The structured code fragments the generators emit.
//!
//! A fragment is the shape of one trait implementation: for the
//! defaulting generator, the secondary constant and function
//! declarations and the constructor body; for the operator generator,
//! the element-wise combine body.  An unverified rendering layer turns a
//! fragment into tokens; the fragment itself carries everything that
//! layer needs, already resolved.

use vstd::prelude::*;
use crate::descriptor::{DefaultExpr, DefaultExprV, FieldDescriptorV};

verus! {

/// How the constructor body refers to one field's default value:
/// through the secondary constant, through the secondary function, or
/// as the value inlined at the point of use.  When several are
/// available the constant is preferred over the function over the
/// inline value.
#[derive(Debug, PartialEq, Eq)]
pub enum Resolved {
    /// `Self::NAME`, a reference to the secondary constant.
    ConstRef(String),
    /// `Self::name()`, a call of the secondary function.
    FnCall(String),
    /// The value itself, inlined.
    Inline(DefaultExpr),
}

/// Ghost mirror of [`Resolved`].
#[verifier::ext_equal]
pub ghost enum ResolvedV {
    ConstRef(Seq<char>),
    FnCall(Seq<char>),
    Inline(DefaultExprV),
}

impl View for Resolved {
    type V = ResolvedV;

    open spec fn view(&self) -> ResolvedV {
        match self {
            Resolved::ConstRef(s) => ResolvedV::ConstRef(s@),
            Resolved::FnCall(s) => ResolvedV::FnCall(s@),
            Resolved::Inline(e) => ResolvedV::Inline(e@),
        }
    }
}

/// One emitted public constant, `pub const NAME: TY = VALUE;`.
#[derive(Debug, PartialEq, Eq)]
pub struct ConstDecl {
    pub name: String,
    pub ty: String,
    pub value: DefaultExpr,
}

/// Ghost mirror of [`ConstDecl`].
#[verifier::ext_equal]
pub ghost struct ConstDeclV {
    pub name: Seq<char>,
    pub ty: Seq<char>,
    pub value: DefaultExprV,
}

impl View for ConstDecl {
    type V = ConstDeclV;

    open spec fn view(&self) -> ConstDeclV {
        ConstDeclV { name: self.name@, ty: self.ty@, value: self.value@ }
    }
}

/// The body of an emitted zero-argument function: a reference to the
/// secondary constant when one exists — the single source of truth —
/// else the value itself.
#[derive(Debug, PartialEq, Eq)]
pub enum FnBody {
    /// `Self::NAME`.
    ConstRef(String),
    /// The value itself.
    Inline(DefaultExpr),
}

/// Ghost mirror of [`FnBody`].
#[verifier::ext_equal]
pub ghost enum FnBodyV {
    ConstRef(Seq<char>),
    Inline(DefaultExprV),
}

impl View for FnBody {
    type V = FnBodyV;

    open spec fn view(&self) -> FnBodyV {
        match self {
            FnBody::ConstRef(s) => FnBodyV::ConstRef(s@),
            FnBody::Inline(e) => FnBodyV::Inline(e@),
        }
    }
}

/// One emitted public zero-argument function, `pub fn name() -> TY`.
#[derive(Debug, PartialEq, Eq)]
pub struct FnDecl {
    pub name: String,
    pub ty: String,
    pub body: FnBody,
}

/// Ghost mirror of [`FnDecl`].
#[verifier::ext_equal]
pub ghost struct FnDeclV {
    pub name: Seq<char>,
    pub ty: Seq<char>,
    pub body: FnBodyV,
}

impl View for FnDecl {
    type V = FnDeclV;

    open spec fn view(&self) -> FnDeclV {
        FnDeclV { name: self.name@, ty: self.ty@, body: self.body@ }
    }
}

/// One `field: value` initializer of a named-record constructor body.
#[derive(Debug, PartialEq, Eq)]
pub struct NamedInit {
    pub field: String,
    pub value: Resolved,
}

/// Ghost mirror of [`NamedInit`].
#[verifier::ext_equal]
pub ghost struct NamedInitV {
    pub field: Seq<char>,
    pub value: ResolvedV,
}

impl View for NamedInit {
    type V = NamedInitV;

    open spec fn view(&self) -> NamedInitV {
        NamedInitV { field: self.field@, value: self.value@ }
    }
}

/// The constructor body, one of the three emitted shapes.
#[derive(Debug, PartialEq, Eq)]
pub enum DefaultBody {
    /// `Self { field: value, ... }`, every declared field in source
    /// order.
    Named(Vec<NamedInit>),
    /// `Self(value, ...)`, in source order.
    Tuple(Vec<Resolved>),
    /// A single expression: the designated default variant's value.
    Single(Resolved),
}

/// Ghost mirror of [`DefaultBody`].
#[verifier::ext_equal]
pub ghost enum DefaultBodyV {
    Named(Seq<NamedInitV>),
    Tuple(Seq<ResolvedV>),
    Single(ResolvedV),
}

/// The views of a list of named initializers.
pub open spec fn view_named_inits(s: Seq<NamedInit>) -> Seq<NamedInitV> {
    s.map_values(|n: NamedInit| n@)
}

/// The views of a list of resolved values.
pub open spec fn view_resolveds(s: Seq<Resolved>) -> Seq<ResolvedV> {
    s.map_values(|r: Resolved| r@)
}

/// The views of a list of constant declarations.
pub open spec fn view_consts(s: Seq<ConstDecl>) -> Seq<ConstDeclV> {
    s.map_values(|c: ConstDecl| c@)
}

/// The views of a list of function declarations.
pub open spec fn view_funcs(s: Seq<FnDecl>) -> Seq<FnDeclV> {
    s.map_values(|f: FnDecl| f@)
}

impl View for DefaultBody {
    type V = DefaultBodyV;

    open spec fn view(&self) -> DefaultBodyV {
        match self {
            DefaultBody::Named(ns) => DefaultBodyV::Named(view_named_inits(ns@)),
            DefaultBody::Tuple(rs) => DefaultBodyV::Tuple(view_resolveds(rs@)),
            DefaultBody::Single(r) => DefaultBodyV::Single(r@),
        }
    }
}

/// Everything the defaulting generator emits for one declaration: the
/// implementation header data, the secondary declarations, and the
/// constructor body.
#[derive(Debug, PartialEq, Eq)]
pub struct DefaultFragment {
    /// The deriving type's name.
    pub type_ident: String,
    /// Its generic parameters, carried through to the emitted
    /// implementation headers.
    pub generics: Vec<String>,
    /// The emitted public constants, one per descriptor that requested
    /// one, in source order.
    pub consts: Vec<ConstDecl>,
    /// The emitted public functions, likewise.
    pub funcs: Vec<FnDecl>,
    /// The constructor body.
    pub body: DefaultBody,
}

/// Ghost mirror of [`DefaultFragment`].
#[verifier::ext_equal]
pub ghost struct DefaultFragmentV {
    pub type_ident: Seq<char>,
    pub generics: Seq<Seq<char>>,
    pub consts: Seq<ConstDeclV>,
    pub funcs: Seq<FnDeclV>,
    pub body: DefaultBodyV,
}

impl View for DefaultFragment {
    type V = DefaultFragmentV;

    open spec fn view(&self) -> DefaultFragmentV {
        DefaultFragmentV {
            type_ident: self.type_ident@,
            generics: crate::model::view_strings(self.generics@),
            consts: view_consts(self.consts@),
            funcs: view_funcs(self.funcs@),
            body: self.body@,
        }
    }
}

/// How the constructor body refers to one descriptor's value: the
/// constant over the function over the inline value.
pub open spec fn spec_resolve(d: FieldDescriptorV) -> ResolvedV {
    match d.constant {
        Option::Some(c) => ResolvedV::ConstRef(c),
        Option::None => match d.function {
            Option::Some(f) => ResolvedV::FnCall(f),
            Option::None => ResolvedV::Inline(d.value),
        },
    }
}

/// One arm of an emitted operator-combine match over two tagged-union
/// operands.
#[derive(Debug, PartialEq, Eq)]
pub enum OperArm {
    /// Two identical positional variants, combined slot by slot.
    TupleArm { variant: String, arity: usize },
    /// Two identical named variants, combined field by field.
    NamedArm { variant: String, fields: Vec<String> },
    /// Two instances of a payload-less variant: reported at call time
    /// as a cannot-combine error result.
    UnitArm { variant: String },
}

/// Ghost mirror of [`OperArm`].
#[verifier::ext_equal]
pub ghost enum OperArmV {
    TupleArm { variant: Seq<char>, arity: nat },
    NamedArm { variant: Seq<char>, fields: Seq<Seq<char>> },
    UnitArm { variant: Seq<char> },
}

impl View for OperArm {
    type V = OperArmV;

    open spec fn view(&self) -> OperArmV {
        match self {
            OperArm::TupleArm { variant, arity } => OperArmV::TupleArm {
                variant: variant@,
                arity: *arity as nat,
            },
            OperArm::NamedArm { variant, fields } => OperArmV::NamedArm {
                variant: variant@,
                fields: crate::model::view_strings(fields@),
            },
            OperArm::UnitArm { variant } => OperArmV::UnitArm { variant: variant@ },
        }
    }
}

/// The views of a list of operator match arms.
pub open spec fn view_arms(s: Seq<OperArm>) -> Seq<OperArmV> {
    s.map_values(|a: OperArm| a@)
}

/// The emitted operator-method body, one of the three shapes.
#[derive(Debug, PartialEq, Eq)]
pub enum OperBody {
    /// `Self(self.0.op(rhs.0), ...)`: one combine per slot, in
    /// positional order.
    TupleCombine { arity: usize },
    /// `Self { f: self.f.op(rhs.f), ... }`: one combine per field, in
    /// source order.
    NamedCombine { fields: Vec<String> },
    /// A pairwise match over the two operands, one arm per variant, and
    /// — when more than one variant exists — a catch-all arm that
    /// reports mismatched variants at call time.
    EnumMatch { arms: Vec<OperArm>, catch_all: bool },
}

/// Ghost mirror of [`OperBody`].
#[verifier::ext_equal]
pub ghost enum OperBodyV {
    TupleCombine { arity: nat },
    NamedCombine { fields: Seq<Seq<char>> },
    EnumMatch { arms: Seq<OperArmV>, catch_all: bool },
}

impl View for OperBody {
    type V = OperBodyV;

    open spec fn view(&self) -> OperBodyV {
        match self {
            OperBody::TupleCombine { arity } => OperBodyV::TupleCombine { arity: *arity as nat },
            OperBody::NamedCombine { fields } => OperBodyV::NamedCombine {
                fields: crate::model::view_strings(fields@),
            },
            OperBody::EnumMatch { arms, catch_all } => OperBodyV::EnumMatch {
                arms: view_arms(arms@),
                catch_all: *catch_all,
            },
        }
    }
}

/// Everything the operator generator emits for one declaration.
#[derive(Debug, PartialEq, Eq)]
pub struct OperFragment {
    /// The derived trait's name, e.g. `Add`.
    pub trait_ident: String,
    /// The trait method's name: the trait's name folded to lower case.
    pub method_ident: String,
    /// The deriving type's name.
    pub type_ident: String,
    /// Whether the method's output is wrapped in a result carrying a
    /// call-time error message: true exactly for tagged unions.
    pub wraps_result: bool,
    /// The method body.
    pub body: OperBody,
}

/// Ghost mirror of [`OperFragment`].
#[verifier::ext_equal]
pub ghost struct OperFragmentV {
    pub trait_ident: Seq<char>,
    pub method_ident: Seq<char>,
    pub type_ident: Seq<char>,
    pub wraps_result: bool,
    pub body: OperBodyV,
}

impl View for OperFragment {
    type V = OperFragmentV;

    open spec fn view(&self) -> OperFragmentV {
        OperFragmentV {
            trait_ident: self.trait_ident@,
            method_ident: self.method_ident@,
            type_ident: self.type_ident@,
            wraps_result: self.wraps_result,
            body: self.body@,
        }
    }
}

} // verus!
