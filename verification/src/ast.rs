//! Plain-value model of one trait method's abstract syntax, together with the
//! enclosing trait's generic context. The embedding driver builds these values
//! from its own syntax tree; the analyzer and emitter read nothing else.

use vstd::prelude::*;

verus! {

/// An opaque handle to a source location. The embedding driver hands one out
/// per syntactic construct and maps it back to a real span when it turns a
/// [`crate::diagnostic::Diagnostic`] into a compiler error.
#[derive(Clone, Copy, PartialEq, Eq, Structural, Debug)]
pub struct Span {
    pub id: u64,
}

/// The parsed form of one attribute's meta item: either a `name = "value"`
/// pair (the value a string literal) or anything else.
#[derive(Debug, Clone, PartialEq)]
pub enum MetaShape {
    NameValue(String),
    Other,
}

/// One outer or inner attribute on the method.
#[derive(Debug, Clone, PartialEq)]
pub struct Attribute {
    /// Whether the attribute is an outer attribute (`#[...]`, not `#![...]`).
    pub outer: bool,
    /// Whether the attribute's path is the documentation path `doc`.
    pub is_doc: bool,
    pub meta: MetaShape,
    pub span: Span,
}

/// The three kinds of generic parameter a trait or method can declare.
#[derive(Clone, Copy, PartialEq, Eq, Structural, Debug)]
pub enum GenericKind {
    Lifetime,
    Type,
    Const,
}

/// One generic parameter declaration: its kind, its declared identifier, and
/// the full declaration text with bounds (for example `T: Clone`).
#[derive(Debug, Clone, PartialEq)]
pub struct GenericParam {
    pub kind: GenericKind,
    pub ident: String,
    pub decl: String,
}

/// The receiver kind: `self`, `&self`, or `&mut self`.
#[derive(Clone, Copy, PartialEq, Eq, Structural, Debug)]
pub enum Receiver {
    ByValue,
    ByRef,
    ByRefMut,
}

/// The binding pattern of one non-receiver parameter. Only a bare identifier
/// is supported; every other variant names a pattern shape the analyzer
/// rejects with a diagnostic.
#[derive(Debug, Clone, PartialEq)]
pub enum PatKind {
    Ident(String),
    BoxPat,
    Lit,
    MacroPat,
    Or,
    Path,
    Range,
    Reference,
    Rest,
    Slice,
    Struct,
    Tuple,
    TupleStruct,
    TypeAscription,
    Verbatim,
    Wild,
    Unknown,
}

/// The shape of a declared argument type. Only `Path` can be accepted, and
/// only when it is a bare single-identifier path; every other variant is a
/// type shape the analyzer rejects with a diagnostic.
#[derive(Clone, Copy, PartialEq, Eq, Structural, Debug)]
pub enum TypeShapeKind {
    Array,
    BareFn,
    Group,
    ImplTrait,
    Infer,
    MacroType,
    Never,
    Paren,
    Path,
    Ptr,
    Reference,
    Slice,
    TraitObject,
    Tuple,
    Verbatim,
    Unknown,
}

/// One declared argument type: its shape, the path details the classifier
/// needs when the shape is `Path`, its rendered text (spliced verbatim into
/// the generated arguments struct), and its source span.
#[derive(Debug, Clone, PartialEq)]
pub struct ArgType {
    pub kind: TypeShapeKind,
    /// Whether a path type carries a qualifying self type (`<T as Trait>::A`).
    pub qself: bool,
    /// Whether a path type starts with a leading path separator (`::T`).
    pub leading_colon: bool,
    /// The path's identifier when it is a single bare identifier, else `None`.
    pub path_ident: Option<String>,
    /// The type as written in the source.
    pub text: String,
    pub span: Span,
}

impl ArgType {
    /// An element-for-element copy, equal to the original.
    pub fn duplicate(&self) -> (r: ArgType)
        ensures
            r == *self,
    {
        let path_ident = match &self.path_ident {
            Some(s) => Some(s.clone()),
            None => None,
        };
        ArgType {
            kind: self.kind,
            qself: self.qself,
            leading_colon: self.leading_colon,
            path_ident,
            text: self.text.clone(),
            span: self.span,
        }
    }
}

/// One formal parameter of the method: the receiver, or a pattern bound to a
/// declared type.
#[derive(Debug, Clone, PartialEq)]
pub enum FnArg {
    Receiver { kind: Receiver },
    Typed { pat: PatKind, pat_span: Span, ty: ArgType },
}

/// One trait method declaration, as the analyzer consumes it.
#[derive(Debug, Clone, PartialEq)]
pub struct MethodAst {
    /// The method's name; the generated module is named after it.
    pub name: String,
    pub attrs: Vec<Attribute>,
    /// The method's own generic parameters, in declaration order.
    pub generics: Vec<GenericParam>,
    /// The formal parameter list, in declaration order.
    pub inputs: Vec<FnArg>,
    /// The method's where-clause predicates, rendered, in source order.
    pub where_predicates: Vec<String>,
}

} // verus!
