//! The single error form the analyzer returns — a source location and a
//! human-readable message — and the message tables for the rejected binding
//! patterns and type shapes. Keeping the messages in two total functions
//! keeps the allow-list auditable in one place.

use vstd::prelude::*;
use crate::ast::{PatKind, Span, TypeShapeKind};

verus! {

/// A rejected construct's source location and message.
#[derive(Debug, Clone, PartialEq)]
pub struct Diagnostic {
    pub span: Span,
    pub message: String,
}

/// The message for a malformed outer documentation attribute.
pub open spec fn msg_unrecognized_doc() -> Seq<char> {
    "unrecognized doc attribute"@
}

/// The message for a path type qualified by a self type.
pub open spec fn msg_qualified_path() -> Seq<char> {
    "support for <T as Trait>::Type is not implemented"@
}

/// The message for a path type with a leading path separator.
pub open spec fn msg_absolute_path() -> Seq<char> {
    "support for ::Type is not implemented"@
}

/// The message for a path type that is not a single bare identifier.
pub open spec fn msg_not_single_ident() -> Seq<char> {
    "only support for single basic types is implemented"@
}

/// The message rejecting a binding pattern, by its kind. The supported
/// identifier pattern maps to the empty message; it is never reported.
pub open spec fn pat_reject_msg(p: PatKind) -> Seq<char> {
    match p {
        PatKind::Ident(_) => ""@,
        PatKind::BoxPat => "support for box pattern `box T` is not implemented"@,
        PatKind::Lit => "support for literal pattern is not implemented"@,
        PatKind::MacroPat => "support for macro pattern is not implemented"@,
        PatKind::Or => "support for Or pattern is not implemented"@,
        PatKind::Path => "support for path pattern is not implemented"@,
        PatKind::Range => "support for range pattern is not implemented"@,
        PatKind::Reference => "support for reference pattern is not implemented"@,
        PatKind::Rest => "support for Rest pattern is not implemented"@,
        PatKind::Slice => "support for slice pattern is not implemented"@,
        PatKind::Struct => "support for struct pattern is not implemented"@,
        PatKind::Tuple => "support for tuple pattern is not implemented"@,
        PatKind::TupleStruct => "support for tuple struct pattern is not implemented"@,
        PatKind::TypeAscription => "support for type pattern is not implemented"@,
        PatKind::Verbatim => "support for arbitrary token stream is not implemented"@,
        PatKind::Wild => "support for wild-token pattern is not implemented"@,
        PatKind::Unknown => "support for unknown pattern is not implemented"@,
    }
}

/// The message rejecting a type shape, by its kind. The path shape maps to
/// the empty message: a path type is rejected, if at all, by the three
/// path-specific messages above.
pub open spec fn type_reject_msg(k: TypeShapeKind) -> Seq<char> {
    match k {
        TypeShapeKind::Array => "support for arrays `[T; n]` is not implemented"@,
        TypeShapeKind::BareFn => "support for bare functions `fn() -> Type` is not implemented"@,
        TypeShapeKind::Group => "support for Groups is not implemented"@,
        TypeShapeKind::ImplTrait => "support for impl trait `impl Bound1 + Bound2` is not implemented"@,
        TypeShapeKind::Infer => "support for inferred type `_` is not implemented"@,
        TypeShapeKind::MacroType => "support for type macros `m!()` is not implemented"@,
        TypeShapeKind::Never => "support for never type `!` is not implemented"@,
        TypeShapeKind::Paren => "support for parenthesys type is not implemented"@,
        TypeShapeKind::Path => ""@,
        TypeShapeKind::Ptr => "support for pointer types `*const T` is not implemented"@,
        TypeShapeKind::Reference => "support for reference types `&'lt mut T` is not implemented"@,
        TypeShapeKind::Slice => "support for slice types `[T]` is not implemented"@,
        TypeShapeKind::TraitObject => "support for trait object types `Bound1 + Bound2` is not implemented"@,
        TypeShapeKind::Tuple => "support for tuple types `(T1, T2)` is not implemented"@,
        TypeShapeKind::Verbatim => "support for arbitrary token stream is not implemented"@,
        TypeShapeKind::Unknown => "support for unkown types is not implemented"@,
    }
}

/// The rejection message for a binding pattern, as a string slice.
pub fn pat_reject_message(p: &PatKind) -> (r: &'static str)
    ensures
        r@ == pat_reject_msg(*p),
{
    match p {
        PatKind::Ident(_) => "",
        PatKind::BoxPat => "support for box pattern `box T` is not implemented",
        PatKind::Lit => "support for literal pattern is not implemented",
        PatKind::MacroPat => "support for macro pattern is not implemented",
        PatKind::Or => "support for Or pattern is not implemented",
        PatKind::Path => "support for path pattern is not implemented",
        PatKind::Range => "support for range pattern is not implemented",
        PatKind::Reference => "support for reference pattern is not implemented",
        PatKind::Rest => "support for Rest pattern is not implemented",
        PatKind::Slice => "support for slice pattern is not implemented",
        PatKind::Struct => "support for struct pattern is not implemented",
        PatKind::Tuple => "support for tuple pattern is not implemented",
        PatKind::TupleStruct => "support for tuple struct pattern is not implemented",
        PatKind::TypeAscription => "support for type pattern is not implemented",
        PatKind::Verbatim => "support for arbitrary token stream is not implemented",
        PatKind::Wild => "support for wild-token pattern is not implemented",
        PatKind::Unknown => "support for unknown pattern is not implemented",
    }
}

/// The rejection message for a type shape, as a string slice.
pub fn type_reject_message(k: &TypeShapeKind) -> (r: &'static str)
    ensures
        r@ == type_reject_msg(*k),
{
    match k {
        TypeShapeKind::Array => "support for arrays `[T; n]` is not implemented",
        TypeShapeKind::BareFn => "support for bare functions `fn() -> Type` is not implemented",
        TypeShapeKind::Group => "support for Groups is not implemented",
        TypeShapeKind::ImplTrait => "support for impl trait `impl Bound1 + Bound2` is not implemented",
        TypeShapeKind::Infer => "support for inferred type `_` is not implemented",
        TypeShapeKind::MacroType => "support for type macros `m!()` is not implemented",
        TypeShapeKind::Never => "support for never type `!` is not implemented",
        TypeShapeKind::Paren => "support for parenthesys type is not implemented",
        TypeShapeKind::Path => "",
        TypeShapeKind::Ptr => "support for pointer types `*const T` is not implemented",
        TypeShapeKind::Reference => "support for reference types `&'lt mut T` is not implemented",
        TypeShapeKind::Slice => "support for slice types `[T]` is not implemented",
        TypeShapeKind::TraitObject => "support for trait object types `Bound1 + Bound2` is not implemented",
        TypeShapeKind::Tuple => "support for tuple types `(T1, T2)` is not implemented",
        TypeShapeKind::Verbatim => "support for arbitrary token stream is not implemented",
        TypeShapeKind::Unknown => "support for unkown types is not implemented",
    }
}

} // verus!
