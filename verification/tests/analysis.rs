//! Tests of the signature analyzer: documentation extraction, generic
//! partition, receiver and argument collection, and the argument type
//! allow-list with its classification.

use called_in_gen::ast::{
    ArgType, Attribute, FnArg, GenericKind, GenericParam, MetaShape, MethodAst, PatKind, Receiver,
    Span, TypeShapeKind,
};
use called_in_gen::info_extractor::{TraitContext, TraitItemMethodInfo};

fn s(x: &str) -> String {
    x.to_string()
}

fn ty_path(name: &str, id: u64) -> ArgType {
    ArgType {
        kind: TypeShapeKind::Path,
        qself: false,
        leading_colon: false,
        path_ident: Some(s(name)),
        text: s(name),
        span: Span { id },
    }
}

fn ty_shape(kind: TypeShapeKind, id: u64) -> ArgType {
    ArgType {
        kind,
        qself: false,
        leading_colon: false,
        path_ident: None,
        text: String::new(),
        span: Span { id },
    }
}

fn arg(name: &str, ty: ArgType) -> FnArg {
    FnArg::Typed { pat: PatKind::Ident(s(name)), pat_span: Span { id: 900 }, ty }
}

fn method(name: &str, inputs: Vec<FnArg>) -> MethodAst {
    MethodAst {
        name: s(name),
        attrs: vec![],
        generics: vec![],
        inputs,
        where_predicates: vec![],
    }
}

fn doc_attr(value: &str) -> Attribute {
    Attribute {
        outer: true,
        is_doc: true,
        meta: MetaShape::NameValue(s(value)),
        span: Span { id: 800 },
    }
}

#[test]
fn transfer_method_analyzed() {
    let m = method(
        "transfer",
        vec![
            FnArg::Receiver { kind: Receiver::ByRef },
            arg("to", ty_path("AccountId", 1)),
            arg("amount", ty_path("u64", 2)),
        ],
    );
    let info = TraitItemMethodInfo::new(&m, &TraitContext::empty()).unwrap();
    assert_eq!(info.name, "transfer");
    assert_eq!(info.receiver, Some(Receiver::ByRef));
    assert_eq!(info.args.entries.len(), 2);
    assert_eq!(info.args.entries[0].key, "to");
    assert_eq!(info.args.entries[0].ty.text, "AccountId");
    assert_eq!(info.args.entries[1].key, "amount");
    assert_eq!(info.args.entries[1].ty.text, "u64");
    assert!(info.generic_lifetimes.entries.is_empty());
    assert!(info.generic_types.entries.is_empty());
    assert!(info.generic_consts.entries.is_empty());
    assert!(info.args_sets.trait_generic_types.items.is_empty());
    assert!(info.args_sets.method_generic_types.items.is_empty());
}

#[test]
fn zero_argument_method_valid() {
    let m = method("ping", vec![]);
    let info = TraitItemMethodInfo::new(&m, &TraitContext::empty()).unwrap();
    assert_eq!(info.receiver, None);
    assert!(info.args.entries.is_empty());
}

#[test]
fn receiver_only_method_valid() {
    let m = method("poke", vec![FnArg::Receiver { kind: Receiver::ByRefMut }]);
    let info = TraitItemMethodInfo::new(&m, &TraitContext::empty()).unwrap();
    assert_eq!(info.receiver, Some(Receiver::ByRefMut));
    assert!(info.args.entries.is_empty());
}

#[test]
fn docs_collected_in_order() {
    let mut m = method("documented", vec![]);
    m.attrs = vec![
        doc_attr("first line"),
        Attribute {
            outer: true,
            is_doc: false,
            meta: MetaShape::Other,
            span: Span { id: 801 },
        },
        Attribute {
            outer: false,
            is_doc: true,
            meta: MetaShape::Other,
            span: Span { id: 802 },
        },
        doc_attr("second line"),
    ];
    let info = TraitItemMethodInfo::new(&m, &TraitContext::empty()).unwrap();
    assert_eq!(info.docs, vec![s("first line"), s("second line")]);
}

#[test]
fn malformed_doc_attribute_rejected() {
    let mut m = method("documented", vec![]);
    m.attrs = vec![
        doc_attr("fine"),
        Attribute {
            outer: true,
            is_doc: true,
            meta: MetaShape::Other,
            span: Span { id: 42 },
        },
    ];
    let d = TraitItemMethodInfo::new(&m, &TraitContext::empty()).unwrap_err();
    assert_eq!(d.message, "unrecognized doc attribute");
    assert_eq!(d.span.id, 42);
}

#[test]
fn generics_partitioned_by_kind() {
    let mut m = method("generic", vec![]);
    m.generics = vec![
        GenericParam { kind: GenericKind::Lifetime, ident: s("a"), decl: s("'a") },
        GenericParam { kind: GenericKind::Type, ident: s("T"), decl: s("T: Clone") },
        GenericParam { kind: GenericKind::Const, ident: s("N"), decl: s("const N: usize") },
        GenericParam { kind: GenericKind::Type, ident: s("U"), decl: s("U") },
    ];
    let info = TraitItemMethodInfo::new(&m, &TraitContext::empty()).unwrap();
    assert_eq!(info.generic_lifetimes.entries.len(), 1);
    assert_eq!(info.generic_lifetimes.entries[0].key, "a");
    assert_eq!(info.generic_types.entries.len(), 2);
    assert_eq!(info.generic_types.entries[0].key, "T");
    assert_eq!(info.generic_types.entries[0].decl, "T: Clone");
    assert_eq!(info.generic_types.entries[1].key, "U");
    assert_eq!(info.generic_consts.entries.len(), 1);
    assert_eq!(info.generic_consts.entries[0].decl, "const N: usize");
}

#[test]
fn method_generic_key_classified() {
    let mut m = method(
        "get",
        vec![FnArg::Receiver { kind: Receiver::ByRef }, arg("key", ty_path("T", 5))],
    );
    m.generics = vec![GenericParam { kind: GenericKind::Type, ident: s("T"), decl: s("T: Clone") }];
    let info = TraitItemMethodInfo::new(&m, &TraitContext::empty()).unwrap();
    assert_eq!(info.args_sets.method_generic_types.items, vec![s("T")]);
    assert!(info.args_sets.trait_generic_types.items.is_empty());
}

#[test]
fn trait_generic_argument_classified() {
    let trait_ctx = TraitContext::new(
        &vec![GenericParam { kind: GenericKind::Type, ident: s("K"), decl: s("K") }],
        &vec![],
    );
    let m = method(
        "lookup",
        vec![FnArg::Receiver { kind: Receiver::ByRef }, arg("key", ty_path("K", 6))],
    );
    let info = TraitItemMethodInfo::new(&m, &trait_ctx).unwrap();
    assert_eq!(info.args_sets.trait_generic_types.items, vec![s("K")]);
    assert!(info.args_sets.method_generic_types.items.is_empty());
}

#[test]
fn trait_scope_shadows_method_scope() {
    let trait_ctx = TraitContext::new(
        &vec![GenericParam { kind: GenericKind::Type, ident: s("T"), decl: s("T") }],
        &vec![],
    );
    let mut m = method(
        "shadowed",
        vec![FnArg::Receiver { kind: Receiver::ByRef }, arg("value", ty_path("T", 7))],
    );
    m.generics = vec![GenericParam { kind: GenericKind::Type, ident: s("T"), decl: s("T: Copy") }];
    let info = TraitItemMethodInfo::new(&m, &trait_ctx).unwrap();
    assert_eq!(info.args_sets.trait_generic_types.items, vec![s("T")]);
    assert!(info.args_sets.method_generic_types.items.is_empty());
}

#[test]
fn concrete_type_tracked_in_neither_set() {
    let trait_ctx = TraitContext::new(
        &vec![GenericParam { kind: GenericKind::Type, ident: s("K"), decl: s("K") }],
        &vec![],
    );
    let mut m = method(
        "mixed",
        vec![
            FnArg::Receiver { kind: Receiver::ByRef },
            arg("flag", ty_path("bool", 8)),
            arg("key", ty_path("K", 9)),
        ],
    );
    m.generics = vec![GenericParam { kind: GenericKind::Type, ident: s("V"), decl: s("V") }];
    let info = TraitItemMethodInfo::new(&m, &trait_ctx).unwrap();
    assert_eq!(info.args_sets.trait_generic_types.items, vec![s("K")]);
    assert!(info.args_sets.method_generic_types.items.is_empty());
    assert_eq!(info.args.entries.len(), 2);
}

#[test]
fn repeated_generic_use_recorded_once() {
    let mut m = method(
        "pair",
        vec![
            FnArg::Receiver { kind: Receiver::ByRef },
            arg("left", ty_path("T", 10)),
            arg("right", ty_path("T", 11)),
        ],
    );
    m.generics = vec![GenericParam { kind: GenericKind::Type, ident: s("T"), decl: s("T") }];
    let info = TraitItemMethodInfo::new(&m, &TraitContext::empty()).unwrap();
    assert_eq!(info.args_sets.method_generic_types.items, vec![s("T")]);
}

#[test]
fn array_argument_rejected_at_type_span() {
    let m = method(
        "f",
        vec![
            FnArg::Receiver { kind: Receiver::ByRef },
            arg("data", ty_shape(TypeShapeKind::Array, 77)),
        ],
    );
    let d = TraitItemMethodInfo::new(&m, &TraitContext::empty()).unwrap_err();
    assert_eq!(d.message, "support for arrays `[T; n]` is not implemented");
    assert_eq!(d.span.id, 77);
}

#[test]
fn all_disallowed_type_shapes_rejected() {
    let cases: Vec<(TypeShapeKind, &str)> = vec![
        (TypeShapeKind::Array, "support for arrays `[T; n]` is not implemented"),
        (TypeShapeKind::BareFn, "support for bare functions `fn() -> Type` is not implemented"),
        (TypeShapeKind::Group, "support for Groups is not implemented"),
        (
            TypeShapeKind::ImplTrait,
            "support for impl trait `impl Bound1 + Bound2` is not implemented",
        ),
        (TypeShapeKind::Infer, "support for inferred type `_` is not implemented"),
        (TypeShapeKind::MacroType, "support for type macros `m!()` is not implemented"),
        (TypeShapeKind::Never, "support for never type `!` is not implemented"),
        (TypeShapeKind::Paren, "support for parenthesys type is not implemented"),
        (TypeShapeKind::Ptr, "support for pointer types `*const T` is not implemented"),
        (
            TypeShapeKind::Reference,
            "support for reference types `&'lt mut T` is not implemented",
        ),
        (TypeShapeKind::Slice, "support for slice types `[T]` is not implemented"),
        (
            TypeShapeKind::TraitObject,
            "support for trait object types `Bound1 + Bound2` is not implemented",
        ),
        (TypeShapeKind::Tuple, "support for tuple types `(T1, T2)` is not implemented"),
        (TypeShapeKind::Verbatim, "support for arbitrary token stream is not implemented"),
        (TypeShapeKind::Unknown, "support for unkown types is not implemented"),
    ];
    for (i, (kind, message)) in cases.into_iter().enumerate() {
        let m = method(
            "f",
            vec![
                FnArg::Receiver { kind: Receiver::ByRef },
                arg("x", ty_shape(kind, 100 + i as u64)),
            ],
        );
        let d = TraitItemMethodInfo::new(&m, &TraitContext::empty()).unwrap_err();
        assert_eq!(d.message, message);
        assert_eq!(d.span.id, 100 + i as u64);
    }
}

#[test]
fn qualified_path_rejected() {
    let mut ty = ty_path("Assoc", 30);
    ty.qself = true;
    let m = method("f", vec![arg("x", ty)]);
    let d = TraitItemMethodInfo::new(&m, &TraitContext::empty()).unwrap_err();
    assert_eq!(d.message, "support for <T as Trait>::Type is not implemented");
    assert_eq!(d.span.id, 30);
}

#[test]
fn absolute_path_rejected() {
    let mut ty = ty_path("Type", 31);
    ty.leading_colon = true;
    let m = method("f", vec![arg("x", ty)]);
    let d = TraitItemMethodInfo::new(&m, &TraitContext::empty()).unwrap_err();
    assert_eq!(d.message, "support for ::Type is not implemented");
    assert_eq!(d.span.id, 31);
}

#[test]
fn multi_segment_path_rejected() {
    let mut ty = ty_path("ignored", 32);
    ty.path_ident = None;
    ty.text = s("std::slice::Iter");
    let m = method("f", vec![arg("x", ty)]);
    let d = TraitItemMethodInfo::new(&m, &TraitContext::empty()).unwrap_err();
    assert_eq!(d.message, "only support for single basic types is implemented");
    assert_eq!(d.span.id, 32);
}

#[test]
fn all_disallowed_patterns_rejected() {
    let cases: Vec<(PatKind, &str)> = vec![
        (PatKind::BoxPat, "support for box pattern `box T` is not implemented"),
        (PatKind::Lit, "support for literal pattern is not implemented"),
        (PatKind::MacroPat, "support for macro pattern is not implemented"),
        (PatKind::Or, "support for Or pattern is not implemented"),
        (PatKind::Path, "support for path pattern is not implemented"),
        (PatKind::Range, "support for range pattern is not implemented"),
        (PatKind::Reference, "support for reference pattern is not implemented"),
        (PatKind::Rest, "support for Rest pattern is not implemented"),
        (PatKind::Slice, "support for slice pattern is not implemented"),
        (PatKind::Struct, "support for struct pattern is not implemented"),
        (PatKind::Tuple, "support for tuple pattern is not implemented"),
        (PatKind::TupleStruct, "support for tuple struct pattern is not implemented"),
        (PatKind::TypeAscription, "support for type pattern is not implemented"),
        (PatKind::Verbatim, "support for arbitrary token stream is not implemented"),
        (PatKind::Wild, "support for wild-token pattern is not implemented"),
        (PatKind::Unknown, "support for unknown pattern is not implemented"),
    ];
    for (i, (pat, message)) in cases.into_iter().enumerate() {
        let m = method(
            "f",
            vec![FnArg::Typed {
                pat,
                pat_span: Span { id: 200 + i as u64 },
                ty: ty_path("u8", 300 + i as u64),
            }],
        );
        let d = TraitItemMethodInfo::new(&m, &TraitContext::empty()).unwrap_err();
        assert_eq!(d.message, message);
        assert_eq!(d.span.id, 200 + i as u64);
    }
}

#[test]
fn pattern_scan_precedes_type_scan() {
    // the earlier scan wins even when a later argument carries the bad
    // pattern and an earlier one the bad type
    let m = method(
        "f",
        vec![
            arg("bad_type", ty_shape(TypeShapeKind::Tuple, 50)),
            FnArg::Typed {
                pat: PatKind::Wild,
                pat_span: Span { id: 51 },
                ty: ty_path("u8", 52),
            },
        ],
    );
    let d = TraitItemMethodInfo::new(&m, &TraitContext::empty()).unwrap_err();
    assert_eq!(d.message, "support for wild-token pattern is not implemented");
    assert_eq!(d.span.id, 51);
}

#[test]
fn doc_scan_precedes_pattern_scan() {
    let mut m = method(
        "f",
        vec![FnArg::Typed {
            pat: PatKind::Wild,
            pat_span: Span { id: 61 },
            ty: ty_path("u8", 62),
        }],
    );
    m.attrs = vec![Attribute {
        outer: true,
        is_doc: true,
        meta: MetaShape::Other,
        span: Span { id: 60 },
    }];
    let d = TraitItemMethodInfo::new(&m, &TraitContext::empty()).unwrap_err();
    assert_eq!(d.message, "unrecognized doc attribute");
    assert_eq!(d.span.id, 60);
}

#[test]
fn first_rejected_type_wins() {
    let m = method(
        "f",
        vec![
            arg("a", ty_shape(TypeShapeKind::Slice, 70)),
            arg("b", ty_shape(TypeShapeKind::Never, 71)),
        ],
    );
    let d = TraitItemMethodInfo::new(&m, &TraitContext::empty()).unwrap_err();
    assert_eq!(d.message, "support for slice types `[T]` is not implemented");
    assert_eq!(d.span.id, 70);
}

#[test]
fn where_predicates_carried_over() {
    let mut m = method("bounded", vec![]);
    m.where_predicates = vec![s("T: Clone"), s("U: Default")];
    let info = TraitItemMethodInfo::new(&m, &TraitContext::empty()).unwrap();
    assert_eq!(info.where_predicates, vec![s("T: Clone"), s("U: Default")]);
}
