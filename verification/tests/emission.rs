//! Tests of the wrapper emitter: the deterministic merged generic order,
//! the emitted declarations, and the serializer call-sequence selection.

use called_in_gen::ast::{
    ArgType, Attribute, FnArg, GenericKind, GenericParam, MetaShape, MethodAst, PatKind, Receiver,
    Span, TypeShapeKind,
};
use called_in_gen::code_generator::{SerializerCode, SerializerType};
use called_in_gen::info_extractor::{TraitContext, TraitItemMethodInfo};

fn s(x: &str) -> String {
    x.to_string()
}

fn ty_path(name: &str, id: u64) -> ArgType {
    ArgType {
        kind: TypeShapeKind::Path,
        qself: false,
        leading_colon: false,
        path_ident: Some(s(name)),
        text: s(name),
        span: Span { id },
    }
}

fn arg(name: &str, ty: ArgType) -> FnArg {
    FnArg::Typed { pat: PatKind::Ident(s(name)), pat_span: Span { id: 900 }, ty }
}

fn method(name: &str, inputs: Vec<FnArg>) -> MethodAst {
    MethodAst {
        name: s(name),
        attrs: vec![],
        generics: vec![],
        inputs,
        where_predicates: vec![],
    }
}

fn generic(kind: GenericKind, ident: &str, decl: &str) -> GenericParam {
    GenericParam { kind, ident: s(ident), decl: s(decl) }
}

#[test]
fn transfer_module_emitted() {
    let m = method(
        "transfer",
        vec![
            FnArg::Receiver { kind: Receiver::ByRef },
            arg("to", ty_path("AccountId", 1)),
            arg("amount", ty_path("u64", 2)),
        ],
    );
    let trait_ctx = TraitContext::empty();
    let info = TraitItemMethodInfo::new(&m, &trait_ctx).unwrap();
    let module = info.method_wrapper(&trait_ctx);
    assert_eq!(module.mod_name, "transfer");
    assert_eq!(module.args_struct.fields.len(), 2);
    assert_eq!(module.args_struct.fields[0].name, "to");
    assert_eq!(module.args_struct.fields[0].ty, "AccountId");
    assert_eq!(module.args_struct.fields[1].name, "amount");
    assert_eq!(module.args_struct.fields[1].ty, "u64");
    // no generics anywhere: the phantom marker has no parameters
    assert!(module.args_struct.generics.decls.is_empty());
    assert!(module.phantom_marker.generics.decls.is_empty());
    assert!(module.phantom_marker.lifetime_idents.is_empty());
    assert!(module.phantom_marker.type_idents.is_empty());
    assert!(module.args_struct.generics.where_predicates.is_empty());
    // and its serializer choice is a JSON encoding call
    let code = TraitItemMethodInfo::generate_serialier(&info, &SerializerType::JSON);
    match code {
        SerializerCode::Encoded { serializer, abort_message } => {
            assert_eq!(serializer, SerializerType::JSON);
            assert_eq!(
                abort_message,
                "Failed to serialize the cross contract args using JSON."
            );
        }
        SerializerCode::EmptyPayload => panic!("expected an encoding call"),
    }
}

#[test]
fn empty_payload_for_zero_args() {
    let m = method("ping", vec![FnArg::Receiver { kind: Receiver::ByRef }]);
    let info = TraitItemMethodInfo::new(&m, &TraitContext::empty()).unwrap();
    let json = TraitItemMethodInfo::generate_serialier(&info, &SerializerType::JSON);
    assert_eq!(json, SerializerCode::EmptyPayload);
    let borsh = TraitItemMethodInfo::generate_serialier(&info, &SerializerType::Borsh);
    assert_eq!(borsh, SerializerCode::EmptyPayload);
}

#[test]
fn borsh_encoding_call_named() {
    let m = method("store", vec![arg("value", ty_path("u8", 3))]);
    let info = TraitItemMethodInfo::new(&m, &TraitContext::empty()).unwrap();
    let code = TraitItemMethodInfo::generate_serialier(&info, &SerializerType::Borsh);
    match code {
        SerializerCode::Encoded { serializer, abort_message } => {
            assert_eq!(serializer, SerializerType::Borsh);
            assert_eq!(
                abort_message,
                "Failed to serialize the cross contract args using Borsh."
            );
        }
        SerializerCode::EmptyPayload => panic!("expected an encoding call"),
    }
}

#[test]
fn merged_generic_order_deterministic() {
    let trait_ctx = TraitContext::new(
        &vec![
            generic(GenericKind::Lifetime, "a", "'a"),
            generic(GenericKind::Type, "T", "T: Clone"),
            generic(GenericKind::Const, "N", "const N: usize"),
        ],
        &vec![s("T: Send")],
    );
    let mut m = method("combine", vec![]);
    m.generics = vec![
        generic(GenericKind::Lifetime, "b", "'b"),
        generic(GenericKind::Type, "U", "U: Default"),
        generic(GenericKind::Const, "M", "const M: u8"),
    ];
    m.where_predicates = vec![s("U: Into<T>")];
    let info = TraitItemMethodInfo::new(&m, &trait_ctx).unwrap();
    let module = info.method_wrapper(&trait_ctx);
    // trait lifetimes, method lifetimes, trait types, method types,
    // trait consts, method consts
    assert_eq!(
        module.args_struct.generics.decls,
        vec![s("'a"), s("'b"), s("T: Clone"), s("U: Default"), s("const N: usize"), s("const M: u8")]
    );
    assert_eq!(
        module.args_struct.generics.idents,
        vec![s("a"), s("b"), s("T"), s("U"), s("N"), s("M")]
    );
    // the phantom marker takes the lifetimes/types-only subset
    assert_eq!(
        module.phantom_marker.generics.decls,
        vec![s("'a"), s("'b"), s("T: Clone"), s("U: Default")]
    );
    assert_eq!(module.phantom_marker.lifetime_idents, vec![s("a"), s("b")]);
    assert_eq!(module.phantom_marker.type_idents, vec![s("T"), s("U")]);
    assert_eq!(module.args_struct.phantom_idents, vec![s("a"), s("b"), s("T"), s("U")]);
    // the where-clause merges the trait's predicates before the method's
    assert_eq!(
        module.args_struct.generics.where_predicates,
        vec![s("T: Send"), s("U: Into<T>")]
    );
    assert_eq!(
        module.return_alias.generics.decls,
        module.args_struct.generics.decls
    );
}

#[test]
fn method_generic_threaded_through_alias() {
    let mut m = method(
        "get",
        vec![FnArg::Receiver { kind: Receiver::ByRef }, arg("key", ty_path("T", 5))],
    );
    m.generics = vec![generic(GenericKind::Type, "T", "T: Clone")];
    let trait_ctx = TraitContext::empty();
    let info = TraitItemMethodInfo::new(&m, &trait_ctx).unwrap();
    assert_eq!(info.args_sets.method_generic_types.items, vec![s("T")]);
    let module = info.method_wrapper(&trait_ctx);
    assert_eq!(module.args_struct.generics.decls, vec![s("T: Clone")]);
    assert_eq!(module.return_alias.generics.idents, vec![s("T")]);
    assert_eq!(module.phantom_marker.type_idents, vec![s("T")]);
}

#[test]
fn rerun_produces_identical_output() {
    let trait_ctx = TraitContext::new(
        &vec![generic(GenericKind::Type, "K", "K")],
        &vec![s("K: Ord")],
    );
    let mut m = method(
        "insert",
        vec![
            FnArg::Receiver { kind: Receiver::ByRefMut },
            arg("key", ty_path("K", 11)),
            arg("value", ty_path("V", 12)),
        ],
    );
    m.generics = vec![generic(GenericKind::Type, "V", "V")];
    let first_info = TraitItemMethodInfo::new(&m, &trait_ctx).unwrap();
    let second_info = TraitItemMethodInfo::new(&m, &trait_ctx).unwrap();
    assert_eq!(first_info, second_info);
    let first_module = first_info.method_wrapper(&trait_ctx);
    let second_module = second_info.method_wrapper(&trait_ctx);
    assert_eq!(first_module, second_module);
    let first_code = TraitItemMethodInfo::generate_serialier(&first_info, &SerializerType::JSON);
    let second_code = TraitItemMethodInfo::generate_serialier(&second_info, &SerializerType::JSON);
    assert_eq!(first_code, second_code);
}

#[test]
fn docs_carried_into_module() {
    let mut m = method("documented", vec![]);
    m.attrs = vec![Attribute {
        outer: true,
        is_doc: true,
        meta: MetaShape::NameValue(s("sends a ping")),
        span: Span { id: 1 },
    }];
    let trait_ctx = TraitContext::empty();
    let info = TraitItemMethodInfo::new(&m, &trait_ctx).unwrap();
    let module = info.method_wrapper(&trait_ctx);
    assert_eq!(module.docs, vec![s("sends a ping")]);
}
