//! The signature analyzer: turns one trait method declaration plus the
//! enclosing trait's generic context into a validated [`TraitItemMethodInfo`],
//! or the first diagnostic encountered. Analysis is fail-fast: documentation
//! attributes are checked first, then binding patterns, then argument types,
//! and the first rejection wins.

use vstd::prelude::*;
use crate::ast::{ArgType, Attribute, FnArg, GenericKind, GenericParam, MetaShape, MethodAst,
    PatKind, Receiver, Span, TypeShapeKind};
use crate::diagnostic::{Diagnostic, msg_absolute_path, msg_not_single_ident, msg_qualified_path,
    msg_unrecognized_doc, pat_reject_msg, pat_reject_message, type_reject_msg,
    type_reject_message};
use crate::ordered::{ArgEntry, ArgMap, IdentSet, ParamEntry, ParamMap, clone_strings,
    seq_contains_str, set_push};

verus! {

// ---------------------------------------------------------------------------
// Sequence prefix facts
// ---------------------------------------------------------------------------

/// Taking one more element appends exactly that element.
pub proof fn lemma_take_one_more<A>(s: Seq<A>, i: int)
    requires
        0 <= i < s.len(),
    ensures
        s.take(i + 1).drop_last() =~= s.take(i),
        s.take(i + 1).last() == s[i],
{
}

// ---------------------------------------------------------------------------
// Documentation extraction
// ---------------------------------------------------------------------------

/// The first diagnostic of the documentation scan: the earliest outer `doc`
/// attribute whose meta item is not a name/value pair, with its span.
pub open spec fn doc_diag(attrs: Seq<Attribute>) -> Option<(Span, Seq<char>)>
    decreases attrs.len(),
{
    if attrs.len() == 0 {
        None
    } else {
        let prefix = doc_diag(attrs.drop_last());
        if prefix is Some {
            prefix
        } else {
            let a = attrs.last();
            if a.outer && a.is_doc && !(a.meta is NameValue) {
                Some((a.span, msg_unrecognized_doc()))
            } else {
                None
            }
        }
    }
}

/// The literal values of the outer name/value `doc` attributes, in source
/// order.
pub open spec fn docs_spec(attrs: Seq<Attribute>) -> Seq<String>
    decreases attrs.len(),
{
    if attrs.len() == 0 {
        Seq::empty()
    } else {
        let prefix = docs_spec(attrs.drop_last());
        let a = attrs.last();
        if a.outer && a.is_doc {
            match a.meta {
                MetaShape::NameValue(v) => prefix.push(v),
                MetaShape::Other => prefix,
            }
        } else {
            prefix
        }
    }
}

/// A documentation diagnostic found in a prefix is the diagnostic of the
/// whole attribute list.
proof fn lemma_doc_diag_prefix(s: Seq<Attribute>, i: int)
    requires
        0 <= i <= s.len(),
        doc_diag(s.take(i)) is Some,
    ensures
        doc_diag(s) == doc_diag(s.take(i)),
    decreases s.len() - i,
{
    if i == s.len() {
        assert(s.take(i) =~= s);
    } else {
        lemma_take_one_more(s, i);
        assert(doc_diag(s.take(i + 1)) == doc_diag(s.take(i)));
        lemma_doc_diag_prefix(s, i + 1);
    }
}

// ---------------------------------------------------------------------------
// Generic parameter partition
// ---------------------------------------------------------------------------

/// No two parameters of the given kind share an identifier. The source
/// grammar guarantees this of any well-formed declaration.
pub open spec fn kind_idents_distinct(params: Seq<GenericParam>, kind: GenericKind) -> bool {
    forall|i: int, j: int|
        0 <= i < j < params.len() && params[i].kind == kind && params[j].kind == kind
            ==> params[i].ident@ != params[j].ident@
}

/// The name-to-declaration bindings of the parameters of one kind, in
/// declaration order.
pub open spec fn param_entries(params: Seq<GenericParam>, kind: GenericKind) -> Seq<ParamEntry>
    decreases params.len(),
{
    if params.len() == 0 {
        Seq::empty()
    } else {
        let prefix = param_entries(params.drop_last(), kind);
        let p = params.last();
        if p.kind == kind {
            prefix.push(ParamEntry { key: p.ident, decl: p.decl })
        } else {
            prefix
        }
    }
}

/// The keys of a binding sequence, in order.
pub open spec fn entry_keys(entries: Seq<ParamEntry>) -> Seq<String> {
    Seq::new(entries.len(), |i: int| entries[i].key)
}

/// Every binding produced by the partition names some parameter of the
/// partition's kind.
proof fn lemma_param_entries_member(params: Seq<GenericParam>, kind: GenericKind)
    ensures
        forall|i: int|
            0 <= i < param_entries(params, kind).len() ==> exists|j: int|
                0 <= j < params.len() && params[j].kind == kind
                    && #[trigger] param_entries(params, kind)[i]
                        == (ParamEntry { key: params[j].ident, decl: params[j].decl }),
    decreases params.len(),
{
    if params.len() > 0 {
        lemma_param_entries_member(params.drop_last(), kind);
        let prefix = param_entries(params.drop_last(), kind);
        assert forall|i: int| 0 <= i < param_entries(params, kind).len() implies exists|j: int|
            0 <= j < params.len() && params[j].kind == kind
                && #[trigger] param_entries(params, kind)[i]
                    == (ParamEntry { key: params[j].ident, decl: params[j].decl }) by {
            if i < prefix.len() {
                let j = choose|j: int|
                    0 <= j < params.drop_last().len() && params.drop_last()[j].kind == kind
                        && prefix[i] == (ParamEntry {
                        key: params.drop_last()[j].ident,
                        decl: params.drop_last()[j].decl,
                    });
                assert(params[j] == params.drop_last()[j]);
                assert(param_entries(params, kind)[i] == prefix[i]);
            } else {
                let j = params.len() - 1;
                assert(params[j] == params.last());
            }
        }
    }
}

/// Distinct identifiers give a well-formed partition map: no two bindings
/// share a key.
proof fn lemma_param_entries_distinct(params: Seq<GenericParam>, kind: GenericKind)
    requires
        kind_idents_distinct(params, kind),
    ensures
        forall|i: int, j: int|
            0 <= i < j < param_entries(params, kind).len()
                ==> param_entries(params, kind)[i].key@ != param_entries(params, kind)[j].key@,
    decreases params.len(),
{
    if params.len() > 0 {
        assert(kind_idents_distinct(params.drop_last(), kind)) by {
            assert forall|i: int, j: int|
                0 <= i < j < params.drop_last().len() && params.drop_last()[i].kind == kind
                    && params.drop_last()[j].kind == kind
                implies params.drop_last()[i].ident@ != params.drop_last()[j].ident@ by {
                assert(params.drop_last()[i] == params[i]);
                assert(params.drop_last()[j] == params[j]);
            }
        }
        lemma_param_entries_distinct(params.drop_last(), kind);
        let prefix = param_entries(params.drop_last(), kind);
        let p = params.last();
        if p.kind == kind {
            lemma_param_entries_member(params.drop_last(), kind);
            assert forall|i: int| 0 <= i < prefix.len() implies prefix[i].key@ != p.ident@ by {
                let j = choose|j: int|
                    0 <= j < params.drop_last().len() && params.drop_last()[j].kind == kind
                        && prefix[i] == (ParamEntry {
                        key: params.drop_last()[j].ident,
                        decl: params.drop_last()[j].decl,
                    });
                assert(params.drop_last()[j] == params[j]);
                assert(params[j].ident@ != params[params.len() - 1].ident@);
            }
        }
    }
}

/// Collects the generic parameters of one kind into an ordered map, keyed by
/// identifier, in declaration order.
#[verifier::loop_isolation(false)]
pub fn params_of_kind(params: &Vec<GenericParam>, kind: GenericKind) -> (r: ParamMap)
    ensures
        r.entries@ == param_entries(params@, kind),
        kind_idents_distinct(params@, kind) ==> r.wf(),
{
    let mut map = ParamMap::new();
    let mut i: usize = 0;
    assert(map.entries@ =~= param_entries(params@.take(0), kind));
    while i < params.len()
        invariant
            i <= params@.len(),
            map.entries@ == param_entries(params@.take(i as int), kind),
        decreases params@.len() - i,
    {
        proof {
            lemma_take_one_more(params@, i as int);
        }
        let p = &params[i];
        if p.kind == kind {
            map.push_entry(p.ident.clone(), p.decl.clone());
        }
        i += 1;
    }
    proof {
        assert(params@.take(params@.len() as int) =~= params@);
        if kind_idents_distinct(params@, kind) {
            lemma_param_entries_distinct(params@, kind);
        }
    }
    map
}

// ---------------------------------------------------------------------------
// Receiver and argument collection
// ---------------------------------------------------------------------------

/// How many receivers the parameter list declares. A well-formed method has
/// at most one.
pub open spec fn receiver_count(inputs: Seq<FnArg>) -> int
    decreases inputs.len(),
{
    if inputs.len() == 0 {
        0
    } else {
        receiver_count(inputs.drop_last()) + if inputs.last() is Receiver {
            1int
        } else {
            0int
        }
    }
}

/// The first receiver of the parameter list, if any.
pub open spec fn receiver_of(inputs: Seq<FnArg>) -> Option<Receiver>
    decreases inputs.len(),
{
    if inputs.len() == 0 {
        None
    } else {
        let prefix = receiver_of(inputs.drop_last());
        if prefix is Some {
            prefix
        } else {
            match inputs.last() {
                FnArg::Receiver { kind } => Some(kind),
                _ => None,
            }
        }
    }
}

/// A receiver is found exactly when the count is positive.
proof fn lemma_receiver_some_iff_count(inputs: Seq<FnArg>)
    ensures
        receiver_of(inputs) is Some <==> receiver_count(inputs) >= 1,
    decreases inputs.len(),
{
    if inputs.len() > 0 {
        lemma_receiver_some_iff_count(inputs.drop_last());
        assert(receiver_count(inputs.drop_last()) >= 0) by {
            lemma_receiver_count_nonneg(inputs.drop_last());
        }
    }
}

/// The receiver count is never negative.
proof fn lemma_receiver_count_nonneg(inputs: Seq<FnArg>)
    ensures
        receiver_count(inputs) >= 0,
    decreases inputs.len(),
{
    if inputs.len() > 0 {
        lemma_receiver_count_nonneg(inputs.drop_last());
    }
}

/// A prefix never counts more receivers than the whole list.
proof fn lemma_receiver_count_take(inputs: Seq<FnArg>, i: int)
    requires
        0 <= i <= inputs.len(),
    ensures
        receiver_count(inputs.take(i)) <= receiver_count(inputs),
    decreases inputs.len() - i,
{
    if i == inputs.len() {
        assert(inputs.take(i) =~= inputs);
    } else {
        lemma_take_one_more(inputs, i);
        assert(receiver_count(inputs.take(i + 1)) >= receiver_count(inputs.take(i)));
        lemma_receiver_count_take(inputs, i + 1);
    }
}

/// The first diagnostic of the binding-pattern scan: the earliest
/// non-receiver parameter whose pattern is not a bare identifier, with the
/// pattern's span and the message naming its kind.
pub open spec fn pat_diag(inputs: Seq<FnArg>) -> Option<(Span, Seq<char>)>
    decreases inputs.len(),
{
    if inputs.len() == 0 {
        None
    } else {
        let prefix = pat_diag(inputs.drop_last());
        if prefix is Some {
            prefix
        } else {
            match inputs.last() {
                FnArg::Receiver { .. } => None,
                FnArg::Typed { pat, pat_span, .. } => if pat is Ident {
                    None
                } else {
                    Some((pat_span, pat_reject_msg(pat)))
                },
            }
        }
    }
}

/// A pattern diagnostic found in a prefix is the diagnostic of the whole
/// parameter list.
proof fn lemma_pat_diag_prefix(s: Seq<FnArg>, i: int)
    requires
        0 <= i <= s.len(),
        pat_diag(s.take(i)) is Some,
    ensures
        pat_diag(s) == pat_diag(s.take(i)),
    decreases s.len() - i,
{
    if i == s.len() {
        assert(s.take(i) =~= s);
    } else {
        lemma_take_one_more(s, i);
        assert(pat_diag(s.take(i + 1)) == pat_diag(s.take(i)));
        lemma_pat_diag_prefix(s, i + 1);
    }
}

/// The name-to-type bindings of the identifier-bound parameters, in
/// declaration order.
pub open spec fn args_entries(inputs: Seq<FnArg>) -> Seq<ArgEntry>
    decreases inputs.len(),
{
    if inputs.len() == 0 {
        Seq::empty()
    } else {
        let prefix = args_entries(inputs.drop_last());
        match inputs.last() {
            FnArg::Typed { pat: PatKind::Ident(name), ty, .. } => prefix.push(
                ArgEntry { key: name, ty },
            ),
            _ => prefix,
        }
    }
}

/// No two identifier-bound parameters share a name. The source grammar
/// guarantees this of any well-formed method.
pub open spec fn distinct_arg_names(inputs: Seq<FnArg>) -> bool {
    forall|i: int, j: int|
        0 <= i < j < args_entries(inputs).len()
            ==> args_entries(inputs)[i].key@ != args_entries(inputs)[j].key@
}

// ---------------------------------------------------------------------------
// Argument type validation and classification
// ---------------------------------------------------------------------------

/// The rejection message for a declared argument type, or `None` when the
/// type is accepted: only a bare single-identifier path with no qualifying
/// self type and no leading path separator passes.
pub open spec fn type_reject(ty: ArgType) -> Option<Seq<char>> {
    if ty.kind != TypeShapeKind::Path {
        Some(type_reject_msg(ty.kind))
    } else if ty.qself {
        Some(msg_qualified_path())
    } else if ty.leading_colon {
        Some(msg_absolute_path())
    } else if ty.path_ident is None {
        Some(msg_not_single_ident())
    } else {
        None
    }
}

/// The first diagnostic of the argument-type scan, with the offending type's
/// span.
pub open spec fn type_diag(args: Seq<ArgEntry>) -> Option<(Span, Seq<char>)>
    decreases args.len(),
{
    if args.len() == 0 {
        None
    } else {
        let prefix = type_diag(args.drop_last());
        if prefix is Some {
            prefix
        } else {
            match type_reject(args.last().ty) {
                Some(m) => Some((args.last().ty.span, m)),
                None => None,
            }
        }
    }
}

/// A type diagnostic found in a prefix is the diagnostic of the whole
/// argument list.
proof fn lemma_type_diag_prefix(s: Seq<ArgEntry>, i: int)
    requires
        0 <= i <= s.len(),
        type_diag(s.take(i)) is Some,
    ensures
        type_diag(s) == type_diag(s.take(i)),
    decreases s.len() - i,
{
    if i == s.len() {
        assert(s.take(i) =~= s);
    } else {
        lemma_take_one_more(s, i);
        assert(type_diag(s.take(i + 1)) == type_diag(s.take(i)));
        lemma_type_diag_prefix(s, i + 1);
    }
}

/// The bucket an accepted argument type's name falls in.
#[derive(Clone, Copy, PartialEq, Eq, Structural, Debug)]
pub enum ArgClass {
    TraitGeneric,
    MethodGeneric,
    Concrete,
}

/// Classifies a type name against the trait's and then the method's generic
/// type names. The trait scope is checked first: a name declared by both
/// scopes is trait-generic.
pub open spec fn classify_spec(
    name: Seq<char>,
    trait_types: Seq<String>,
    method_types: Seq<String>,
) -> ArgClass {
    if seq_contains_str(trait_types, name) {
        ArgClass::TraitGeneric
    } else if seq_contains_str(method_types, name) {
        ArgClass::MethodGeneric
    } else {
        ArgClass::Concrete
    }
}

/// A map contains a name exactly when its key sequence does.
pub proof fn lemma_map_contains_keys(m: ParamMap, name: Seq<char>)
    ensures
        m.contains_name(name) == seq_contains_str(m.keys(), name),
{
    if m.contains_name(name) {
        let i = choose|i: int| 0 <= i < m.entries@.len() && m.entries@[i].key@ == name;
        assert(m.keys()[i]@ == name);
    }
    if seq_contains_str(m.keys(), name) {
        let i = choose|i: int| 0 <= i < m.keys().len() && m.keys()[i]@ == name;
        assert(m.entries@[i].key@ == name);
    }
}

/// Classifies one accepted argument type name: trait scope first, then
/// method scope, else concrete. Every name falls in exactly one bucket.
pub fn classify_path_ident(name: &String, trait_types: &ParamMap, method_types: &ParamMap) -> (r:
    ArgClass)
    ensures
        r == classify_spec(name@, trait_types.keys(), method_types.keys()),
{
    proof {
        lemma_map_contains_keys(*trait_types, name@);
        lemma_map_contains_keys(*method_types, name@);
    }
    if trait_types.contains_key(name) {
        ArgClass::TraitGeneric
    } else if method_types.contains_key(name) {
        ArgClass::MethodGeneric
    } else {
        ArgClass::Concrete
    }
}

/// The trait-level generic type names used by the accepted arguments, first
/// use first, each name once.
pub open spec fn trait_used_types(
    args: Seq<ArgEntry>,
    trait_types: Seq<String>,
    method_types: Seq<String>,
) -> Seq<String>
    decreases args.len(),
{
    if args.len() == 0 {
        Seq::empty()
    } else {
        let prefix = trait_used_types(args.drop_last(), trait_types, method_types);
        let a = args.last();
        if type_reject(a.ty) is None {
            match a.ty.path_ident {
                Some(id) => if classify_spec(id@, trait_types, method_types) is TraitGeneric {
                    set_push(prefix, id)
                } else {
                    prefix
                },
                None => prefix,
            }
        } else {
            prefix
        }
    }
}

/// The method-level generic type names used by the accepted arguments, first
/// use first, each name once.
pub open spec fn method_used_types(
    args: Seq<ArgEntry>,
    trait_types: Seq<String>,
    method_types: Seq<String>,
) -> Seq<String>
    decreases args.len(),
{
    if args.len() == 0 {
        Seq::empty()
    } else {
        let prefix = method_used_types(args.drop_last(), trait_types, method_types);
        let a = args.last();
        if type_reject(a.ty) is None {
            match a.ty.path_ident {
                Some(id) => if classify_spec(id@, trait_types, method_types) is MethodGeneric {
                    set_push(prefix, id)
                } else {
                    prefix
                },
                None => prefix,
            }
        } else {
            prefix
        }
    }
}

// ---------------------------------------------------------------------------
// The trait's generic context
// ---------------------------------------------------------------------------

/// The enclosing trait's generic parameters, partitioned by kind into
/// ordered name-to-declaration maps, plus the trait's where-clause
/// predicates in source order. Borrowed read-only during analysis for the
/// classification lookups, and by the emitter for the merged parameter
/// lists.
#[verifier::ext_equal]
#[derive(Debug, Clone, PartialEq)]
pub struct TraitContext {
    pub generic_lifetimes: ParamMap,
    pub generic_types: ParamMap,
    pub generic_consts: ParamMap,
    pub where_predicates: Vec<String>,
}

impl TraitContext {
    /// Well-formed: each partition map keys every name at most once.
    pub open spec fn wf(&self) -> bool {
        &&& self.generic_lifetimes.wf()
        &&& self.generic_types.wf()
        &&& self.generic_consts.wf()
    }

    /// Builds the trait context from the trait's generic parameter list and
    /// where-clause predicates.
    pub fn new(params: &Vec<GenericParam>, where_predicates: &Vec<String>) -> (r: Self)
        requires
            kind_idents_distinct(params@, GenericKind::Lifetime),
            kind_idents_distinct(params@, GenericKind::Type),
            kind_idents_distinct(params@, GenericKind::Const),
        ensures
            r.generic_lifetimes.entries@ == param_entries(params@, GenericKind::Lifetime),
            r.generic_types.entries@ == param_entries(params@, GenericKind::Type),
            r.generic_consts.entries@ == param_entries(params@, GenericKind::Const),
            r.where_predicates@ == where_predicates@,
            r.wf(),
    {
        TraitContext {
            generic_lifetimes: params_of_kind(params, GenericKind::Lifetime),
            generic_types: params_of_kind(params, GenericKind::Type),
            generic_consts: params_of_kind(params, GenericKind::Const),
            where_predicates: clone_strings(where_predicates),
        }
    }

    /// An empty context: a trait with no generic parameters and no
    /// where-clause.
    pub fn empty() -> (r: Self)
        ensures
            r.generic_lifetimes.entries@.len() == 0,
            r.generic_types.entries@.len() == 0,
            r.generic_consts.entries@.len() == 0,
            r.where_predicates@.len() == 0,
            r.wf(),
    {
        TraitContext {
            generic_lifetimes: ParamMap::new(),
            generic_types: ParamMap::new(),
            generic_consts: ParamMap::new(),
            where_predicates: Vec::new(),
        }
    }
}

/// Pushing into an insertion-ordered set keeps its names distinct.
proof fn lemma_set_push_wf(s: Seq<String>, x: String)
    requires
        forall|i: int, j: int| 0 <= i < j < s.len() ==> s[i]@ != s[j]@,
    ensures
        forall|i: int, j: int|
            0 <= i < j < set_push(s, x).len() ==> set_push(s, x)[i]@ != set_push(s, x)[j]@,
{
    if !seq_contains_str(s, x@) {
        assert forall|i: int, j: int| 0 <= i < j < set_push(s, x).len() implies set_push(s, x)[i]@
            != set_push(s, x)[j]@ by {
            if j == s.len() {
                assert(set_push(s, x)[j] == x);
                assert(s[i]@ != x@);
            }
        }
    }
}

// ---------------------------------------------------------------------------
// The analyzer's result
// ---------------------------------------------------------------------------

/// The generic names an argument's type may refer to, partitioned by the
/// declaring scope. Analysis fills the two type-name sets; the remaining
/// sets exist for the trait-level bound bookkeeping of the wider generator
/// and stay empty here.
#[verifier::ext_equal]
#[derive(Debug, Clone, PartialEq)]
pub struct ArgsSets {
    /// Trait-declared generic lifetimes, e.g. `trait Trait<'a>`.
    pub trait_generic_lifetimes: IdentSet,
    /// Trait-declared generic types used by an argument, e.g. `trait Trait<T>`.
    pub trait_generic_types: IdentSet,
    /// Trait-declared generic consts, e.g. `trait Trait<const N: usize>`.
    pub trait_generic_consts: IdentSet,
    /// Lifetime bounds on the trait itself, e.g. `trait Trait<'a>: 'a`.
    pub self_lifetime_bounds: IdentSet,
    /// Supertrait bounds, e.g. `trait Trait: OtherTrait`.
    pub self_trait_bounds: IdentSet,
    /// Where-clause lifetime bounds, e.g. `trait Trait<'a, T> where T: 'a`.
    pub trait_lifetime_bounds: IdentSet,
    /// Where-clause type bounds, e.g. `trait Trait<T> where T: Clone`.
    pub trait_type_bounds: IdentSet,
    /// Associated consts, e.g. `trait Trait { const T: u8; }`.
    pub trait_const_items: IdentSet,
    /// Associated types, e.g. `trait Trait { type T; }`.
    pub trait_assoc_type_items: IdentSet,
    /// Method-declared generic lifetimes, e.g. `fn f<'a>() {}`.
    pub method_generic_lifetimes: IdentSet,
    /// Method-declared generic types used by an argument, e.g. `fn f<T>() {}`.
    pub method_generic_types: IdentSet,
    /// Method-declared generic consts, e.g. `fn f<const N: usize>() {}`.
    pub method_generic_consts: IdentSet,
}

impl ArgsSets {
    /// Well-formed: every set holds each name at most once.
    pub open spec fn wf(&self) -> bool {
        &&& self.trait_generic_lifetimes.wf()
        &&& self.trait_generic_types.wf()
        &&& self.trait_generic_consts.wf()
        &&& self.self_lifetime_bounds.wf()
        &&& self.self_trait_bounds.wf()
        &&& self.trait_lifetime_bounds.wf()
        &&& self.trait_type_bounds.wf()
        &&& self.trait_const_items.wf()
        &&& self.trait_assoc_type_items.wf()
        &&& self.method_generic_lifetimes.wf()
        &&& self.method_generic_types.wf()
        &&& self.method_generic_consts.wf()
    }

    /// All sets are empty.
    pub open spec fn is_empty(&self) -> bool {
        &&& self.trait_generic_lifetimes.items@.len() == 0
        &&& self.trait_generic_types.items@.len() == 0
        &&& self.trait_generic_consts.items@.len() == 0
        &&& self.self_lifetime_bounds.items@.len() == 0
        &&& self.self_trait_bounds.items@.len() == 0
        &&& self.trait_lifetime_bounds.items@.len() == 0
        &&& self.trait_type_bounds.items@.len() == 0
        &&& self.trait_const_items.items@.len() == 0
        &&& self.trait_assoc_type_items.items@.len() == 0
        &&& self.method_generic_lifetimes.items@.len() == 0
        &&& self.method_generic_types.items@.len() == 0
        &&& self.method_generic_consts.items@.len() == 0
    }

    pub fn new() -> (r: Self)
        ensures
            r.is_empty(),
            r.wf(),
    {
        ArgsSets {
            trait_generic_lifetimes: IdentSet::new(),
            trait_generic_types: IdentSet::new(),
            trait_generic_consts: IdentSet::new(),
            self_lifetime_bounds: IdentSet::new(),
            self_trait_bounds: IdentSet::new(),
            trait_lifetime_bounds: IdentSet::new(),
            trait_type_bounds: IdentSet::new(),
            trait_const_items: IdentSet::new(),
            trait_assoc_type_items: IdentSet::new(),
            method_generic_lifetimes: IdentSet::new(),
            method_generic_types: IdentSet::new(),
            method_generic_consts: IdentSet::new(),
        }
    }
}

impl Default for ArgsSets {
    fn default() -> (r: Self)
        ensures
            r.is_empty(),
            r.wf(),
    {
        ArgsSets::new()
    }
}

/// Information extracted from one trait method: its documentation, its own
/// generic parameters partitioned by kind, its receiver, its named typed
/// arguments, and the generic type names its arguments use, by scope.
#[verifier::ext_equal]
#[derive(Debug, Clone, PartialEq)]
pub struct TraitItemMethodInfo {
    /// The method's name; the generated module is named after it.
    pub name: String,
    /// The method documentation, e.g. `#[doc = "My Documentation"] fn f() {}`.
    pub docs: Vec<String>,
    /// The method's lifetime generics, e.g. `fn f<'a>() {}`.
    pub generic_lifetimes: ParamMap,
    /// The method's type generics, e.g. `fn f<T>() {}`.
    pub generic_types: ParamMap,
    /// The method's const generics, e.g. `fn f<const N: usize>() {}`.
    pub generic_consts: ParamMap,
    /// The `self`, or `&mut self`, or `&self` part.
    pub receiver: Option<Receiver>,
    /// The named typed arguments, in declaration order.
    pub args: ArgMap,
    /// The generic type names the arguments use, by declaring scope.
    pub args_sets: ArgsSets,
    /// The method's where-clause predicates, in source order.
    pub where_predicates: Vec<String>,
}

/// What the analyzer assumes of its input: the source grammar's guarantees.
/// A method declaration with two receivers, a repeated generic parameter
/// name within one kind, or a repeated argument name is not a value the
/// analyzer accepts or recovers from.
pub open spec fn analysis_pre(m: MethodAst) -> bool {
    &&& receiver_count(m.inputs@) <= 1
    &&& kind_idents_distinct(m.generics@, GenericKind::Lifetime)
    &&& kind_idents_distinct(m.generics@, GenericKind::Type)
    &&& kind_idents_distinct(m.generics@, GenericKind::Const)
    &&& distinct_arg_names(m.inputs@)
}

/// The single diagnostic analysis reports, if any: the documentation scan
/// first, then the binding patterns, then the argument types; within each
/// scan the earliest offender, and nothing after the first.
pub open spec fn analysis_diag(m: MethodAst) -> Option<(Span, Seq<char>)> {
    if doc_diag(m.attrs@) is Some {
        doc_diag(m.attrs@)
    } else if pat_diag(m.inputs@) is Some {
        pat_diag(m.inputs@)
    } else {
        type_diag(args_entries(m.inputs@))
    }
}

/// What a successful analysis returns, field by field, as a function of the
/// method and the trait context alone.
pub open spec fn info_matches(info: TraitItemMethodInfo, m: MethodAst, t: TraitContext) -> bool {
    &&& info.name == m.name
    &&& info.docs@ == docs_spec(m.attrs@)
    &&& info.generic_lifetimes.entries@ == param_entries(m.generics@, GenericKind::Lifetime)
    &&& info.generic_types.entries@ == param_entries(m.generics@, GenericKind::Type)
    &&& info.generic_consts.entries@ == param_entries(m.generics@, GenericKind::Const)
    &&& info.receiver == receiver_of(m.inputs@)
    &&& info.args.entries@ == args_entries(m.inputs@)
    &&& info.args_sets.trait_generic_types.items@ == trait_used_types(
        args_entries(m.inputs@),
        t.generic_types.keys(),
        entry_keys(param_entries(m.generics@, GenericKind::Type)),
    )
    &&& info.args_sets.method_generic_types.items@ == method_used_types(
        args_entries(m.inputs@),
        t.generic_types.keys(),
        entry_keys(param_entries(m.generics@, GenericKind::Type)),
    )
    &&& info.args_sets.trait_generic_lifetimes.items@.len() == 0
    &&& info.args_sets.trait_generic_consts.items@.len() == 0
    &&& info.args_sets.self_lifetime_bounds.items@.len() == 0
    &&& info.args_sets.self_trait_bounds.items@.len() == 0
    &&& info.args_sets.trait_lifetime_bounds.items@.len() == 0
    &&& info.args_sets.trait_type_bounds.items@.len() == 0
    &&& info.args_sets.trait_const_items.items@.len() == 0
    &&& info.args_sets.trait_assoc_type_items.items@.len() == 0
    &&& info.args_sets.method_generic_lifetimes.items@.len() == 0
    &&& info.args_sets.method_generic_consts.items@.len() == 0
    &&& info.where_predicates@ == m.where_predicates@
}

impl TraitItemMethodInfo {
    /// Well-formed: every name-keyed collection holds each name at most
    /// once.
    pub open spec fn wf(&self) -> bool {
        &&& self.generic_lifetimes.wf()
        &&& self.generic_types.wf()
        &&& self.generic_consts.wf()
        &&& self.args.wf()
        &&& self.args_sets.wf()
    }

    /// Analyzes one trait method declaration against the enclosing trait's
    /// generic context. Returns the validated signature description, or the
    /// first diagnostic: a malformed outer `doc` attribute, then an
    /// unsupported binding pattern, then an unsupported argument type shape,
    /// in that scan order, earliest offender first.
    #[verifier::loop_isolation(false)]
    pub fn new(original: &MethodAst, trait_info: &TraitContext) -> (r: Result<
        TraitItemMethodInfo,
        Diagnostic,
    >)
        requires
            analysis_pre(*original),
        ensures
            r is Ok <==> analysis_diag(*original) is None,
            r matches Err(d) ==> analysis_diag(*original) == Some((d.span, d.message@)),
            r matches Ok(info) ==> info_matches(info, *original, *trait_info) && info.wf(),
    {
        // Documentation extraction: collect outer name/value `doc`
        // attributes; any other outer `doc` form is a hard error.
        let mut docs: Vec<String> = Vec::new();
        let mut i: usize = 0;
        assert(original.attrs@.take(0) =~= Seq::<Attribute>::empty());
        while i < original.attrs.len()
            invariant
                i <= original.attrs@.len(),
                doc_diag(original.attrs@.take(i as int)) is None,
                docs@ == docs_spec(original.attrs@.take(i as int)),
            decreases original.attrs@.len() - i,
        {
            proof {
                lemma_take_one_more(original.attrs@, i as int);
            }
            let a = &original.attrs[i];
            if a.outer && a.is_doc {
                match &a.meta {
                    MetaShape::NameValue(v) => {
                        docs.push(v.clone());
                    },
                    MetaShape::Other => {
                        proof {
                            lemma_doc_diag_prefix(original.attrs@, i as int + 1);
                        }
                        return Err(
                            Diagnostic {
                                span: a.span,
                                message: "unrecognized doc attribute".to_owned(),
                            },
                        );
                    },
                }
            }
            i += 1;
        }
        proof {
            assert(original.attrs@.take(original.attrs@.len() as int) =~= original.attrs@);
        }
        // Generic parameter partition, in declaration order, keyed by the
        // declared identifier.
        let generic_lifetimes = params_of_kind(&original.generics, GenericKind::Lifetime);
        let generic_types = params_of_kind(&original.generics, GenericKind::Type);
        let generic_consts = params_of_kind(&original.generics, GenericKind::Const);
        // Argument collection: record the receiver, bind each remaining
        // parameter by its bare identifier, and reject every other binding
        // pattern.
        let mut receiver: Option<Receiver> = None;
        let mut args = ArgMap::new();
        let mut i: usize = 0;
        assert(original.inputs@.take(0) =~= Seq::<FnArg>::empty());
        while i < original.inputs.len()
            invariant
                i <= original.inputs@.len(),
                pat_diag(original.inputs@.take(i as int)) is None,
                receiver == receiver_of(original.inputs@.take(i as int)),
                args.entries@ == args_entries(original.inputs@.take(i as int)),
            decreases original.inputs@.len() - i,
        {
            proof {
                lemma_take_one_more(original.inputs@, i as int);
            }
            match &original.inputs[i] {
                FnArg::Receiver { kind } => {
                    proof {
                        if receiver_of(original.inputs@.take(i as int)) is Some {
                            lemma_receiver_some_iff_count(original.inputs@.take(i as int));
                            lemma_receiver_count_take(original.inputs@, i as int + 1);
                        }
                    }
                    receiver = Some(*kind);
                },
                FnArg::Typed { pat, pat_span, ty } => {
                    match pat {
                        PatKind::Ident(name) => {
                            args.push_entry(name.clone(), ty.duplicate());
                        },
                        _ => {
                            proof {
                                lemma_pat_diag_prefix(original.inputs@, i as int + 1);
                            }
                            return Err(
                                Diagnostic {
                                    span: *pat_span,
                                    message: pat_reject_message(pat).to_owned(),
                                },
                            );
                        },
                    }
                },
            }
            i += 1;
        }
        proof {
            assert(original.inputs@.take(original.inputs@.len() as int) =~= original.inputs@);
        }
        // Argument type validation and classification: accept only a bare
        // single-identifier path and look its name up against the trait's
        // generic types first, then the method's own.
        let mut args_sets = ArgsSets::new();
        let mut i: usize = 0;
        assert(args.entries@.take(0) =~= Seq::<ArgEntry>::empty());
        while i < args.entries.len()
            invariant
                i <= args.entries@.len(),
                type_diag(args.entries@.take(i as int)) is None,
                args_sets.trait_generic_types.items@ == trait_used_types(
                    args.entries@.take(i as int),
                    trait_info.generic_types.keys(),
                    generic_types.keys(),
                ),
                args_sets.method_generic_types.items@ == method_used_types(
                    args.entries@.take(i as int),
                    trait_info.generic_types.keys(),
                    generic_types.keys(),
                ),
                args_sets.trait_generic_types.wf(),
                args_sets.method_generic_types.wf(),
                args_sets.trait_generic_lifetimes.items@.len() == 0,
                args_sets.trait_generic_consts.items@.len() == 0,
                args_sets.self_lifetime_bounds.items@.len() == 0,
                args_sets.self_trait_bounds.items@.len() == 0,
                args_sets.trait_lifetime_bounds.items@.len() == 0,
                args_sets.trait_type_bounds.items@.len() == 0,
                args_sets.trait_const_items.items@.len() == 0,
                args_sets.trait_assoc_type_items.items@.len() == 0,
                args_sets.method_generic_lifetimes.items@.len() == 0,
                args_sets.method_generic_consts.items@.len() == 0,
            decreases args.entries@.len() - i,
        {
            proof {
                lemma_take_one_more(args.entries@, i as int);
            }
            let entry = &args.entries[i];
            if entry.ty.kind != TypeShapeKind::Path {
                proof {
                    lemma_type_diag_prefix(args.entries@, i as int + 1);
                }
                return Err(
                    Diagnostic {
                        span: entry.ty.span,
                        message: type_reject_message(&entry.ty.kind).to_owned(),
                    },
                );
            }
            if entry.ty.qself {
                proof {
                    lemma_type_diag_prefix(args.entries@, i as int + 1);
                }
                return Err(
                    Diagnostic {
                        span: entry.ty.span,
                        message: "support for <T as Trait>::Type is not implemented".to_owned(),
                    },
                );
            }
            if entry.ty.leading_colon {
                proof {
                    lemma_type_diag_prefix(args.entries@, i as int + 1);
                }
                return Err(
                    Diagnostic {
                        span: entry.ty.span,
                        message: "support for ::Type is not implemented".to_owned(),
                    },
                );
            }
            match &entry.ty.path_ident {
                None => {
                    proof {
                        lemma_type_diag_prefix(args.entries@, i as int + 1);
                    }
                    return Err(
                        Diagnostic {
                            span: entry.ty.span,
                            message: "only support for single basic types is implemented"
                                .to_owned(),
                        },
                    );
                },
                Some(id) => {
                    let class = classify_path_ident(id, &trait_info.generic_types, &generic_types);
                    match class {
                        ArgClass::TraitGeneric => {
                            proof {
                                lemma_set_push_wf(args_sets.trait_generic_types.items@, *id);
                            }
                            args_sets.trait_generic_types.insert(id.clone());
                        },
                        ArgClass::MethodGeneric => {
                            proof {
                                lemma_set_push_wf(args_sets.method_generic_types.items@, *id);
                            }
                            args_sets.method_generic_types.insert(id.clone());
                        },
                        ArgClass::Concrete => {
                            // an ordinary concrete type, such as `bool`:
                            // nothing to track
                        },
                    }
                },
            }
            i += 1;
        }
        proof {
            assert(args.entries@.take(args.entries@.len() as int) =~= args.entries@);
        }
        Ok(
            TraitItemMethodInfo {
                name: original.name.clone(),
                docs,
                generic_lifetimes,
                generic_types,
                generic_consts,
                receiver,
                args,
                args_sets,
                where_predicates: clone_strings(&original.where_predicates),
            },
        )
    }
}

// ---------------------------------------------------------------------------
// Laws of the analysis
// ---------------------------------------------------------------------------

/// Somewhere a rejected type means the scan reports something.
proof fn lemma_type_diag_some(args: Seq<ArgEntry>, i: int)
    requires
        0 <= i < args.len(),
        type_reject(args[i].ty) is Some,
    ensures
        type_diag(args) is Some,
    decreases args.len(),
{
    if i < args.len() - 1 {
        assert(args.drop_last()[i] == args[i]);
        lemma_type_diag_some(args.drop_last(), i);
    }
}

/// Every disallowed type shape surfaces: when the documentation and the
/// binding patterns pass and any collected argument's declared type is
/// rejected, the analysis of the method ends in a diagnostic. The analyzer
/// then returns that bare error, so no partially assembled signature
/// escapes.
pub proof fn lemma_rejected_type_yields_diagnostic(m: MethodAst, i: int)
    requires
        doc_diag(m.attrs@) is None,
        pat_diag(m.inputs@) is None,
        0 <= i < args_entries(m.inputs@).len(),
        type_reject(args_entries(m.inputs@)[i].ty) is Some,
    ensures
        analysis_diag(m) is Some,
{
    lemma_type_diag_some(args_entries(m.inputs@), i);
}

/// Every accepted argument type name falls in exactly one of the three
/// buckets, and the trait scope wins: a name the trait declares is
/// trait-generic even when the method declares a generic type of the same
/// name.
pub proof fn lemma_classification_exclusive(
    name: Seq<char>,
    trait_types: Seq<String>,
    method_types: Seq<String>,
)
    ensures
        classify_spec(name, trait_types, method_types) is TraitGeneric <==> seq_contains_str(
            trait_types,
            name,
        ),
        classify_spec(name, trait_types, method_types) is MethodGeneric <==> (!seq_contains_str(
            trait_types,
            name,
        ) && seq_contains_str(method_types, name)),
        classify_spec(name, trait_types, method_types) is Concrete <==> (!seq_contains_str(
            trait_types,
            name,
        ) && !seq_contains_str(method_types, name)),
{
}

/// Whether two analysis results carry the same content: the same name,
/// documentation, partitioned generics, receiver, arguments, classification
/// sets and where-clause predicates.
pub open spec fn same_info(a: TraitItemMethodInfo, b: TraitItemMethodInfo) -> bool {
    &&& a.name == b.name
    &&& a.docs@ == b.docs@
    &&& a.generic_lifetimes.entries@ == b.generic_lifetimes.entries@
    &&& a.generic_types.entries@ == b.generic_types.entries@
    &&& a.generic_consts.entries@ == b.generic_consts.entries@
    &&& a.receiver == b.receiver
    &&& a.args.entries@ == b.args.entries@
    &&& a.args_sets.trait_generic_types.items@ == b.args_sets.trait_generic_types.items@
    &&& a.args_sets.method_generic_types.items@ == b.args_sets.method_generic_types.items@
    &&& a.args_sets.trait_generic_lifetimes.items@ == b.args_sets.trait_generic_lifetimes.items@
    &&& a.args_sets.trait_generic_consts.items@ == b.args_sets.trait_generic_consts.items@
    &&& a.args_sets.self_lifetime_bounds.items@ == b.args_sets.self_lifetime_bounds.items@
    &&& a.args_sets.self_trait_bounds.items@ == b.args_sets.self_trait_bounds.items@
    &&& a.args_sets.trait_lifetime_bounds.items@ == b.args_sets.trait_lifetime_bounds.items@
    &&& a.args_sets.trait_type_bounds.items@ == b.args_sets.trait_type_bounds.items@
    &&& a.args_sets.trait_const_items.items@ == b.args_sets.trait_const_items.items@
    &&& a.args_sets.trait_assoc_type_items.items@ == b.args_sets.trait_assoc_type_items.items@
    &&& a.args_sets.method_generic_lifetimes.items@ == b.args_sets.method_generic_lifetimes.items@
    &&& a.args_sets.method_generic_consts.items@ == b.args_sets.method_generic_consts.items@
    &&& a.where_predicates@ == b.where_predicates@
}

/// Analysis is deterministic: a successful result is a function of the
/// method and the trait context alone, so two results for the same input
/// are structurally identical — no hidden state, no counters.
pub proof fn lemma_analysis_deterministic(
    m: MethodAst,
    t: TraitContext,
    a: TraitItemMethodInfo,
    b: TraitItemMethodInfo,
)
    requires
        info_matches(a, m, t),
        info_matches(b, m, t),
    ensures
        same_info(a, b),
{
    assert(a.args_sets.trait_generic_lifetimes.items@ =~= b.args_sets.trait_generic_lifetimes.items@);
    assert(a.args_sets.trait_generic_consts.items@ =~= b.args_sets.trait_generic_consts.items@);
    assert(a.args_sets.self_lifetime_bounds.items@ =~= b.args_sets.self_lifetime_bounds.items@);
    assert(a.args_sets.self_trait_bounds.items@ =~= b.args_sets.self_trait_bounds.items@);
    assert(a.args_sets.trait_lifetime_bounds.items@ =~= b.args_sets.trait_lifetime_bounds.items@);
    assert(a.args_sets.trait_type_bounds.items@ =~= b.args_sets.trait_type_bounds.items@);
    assert(a.args_sets.trait_const_items.items@ =~= b.args_sets.trait_const_items.items@);
    assert(a.args_sets.trait_assoc_type_items.items@ =~= b.args_sets.trait_assoc_type_items.items@);
    assert(a.args_sets.method_generic_lifetimes.items@ =~= b.args_sets.method_generic_lifetimes.items@);
    assert(a.args_sets.method_generic_consts.items@ =~= b.args_sets.method_generic_consts.items@);
}

} // verus!
