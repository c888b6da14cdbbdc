//! The wrapper emitter: given a validated method signature and the trait's
//! generic context, lays out the generated module's structural skeleton —
//! the arguments struct, the phantom marker and the return-type alias, each
//! carrying the merged generic parameter list in a fixed deterministic
//! order — and selects the serialization call-sequence for the argument
//! payload.

use vstd::prelude::*;
use crate::info_extractor::{TraitContext, TraitItemMethodInfo};
use crate::ordered::{ArgEntry, ParamMap, clone_strings};

verus! {

/// The serializer the generated wrapper encodes its arguments with.
#[derive(Clone, Copy, PartialEq, Eq, Structural, Debug)]
pub enum SerializerType {
    JSON,
    Borsh,
}

/// One field of the generated arguments struct: the argument's original
/// name and its declared type, as written.
#[derive(Debug, Clone, PartialEq)]
pub struct Field {
    pub name: String,
    pub ty: String,
}

/// A generic parameter list as emitted: the full declarations (bounds
/// included), the bare identifiers, and the where-clause predicates, each
/// in the fixed merged order.
#[derive(Debug, Clone, PartialEq)]
pub struct GenericsList {
    pub decls: Vec<String>,
    pub idents: Vec<String>,
    pub where_predicates: Vec<String>,
}

/// The generated arguments container: one field per collected argument in
/// declaration order, plus the synthetic phantom field (excluded from
/// serialization) instantiating the marker with `phantom_idents`.
#[derive(Debug, Clone, PartialEq)]
pub struct ArgsStructDecl {
    pub generics: GenericsList,
    pub fields: Vec<Field>,
    pub phantom_idents: Vec<String>,
}

/// The generated phantom marker: generic over the trait's and the method's
/// lifetimes and types only — consts need no drop or variance tracking —
/// with one phantom field per lifetime and per type.
#[derive(Debug, Clone, PartialEq)]
pub struct PhantomMarkerDecl {
    pub generics: GenericsList,
    pub lifetime_idents: Vec<String>,
    pub type_idents: Vec<String>,
}

/// The generated return-type alias: a trivial identity parameterization,
/// carrying the merged generic list; the eventual call's return type passes
/// through unchanged.
#[derive(Debug, Clone, PartialEq)]
pub struct ReturnAliasDecl {
    pub generics: GenericsList,
}

/// The emitted module: a freshly named bundle of the three declarations,
/// with the method's documentation carried over.
#[derive(Debug, Clone, PartialEq)]
pub struct GeneratedModule {
    pub mod_name: String,
    pub docs: Vec<String>,
    pub args_struct: ArgsStructDecl,
    pub phantom_marker: PhantomMarkerDecl,
    pub return_alias: ReturnAliasDecl,
}

// ---------------------------------------------------------------------------
// The deterministic merged orders
// ---------------------------------------------------------------------------

/// The merged generic declarations: trait lifetimes, method lifetimes,
/// trait types, method types, trait consts, method consts — the declared
/// parameter order of every emitted construct.
pub open spec fn merged_decls(t: TraitContext, i: TraitItemMethodInfo) -> Seq<String> {
    t.generic_lifetimes.decls() + i.generic_lifetimes.decls() + t.generic_types.decls()
        + i.generic_types.decls() + t.generic_consts.decls() + i.generic_consts.decls()
}

/// The merged bare identifiers, in the same order as [`merged_decls`].
pub open spec fn merged_idents(t: TraitContext, i: TraitItemMethodInfo) -> Seq<String> {
    t.generic_lifetimes.keys() + i.generic_lifetimes.keys() + t.generic_types.keys()
        + i.generic_types.keys() + t.generic_consts.keys() + i.generic_consts.keys()
}

/// The merged where-clause: the trait's predicates first, in source order,
/// then the method's, in source order. It is empty only when both are.
pub open spec fn merged_where(t: TraitContext, i: TraitItemMethodInfo) -> Seq<String> {
    t.where_predicates@ + i.where_predicates@
}

/// The phantom marker's declarations: the lifetimes/types-only subset of
/// the merged order.
pub open spec fn phantom_decls(t: TraitContext, i: TraitItemMethodInfo) -> Seq<String> {
    t.generic_lifetimes.decls() + i.generic_lifetimes.decls() + t.generic_types.decls()
        + i.generic_types.decls()
}

/// The phantom marker's bare identifiers, in the same order as
/// [`phantom_decls`].
pub open spec fn phantom_idents(t: TraitContext, i: TraitItemMethodInfo) -> Seq<String> {
    t.generic_lifetimes.keys() + i.generic_lifetimes.keys() + t.generic_types.keys()
        + i.generic_types.keys()
}

/// The arguments struct's fields: one per collected argument, in original
/// declaration order, under the original name and declared type.
pub open spec fn fields_spec(args: Seq<ArgEntry>) -> Seq<Field> {
    Seq::new(args.len(), |k: int| Field { name: args[k].key, ty: args[k].ty.text })
}

/// Whether an emitted generic list carries exactly the given declarations,
/// identifiers and where-clause predicates.
pub open spec fn generics_list_matches(
    g: GenericsList,
    decls: Seq<String>,
    idents: Seq<String>,
    preds: Seq<String>,
) -> bool {
    &&& g.decls@ == decls
    &&& g.idents@ == idents
    &&& g.where_predicates@ == preds
}

/// What emission returns, field by field, as a function of the signature
/// and the trait context alone.
pub open spec fn module_matches(r: GeneratedModule, i: TraitItemMethodInfo, t: TraitContext) -> bool {
    &&& r.mod_name == i.name
    &&& r.docs@ == i.docs@
    &&& generics_list_matches(
        r.args_struct.generics,
        merged_decls(t, i),
        merged_idents(t, i),
        merged_where(t, i),
    )
    &&& r.args_struct.fields@ == fields_spec(i.args.entries@)
    &&& r.args_struct.phantom_idents@ == phantom_idents(t, i)
    &&& generics_list_matches(
        r.phantom_marker.generics,
        phantom_decls(t, i),
        phantom_idents(t, i),
        merged_where(t, i),
    )
    &&& r.phantom_marker.lifetime_idents@ == t.generic_lifetimes.keys()
        + i.generic_lifetimes.keys()
    &&& r.phantom_marker.type_idents@ == t.generic_types.keys() + i.generic_types.keys()
    &&& generics_list_matches(
        r.return_alias.generics,
        merged_decls(t, i),
        merged_idents(t, i),
        merged_where(t, i),
    )
}

// ---------------------------------------------------------------------------
// Exec helpers
// ---------------------------------------------------------------------------

/// Appends the map's declarations, in order.
#[verifier::loop_isolation(false)]
fn push_decls(out: &mut Vec<String>, m: &ParamMap)
    ensures
        final(out)@ == old(out)@ + m.decls(),
{
    let mut i: usize = 0;
    assert(out@ =~= old(out)@ + m.decls().take(0));
    while i < m.entries.len()
        invariant
            i <= m.entries@.len(),
            out@ == old(out)@ + m.decls().take(i as int),
        decreases m.entries@.len() - i,
    {
        out.push(m.entries[i].decl.clone());
        proof {
            assert(m.decls()[i as int] == m.entries@[i as int].decl);
            assert(old(out)@ + m.decls().take(i as int + 1) =~= (old(out)@ + m.decls().take(
                i as int,
            )).push(m.entries@[i as int].decl));
        }
        i += 1;
    }
    proof {
        assert(m.decls().take(m.entries@.len() as int) =~= m.decls());
    }
}

/// Appends the map's keys, in order.
#[verifier::loop_isolation(false)]
fn push_keys(out: &mut Vec<String>, m: &ParamMap)
    ensures
        final(out)@ == old(out)@ + m.keys(),
{
    let mut i: usize = 0;
    assert(out@ =~= old(out)@ + m.keys().take(0));
    while i < m.entries.len()
        invariant
            i <= m.entries@.len(),
            out@ == old(out)@ + m.keys().take(i as int),
        decreases m.entries@.len() - i,
    {
        out.push(m.entries[i].key.clone());
        proof {
            assert(m.keys()[i as int] == m.entries@[i as int].key);
            assert(old(out)@ + m.keys().take(i as int + 1) =~= (old(out)@ + m.keys().take(
                i as int,
            )).push(m.entries@[i as int].key));
        }
        i += 1;
    }
    proof {
        assert(m.keys().take(m.entries@.len() as int) =~= m.keys());
    }
}

/// Appends clones of the given strings, in order.
#[verifier::loop_isolation(false)]
fn push_strings(out: &mut Vec<String>, v: &Vec<String>)
    ensures
        final(out)@ == old(out)@ + v@,
{
    let mut i: usize = 0;
    assert(out@ =~= old(out)@ + v@.take(0));
    while i < v.len()
        invariant
            i <= v@.len(),
            out@ == old(out)@ + v@.take(i as int),
        decreases v@.len() - i,
    {
        out.push(v[i].clone());
        proof {
            assert(old(out)@ + v@.take(i as int + 1) =~= (old(out)@ + v@.take(i as int)).push(
                v@[i as int],
            ));
        }
        i += 1;
    }
    proof {
        assert(v@.take(v@.len() as int) =~= v@);
    }
}

/// Builds the merged declarations list: trait lifetimes, method lifetimes,
/// trait types, method types, trait consts, method consts.
fn build_merged_decls(t: &TraitContext, i: &TraitItemMethodInfo) -> (r: Vec<String>)
    ensures
        r@ == merged_decls(*t, *i),
{
    let mut out: Vec<String> = Vec::new();
    push_decls(&mut out, &t.generic_lifetimes);
    push_decls(&mut out, &i.generic_lifetimes);
    push_decls(&mut out, &t.generic_types);
    push_decls(&mut out, &i.generic_types);
    push_decls(&mut out, &t.generic_consts);
    push_decls(&mut out, &i.generic_consts);
    proof {
        assert(out@ =~= merged_decls(*t, *i));
    }
    out
}

/// Builds the merged identifier list, in the same order as the merged
/// declarations.
fn build_merged_idents(t: &TraitContext, i: &TraitItemMethodInfo) -> (r: Vec<String>)
    ensures
        r@ == merged_idents(*t, *i),
{
    let mut out: Vec<String> = Vec::new();
    push_keys(&mut out, &t.generic_lifetimes);
    push_keys(&mut out, &i.generic_lifetimes);
    push_keys(&mut out, &t.generic_types);
    push_keys(&mut out, &i.generic_types);
    push_keys(&mut out, &t.generic_consts);
    push_keys(&mut out, &i.generic_consts);
    proof {
        assert(out@ =~= merged_idents(*t, *i));
    }
    out
}

/// Builds the merged where-clause: the trait's predicates, then the
/// method's.
fn build_merged_where(t: &TraitContext, i: &TraitItemMethodInfo) -> (r: Vec<String>)
    ensures
        r@ == merged_where(*t, *i),
{
    let mut out: Vec<String> = Vec::new();
    push_strings(&mut out, &t.where_predicates);
    push_strings(&mut out, &i.where_predicates);
    proof {
        assert(out@ =~= merged_where(*t, *i));
    }
    out
}

/// Builds the phantom marker's lifetimes/types-only declaration list.
fn build_phantom_decls(t: &TraitContext, i: &TraitItemMethodInfo) -> (r: Vec<String>)
    ensures
        r@ == phantom_decls(*t, *i),
{
    let mut out: Vec<String> = Vec::new();
    push_decls(&mut out, &t.generic_lifetimes);
    push_decls(&mut out, &i.generic_lifetimes);
    push_decls(&mut out, &t.generic_types);
    push_decls(&mut out, &i.generic_types);
    proof {
        assert(out@ =~= phantom_decls(*t, *i));
    }
    out
}

/// Builds the phantom marker's lifetimes/types-only identifier list.
fn build_phantom_idents(t: &TraitContext, i: &TraitItemMethodInfo) -> (r: Vec<String>)
    ensures
        r@ == phantom_idents(*t, *i),
{
    let mut out: Vec<String> = Vec::new();
    push_keys(&mut out, &t.generic_lifetimes);
    push_keys(&mut out, &i.generic_lifetimes);
    push_keys(&mut out, &t.generic_types);
    push_keys(&mut out, &i.generic_types);
    proof {
        assert(out@ =~= phantom_idents(*t, *i));
    }
    out
}

/// Builds the arguments struct's field list, one field per argument in
/// declaration order.
#[verifier::loop_isolation(false)]
fn build_fields(i: &TraitItemMethodInfo) -> (r: Vec<Field>)
    ensures
        r@ == fields_spec(i.args.entries@),
{
    let mut out: Vec<Field> = Vec::new();
    let mut k: usize = 0;
    assert(out@ =~= fields_spec(i.args.entries@.take(0)));
    while k < i.args.entries.len()
        invariant
            k <= i.args.entries@.len(),
            out@ == fields_spec(i.args.entries@.take(k as int)),
        decreases i.args.entries@.len() - k,
    {
        let e = &i.args.entries[k];
        out.push(Field { name: e.key.clone(), ty: e.ty.text.clone() });
        proof {
            assert(fields_spec(i.args.entries@.take(k as int + 1)) =~= fields_spec(
                i.args.entries@.take(k as int),
            ).push(Field { name: i.args.entries@[k as int].key, ty: i.args.entries@[k as int].ty.text }));
        }
        k += 1;
    }
    proof {
        assert(i.args.entries@.take(i.args.entries@.len() as int) =~= i.args.entries@);
    }
    out
}

// ---------------------------------------------------------------------------
// The emitter
// ---------------------------------------------------------------------------

impl TraitItemMethodInfo {
    /// Emits the generated module's structural skeleton for this method:
    /// the arguments struct, the phantom marker and the return-type alias,
    /// each carrying the merged generic parameter list — trait lifetimes,
    /// method lifetimes, trait types, method types, trait consts, method
    /// consts (the phantom marker takes the lifetimes/types-only subset) —
    /// and the merged where-clause, the trait's predicates before the
    /// method's.
    pub fn method_wrapper(&self, trait_info: &TraitContext) -> (r: GeneratedModule)
        ensures
            module_matches(r, *self, *trait_info),
    {
        let args_struct = ArgsStructDecl {
            generics: GenericsList {
                decls: build_merged_decls(trait_info, self),
                idents: build_merged_idents(trait_info, self),
                where_predicates: build_merged_where(trait_info, self),
            },
            fields: build_fields(self),
            phantom_idents: build_phantom_idents(trait_info, self),
        };
        let phantom_marker = PhantomMarkerDecl {
            generics: GenericsList {
                decls: build_phantom_decls(trait_info, self),
                idents: build_phantom_idents(trait_info, self),
                where_predicates: build_merged_where(trait_info, self),
            },
            lifetime_idents: {
                let mut out: Vec<String> = Vec::new();
                push_keys(&mut out, &trait_info.generic_lifetimes);
                push_keys(&mut out, &self.generic_lifetimes);
                out
            },
            type_idents: {
                let mut out: Vec<String> = Vec::new();
                push_keys(&mut out, &trait_info.generic_types);
                push_keys(&mut out, &self.generic_types);
                out
            },
        };
        let return_alias = ReturnAliasDecl {
            generics: GenericsList {
                decls: build_merged_decls(trait_info, self),
                idents: build_merged_idents(trait_info, self),
                where_predicates: build_merged_where(trait_info, self),
            },
        };
        GeneratedModule {
            mod_name: self.name.clone(),
            docs: clone_strings(&self.docs),
            args_struct,
            phantom_marker,
            return_alias,
        }
    }
}

// ---------------------------------------------------------------------------
// The serializer call-sequence
// ---------------------------------------------------------------------------

/// The statements the generated wrapper uses to build its serialized
/// payload: the trivial empty payload when there are no arguments, else one
/// encoding call naming the chosen serializer, expected to succeed, whose
/// failure aborts with a fixed message naming that serializer. The
/// surrounding struct declaration and constructor expression come from the
/// embedding driver.
#[derive(Debug, Clone, PartialEq)]
pub enum SerializerCode {
    EmptyPayload,
    Encoded { serializer: SerializerType, abort_message: String },
}

/// The fixed abort message of a failing encoding call, naming the
/// serializer.
pub open spec fn abort_message_spec(s: SerializerType) -> Seq<char> {
    match s {
        SerializerType::JSON => "Failed to serialize the cross contract args using JSON."@,
        SerializerType::Borsh => "Failed to serialize the cross contract args using Borsh."@,
    }
}

impl TraitItemMethodInfo {
    /// Selects the serialization call-sequence for the signature's argument
    /// payload: an empty payload, with no serializer call, exactly when the
    /// argument set is empty; else one encoding call with the chosen
    /// serializer and its abort message.
    pub fn generate_serialier(info: &TraitItemMethodInfo, serializer: &SerializerType) -> (r:
        SerializerCode)
        ensures
            r is EmptyPayload <==> info.args.entries@.len() == 0,
            r matches SerializerCode::Encoded { serializer: tag, abort_message } ==> tag
                == *serializer && abort_message@ == abort_message_spec(*serializer),
    {
        if info.args.len() == 0 {
            SerializerCode::EmptyPayload
        } else {
            let abort_message = match serializer {
                SerializerType::JSON => "Failed to serialize the cross contract args using JSON.".to_owned(),
                SerializerType::Borsh => "Failed to serialize the cross contract args using Borsh.".to_owned(),
            };
            SerializerCode::Encoded { serializer: *serializer, abort_message }
        }
    }
}

// ---------------------------------------------------------------------------
// Laws of emission
// ---------------------------------------------------------------------------

/// Whether two emitted modules carry the same content, declaration by
/// declaration.
pub open spec fn same_module(a: GeneratedModule, b: GeneratedModule) -> bool {
    &&& a.mod_name == b.mod_name
    &&& a.docs@ == b.docs@
    &&& a.args_struct.generics.decls@ == b.args_struct.generics.decls@
    &&& a.args_struct.generics.idents@ == b.args_struct.generics.idents@
    &&& a.args_struct.generics.where_predicates@ == b.args_struct.generics.where_predicates@
    &&& a.args_struct.fields@ == b.args_struct.fields@
    &&& a.args_struct.phantom_idents@ == b.args_struct.phantom_idents@
    &&& a.phantom_marker.generics.decls@ == b.phantom_marker.generics.decls@
    &&& a.phantom_marker.generics.idents@ == b.phantom_marker.generics.idents@
    &&& a.phantom_marker.generics.where_predicates@ == b.phantom_marker.generics.where_predicates@
    &&& a.phantom_marker.lifetime_idents@ == b.phantom_marker.lifetime_idents@
    &&& a.phantom_marker.type_idents@ == b.phantom_marker.type_idents@
    &&& a.return_alias.generics.decls@ == b.return_alias.generics.decls@
    &&& a.return_alias.generics.idents@ == b.return_alias.generics.idents@
    &&& a.return_alias.generics.where_predicates@ == b.return_alias.generics.where_predicates@
}

/// Emission is deterministic: the module is a function of the signature and
/// the trait context alone, so two modules emitted for the same input are
/// structurally identical — re-running analysis and emission on the same
/// input can produce nothing new.
pub proof fn lemma_emission_deterministic(
    i: TraitItemMethodInfo,
    t: TraitContext,
    a: GeneratedModule,
    b: GeneratedModule,
)
    requires
        module_matches(a, i, t),
        module_matches(b, i, t),
    ensures
        same_module(a, b),
{
}

} // verus!
