//! Insertion-ordered, name-keyed collections: an association list for the
//! generic-parameter and argument mappings, and an insertion-ordered set of
//! names for the classification results. Plain hashed maps guarantee no
//! iteration order, and the order of these collections decides the generic
//! parameter order of every emitted declaration, so the order is kept
//! explicitly.

use vstd::prelude::*;
use crate::ast::ArgType;

verus! {

/// Whether some element of `s` has `x` as its characters. Name lookups
/// compare names by their characters, never by object identity.
pub open spec fn seq_contains_str(s: Seq<String>, x: Seq<char>) -> bool {
    exists|i: int| 0 <= i < s.len() && s[i]@ == x
}

/// `s` extended by `x` unless a string with `x`'s characters is already
/// present: the insertion rule of [`IdentSet`].
pub open spec fn set_push(s: Seq<String>, x: String) -> Seq<String> {
    if seq_contains_str(s, x@) {
        s
    } else {
        s.push(x)
    }
}

/// One binding of an ordered name-keyed map: a name and the full declaration
/// text that the name was declared with.
#[derive(Debug, Clone, PartialEq)]
pub struct ParamEntry {
    pub key: String,
    pub decl: String,
}

/// An insertion-ordered map from a generic parameter's name to its full
/// declaration (bounds included).
#[derive(Debug, Clone, PartialEq)]
pub struct ParamMap {
    pub entries: Vec<ParamEntry>,
}

impl ParamMap {
    /// The keys, in insertion order.
    pub open spec fn keys(&self) -> Seq<String> {
        Seq::new(self.entries@.len(), |i: int| self.entries@[i].key)
    }

    /// The declarations, in insertion order.
    pub open spec fn decls(&self) -> Seq<String> {
        Seq::new(self.entries@.len(), |i: int| self.entries@[i].decl)
    }

    /// Whether a key with the characters `name` is present.
    pub open spec fn contains_name(&self, name: Seq<char>) -> bool {
        exists|i: int| 0 <= i < self.entries@.len() && self.entries@[i].key@ == name
    }

    /// Well-formed: no two entries share a key.
    pub open spec fn wf(&self) -> bool {
        forall|i: int, j: int|
            0 <= i < j < self.entries@.len() ==> self.entries@[i].key@ != self.entries@[j].key@
    }

    pub fn new() -> (r: Self)
        ensures
            r.entries@.len() == 0,
    {
        ParamMap { entries: Vec::new() }
    }

    pub fn len(&self) -> (n: usize)
        ensures
            n == self.entries@.len(),
    {
        self.entries.len()
    }

    pub fn contains_key(&self, name: &String) -> (r: bool)
        ensures
            r == self.contains_name(name@),
    {
        let mut i: usize = 0;
        while i < self.entries.len()
            invariant
                i <= self.entries@.len(),
                forall|j: int| 0 <= j < i ==> self.entries@[j].key@ != name@,
            decreases self.entries@.len() - i,
        {
            if self.entries[i].key == *name {
                assert(self.entries@[i as int].key@ == name@);
                return true;
            }
            i += 1;
        }
        false
    }

    pub fn push_entry(&mut self, key: String, decl: String)
        ensures
            final(self).entries@ == old(self).entries@.push(ParamEntry { key, decl }),
    {
        self.entries.push(ParamEntry { key, decl });
    }
}

/// One binding of the argument mapping: the argument's name and its declared
/// type.
#[derive(Debug, Clone, PartialEq)]
pub struct ArgEntry {
    pub key: String,
    pub ty: ArgType,
}

/// An insertion-ordered map from an argument's name to its declared type.
#[derive(Debug, Clone, PartialEq)]
pub struct ArgMap {
    pub entries: Vec<ArgEntry>,
}

impl ArgMap {
    /// The argument names, in declaration order.
    pub open spec fn keys(&self) -> Seq<String> {
        Seq::new(self.entries@.len(), |i: int| self.entries@[i].key)
    }

    /// Whether an argument with the characters `name` is present.
    pub open spec fn contains_name(&self, name: Seq<char>) -> bool {
        exists|i: int| 0 <= i < self.entries@.len() && self.entries@[i].key@ == name
    }

    /// Well-formed: no two arguments share a name.
    pub open spec fn wf(&self) -> bool {
        forall|i: int, j: int|
            0 <= i < j < self.entries@.len() ==> self.entries@[i].key@ != self.entries@[j].key@
    }

    pub fn new() -> (r: Self)
        ensures
            r.entries@.len() == 0,
    {
        ArgMap { entries: Vec::new() }
    }

    pub fn len(&self) -> (n: usize)
        ensures
            n == self.entries@.len(),
    {
        self.entries.len()
    }

    pub fn push_entry(&mut self, key: String, ty: ArgType)
        ensures
            final(self).entries@ == old(self).entries@.push(ArgEntry { key, ty }),
    {
        self.entries.push(ArgEntry { key, ty });
    }
}

/// An insertion-ordered set of names: inserting a name that is already
/// present (by characters) leaves the set unchanged.
#[derive(Debug, Clone, PartialEq)]
pub struct IdentSet {
    pub items: Vec<String>,
}

impl IdentSet {
    /// Whether a name with the characters `name` is present.
    pub open spec fn contains_name(&self, name: Seq<char>) -> bool {
        seq_contains_str(self.items@, name)
    }

    /// Well-formed: no two names share their characters.
    pub open spec fn wf(&self) -> bool {
        forall|i: int, j: int|
            0 <= i < j < self.items@.len() ==> self.items@[i]@ != self.items@[j]@
    }

    pub fn new() -> (r: Self)
        ensures
            r.items@.len() == 0,
    {
        IdentSet { items: Vec::new() }
    }

    pub fn contains(&self, name: &String) -> (r: bool)
        ensures
            r == self.contains_name(name@),
    {
        let mut i: usize = 0;
        while i < self.items.len()
            invariant
                i <= self.items@.len(),
                forall|j: int| 0 <= j < i ==> self.items@[j]@ != name@,
            decreases self.items@.len() - i,
        {
            if self.items[i] == *name {
                assert(self.items@[i as int]@ == name@);
                return true;
            }
            i += 1;
        }
        false
    }

    pub fn insert(&mut self, name: String)
        ensures
            final(self).items@ == set_push(old(self).items@, name),
    {
        if !self.contains(&name) {
            self.items.push(name);
        }
    }
}

/// Clones a vector of strings, element for element.
pub fn clone_strings(v: &Vec<String>) -> (r: Vec<String>)
    ensures
        r@ == v@,
{
    let mut out: Vec<String> = Vec::new();
    let mut i: usize = 0;
    while i < v.len()
        invariant
            i <= v@.len(),
            out@ =~= v@.take(i as int),
        decreases v@.len() - i,
    {
        out.push(v[i].clone());
        i += 1;
    }
    proof {
        assert(v@.take(v@.len() as int) =~= v@);
    }
    out
}

} // verus!
