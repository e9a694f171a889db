//! The logical role of a user entry file: edge middleware or proxy.

use vstd::prelude::*;

use crate::strings::{file_stem, spec_file_stem, str_eq};

verus! {

/// The role of a user entry file, decided by its file stem: a stem of
/// exactly "proxy" makes a proxy entry, any other stem a middleware entry.
#[derive(Clone, Copy, Debug, PartialEq, Eq, Structural)]
pub enum EntryKind {
    Middleware,
    Proxy,
}

/// Human-readable label of the entry kind, used in diagnostics.
pub open spec fn spec_label(kind: EntryKind) -> Seq<char> {
    match kind {
        EntryKind::Middleware => "Middleware"@,
        EntryKind::Proxy => "Proxy"@,
    }
}

/// The named export the runtime contract expects from the entry file.
pub open spec fn spec_function_name(kind: EntryKind) -> Seq<char> {
    match kind {
        EntryKind::Middleware => "middleware"@,
        EntryKind::Proxy => "proxy"@,
    }
}

/// The fixed logical route path of the entry kind; part of the runtime
/// contract the harness template expects.
pub open spec fn spec_page_path(kind: EntryKind) -> Seq<char> {
    match kind {
        EntryKind::Middleware => "/middleware"@,
        EntryKind::Proxy => "/proxy"@,
    }
}

/// The entry kind of a file stem: Proxy exactly for the stem "proxy".
pub open spec fn spec_kind_of_stem(stem: Seq<char>) -> EntryKind {
    if stem == "proxy"@ {
        EntryKind::Proxy
    } else {
        EntryKind::Middleware
    }
}

impl EntryKind {
    pub fn label(&self) -> (r: &'static str)
        ensures
            r@ == spec_label(*self),
    {
        match self {
            EntryKind::Middleware => "Middleware",
            EntryKind::Proxy => "Proxy",
        }
    }

    pub fn function_name(&self) -> (r: &'static str)
        ensures
            r@ == spec_function_name(*self),
    {
        match self {
            EntryKind::Middleware => "middleware",
            EntryKind::Proxy => "proxy",
        }
    }

    pub fn page_path(&self) -> (r: &'static str)
        ensures
            r@ == spec_page_path(*self),
    {
        match self {
            EntryKind::Middleware => "/middleware",
            EntryKind::Proxy => "/proxy",
        }
    }
}

/// The entry kind of a file stem.
pub fn kind_of_stem(stem: &str) -> (k: EntryKind)
    ensures
        k == spec_kind_of_stem(stem@),
{
    if str_eq(stem, "proxy") {
        EntryKind::Proxy
    } else {
        EntryKind::Middleware
    }
}

/// The entry kind of a module, read off the stem of its path.
pub fn kind_of_path(path: &str) -> (k: EntryKind)
    ensures
        k == spec_kind_of_stem(spec_file_stem(path@)),
{
    kind_of_stem(file_stem(path))
}

/// A stem maps to Proxy exactly when it is the whole word "proxy":
/// a stem that merely begins or ends with it still means middleware.
pub proof fn lemma_kind_is_proxy_iff_stem_is_proxy(stem: Seq<char>)
    ensures
        spec_kind_of_stem(stem) is Proxy <==> stem == "proxy"@,
{
}

} // verus!
