//! Classification of a compiled module's export surface, and the validation
//! verdict it yields for an entry kind.

use vstd::prelude::*;

use crate::entry::{EntryKind, spec_function_name, spec_kind_of_stem, kind_of_path};
use crate::strings::{spec_file_stem, str_eq};

verus! {

/// What a compiled module exposes, as a closed set of surface shapes.
/// An exhaustive match over this type decides the validation verdict, so a
/// new shape forces an explicit decision about its verdict.
#[derive(Debug)]
pub enum ExportSurface {
    /// Statically enumerable module exports, by exported name.
    Esm { names: Vec<String> },
    /// Module-exports-style surface; not statically enumerable.
    CommonJs,
    /// A single opaque exported value.
    Value,
    /// A dynamically built namespace object.
    DynamicNamespace,
    /// No export information was produced for the module; the situation is
    /// reported upstream, so it is not judged here.
    NoExportInfo,
    /// The export surface could not be determined, e.g. after a parse
    /// failure upstream; also not judged here.
    Unknown,
    /// A module-exports-style surface confirmed to have no exports at all.
    EmptyCommonJs,
}

/// Whether `names` holds an export called `name`.
pub open spec fn spec_has_export(names: Seq<Seq<char>>, name: Seq<char>) -> bool {
    exists|i: int| 0 <= i < names.len() && names[i] == name
}

/// The validation verdict of an export surface for an entry kind: true
/// unless the surface enumerates names and neither "default" nor the
/// kind's expected function name is among them, or the surface is known
/// to be empty.
pub open spec fn spec_verdict(kind: EntryKind, surface: ExportSurface) -> bool {
    match surface {
        ExportSurface::Esm { names } => spec_has_export(names.deep_view(), "default"@)
            || spec_has_export(names.deep_view(), spec_function_name(kind)),
        ExportSurface::CommonJs => true,
        ExportSurface::Value => true,
        ExportSurface::DynamicNamespace => true,
        ExportSurface::NoExportInfo => true,
        ExportSurface::Unknown => true,
        ExportSurface::EmptyCommonJs => false,
    }
}

/// The verdict when the module may not be exports-introspectable at all:
/// a module without that capability is never penalized.
pub open spec fn spec_classified_verdict(kind: EntryKind, surface: Option<ExportSurface>) -> bool {
    match surface {
        Option::Some(s) => spec_verdict(kind, s),
        Option::None => true,
    }
}

/// Whether `names` holds an export called `name`.
pub fn has_export(names: &Vec<String>, name: &str) -> (r: bool)
    ensures
        r == spec_has_export(names.deep_view(), name@),
{
    let mut i: usize = 0;
    while i < names.len()
        invariant
            0 <= i <= names@.len(),
            forall|j: int| 0 <= j < i ==> names.deep_view()[j] != name@,
        decreases names@.len() - i,
    {
        if str_eq(names[i].as_str(), name) {
            proof {
                assert(names.deep_view()[i as int] == names@[i as int]@);
            }
            return true;
        }
        i = i + 1;
    }
    false
}

/// The validation verdict of an export surface for an entry kind.
pub fn export_verdict(kind: EntryKind, surface: &ExportSurface) -> (r: bool)
    ensures
        r == spec_verdict(kind, *surface),
{
    match surface {
        ExportSurface::Esm { names } => {
            has_export(names, "default") || has_export(names, kind.function_name())
        },
        ExportSurface::CommonJs => true,
        ExportSurface::Value => true,
        ExportSurface::DynamicNamespace => true,
        ExportSurface::NoExportInfo => true,
        ExportSurface::Unknown => true,
        ExportSurface::EmptyCommonJs => false,
    }
}

/// Classify a module: its entry kind, from the stem of its path, and the
/// validation verdict of its export surface for that kind. A module that
/// offers no export surface is treated as satisfying the contract.
pub fn classify(path: &str, surface: Option<&ExportSurface>) -> (r: (EntryKind, bool))
    ensures
        r.0 == spec_kind_of_stem(spec_file_stem(path@)),
        r.1 == match surface {
            Option::Some(s) => spec_verdict(r.0, *s),
            Option::None => true,
        },
{
    let kind = kind_of_path(path);
    let verdict = match surface {
        Option::Some(s) => export_verdict(kind, s),
        Option::None => true,
    };
    (kind, verdict)
}

/// The verdict table for a middleware entry: a named surface passes with a
/// "default" or a "middleware" export and fails with neither; the dynamic,
/// opaque and undetermined surfaces always pass; the surface known to be
/// empty always fails.
pub proof fn lemma_verdict_table_middleware(names: Vec<String>)
    ensures
        spec_has_export(names.deep_view(), "default"@) ==> spec_verdict(
            EntryKind::Middleware,
            ExportSurface::Esm { names },
        ),
        spec_has_export(names.deep_view(), "middleware"@) ==> spec_verdict(
            EntryKind::Middleware,
            ExportSurface::Esm { names },
        ),
        !spec_has_export(names.deep_view(), "default"@) && !spec_has_export(
            names.deep_view(),
            "middleware"@,
        ) ==> !spec_verdict(EntryKind::Middleware, ExportSurface::Esm { names }),
        spec_verdict(EntryKind::Middleware, ExportSurface::CommonJs),
        spec_verdict(EntryKind::Middleware, ExportSurface::Value),
        spec_verdict(EntryKind::Middleware, ExportSurface::DynamicNamespace),
        spec_verdict(EntryKind::Middleware, ExportSurface::NoExportInfo),
        spec_verdict(EntryKind::Middleware, ExportSurface::Unknown),
        !spec_verdict(EntryKind::Middleware, ExportSurface::EmptyCommonJs),
{
}

} // verus!
