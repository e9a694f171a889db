//! The synthesis step: from a user entry module, the complete plan for the
//! wrapper module — classification, at most one diagnostic, the harness
//! template request, and the placeholder reference to splice the user's
//! module in. The host performs the template load and the module
//! processing; a failed validation never changes or suppresses them.

use vstd::prelude::*;
use vstd::string::*;

use crate::entry::{
    EntryKind, kind_of_path, spec_kind_of_stem, spec_page_path,
};
use crate::exports::{export_verdict, spec_classified_verdict, ExportSurface};
use crate::issue::{missing_export_issue, spec_is_missing_export_issue, Issue};
use crate::strings::spec_file_stem;

verus! {

/// A user entry module as the compiler handed it over: its identifying
/// path, and its export surface where the module supports export
/// introspection at all.
#[derive(Debug)]
pub struct UserModule {
    pub path: String,
    pub exports: Option<ExportSurface>,
}

/// One substitution variable for the harness template.
#[derive(Debug)]
pub struct TemplateBinding {
    pub name: String,
    pub value: String,
}

/// The request handed to the external template engine: which harness file
/// to load, under which project root, and the variables to substitute.
#[derive(Debug)]
pub struct TemplateRequest {
    pub file: String,
    pub project_root: String,
    pub bindings: Vec<TemplateBinding>,
}

/// The one-entry reference mapping the module processor resolves: the
/// placeholder token in the templated source, and the user module that
/// replaces it.
#[derive(Debug)]
pub struct InnerAsset {
    pub key: String,
    pub module: UserModule,
}

/// Everything the host needs to finish the synthesis of the wrapper
/// module, produced for every input: the classification, at most one
/// diagnostic to emit, the template request, and the splice reference.
#[derive(Debug)]
pub struct MiddlewarePlan {
    pub kind: EntryKind,
    pub verdict: bool,
    pub issue: Option<Issue>,
    pub template: TemplateRequest,
    pub inner_asset: InnerAsset,
}

/// A well-formed template request for a module path and a project root:
/// the fixed harness file and exactly the three substitution variables.
/// The verdict plays no part in it.
pub open spec fn spec_template_ok(t: TemplateRequest, path: Seq<char>, root: Seq<char>) -> bool {
    &&& t.file@ == "middleware.js"@
    &&& t.project_root@ == root
    &&& t.bindings@.len() == 3
    &&& t.bindings@[0].name@ == "VAR_USERLAND"@
    &&& t.bindings@[0].value@ == "INNER_MIDDLEWARE_MODULE"@
    &&& t.bindings@[1].name@ == "VAR_DEFINITION_PAGE"@
    &&& t.bindings@[1].value@ == spec_page_path(spec_kind_of_stem(spec_file_stem(path)))
    &&& t.bindings@[2].name@ == "VAR_MODULE_RELATIVE_PATH"@
    &&& t.bindings@[2].value@ == path
}

/// Plan the wrapper module around a user entry module. The entry kind
/// comes from the path stem alone; an issue is produced exactly when the
/// export surface fails the kind's contract; and the template request and
/// splice reference are produced in every case, unchanged by the verdict.
pub fn get_middleware_module(project_root: &str, userland_module: UserModule) -> (r:
    MiddlewarePlan)
    ensures
        r.kind == spec_kind_of_stem(spec_file_stem(userland_module.path@)),
        r.verdict == spec_classified_verdict(r.kind, userland_module.exports),
        r.issue is Some <==> !r.verdict,
        r.issue matches Some(iss) ==> spec_is_missing_export_issue(
            iss,
            r.kind,
            userland_module.path@,
        ),
        spec_template_ok(r.template, userland_module.path@, project_root@),
        r.inner_asset.key@ == "INNER_MIDDLEWARE_MODULE"@,
        r.inner_asset.module == userland_module,
{
    let kind = kind_of_path(userland_module.path.as_str());
    let verdict: bool = match &userland_module.exports {
        Option::Some(surface) => export_verdict(kind, surface),
        Option::None => true,
    };
    let issue: Option<Issue> = if verdict {
        Option::None
    } else {
        Option::Some(missing_export_issue(kind, userland_module.path.as_str()))
    };
    let mut bindings: Vec<TemplateBinding> = Vec::new();
    bindings.push(
        TemplateBinding {
            name: String::from_str("VAR_USERLAND"),
            value: String::from_str("INNER_MIDDLEWARE_MODULE"),
        },
    );
    bindings.push(
        TemplateBinding {
            name: String::from_str("VAR_DEFINITION_PAGE"),
            value: String::from_str(kind.page_path()),
        },
    );
    bindings.push(
        TemplateBinding {
            name: String::from_str("VAR_MODULE_RELATIVE_PATH"),
            value: userland_module.path.clone(),
        },
    );
    let template = TemplateRequest {
        file: String::from_str("middleware.js"),
        project_root: String::from_str(project_root),
        bindings,
    };
    let inner_asset = InnerAsset {
        key: String::from_str("INNER_MIDDLEWARE_MODULE"),
        module: userland_module,
    };
    MiddlewarePlan { kind, verdict, issue, template, inner_asset }
}

/// Validation never shapes synthesis: two well-formed template requests
/// for the same module path and project root agree on the harness file,
/// the root, and every substitution variable, whatever export surfaces or
/// verdicts stood behind them.
pub proof fn lemma_synthesis_independent_of_verdict(
    t1: TemplateRequest,
    t2: TemplateRequest,
    path: Seq<char>,
    root: Seq<char>,
)
    requires
        spec_template_ok(t1, path, root),
        spec_template_ok(t2, path, root),
    ensures
        t1.file@ == t2.file@,
        t1.project_root@ == t2.project_root@,
        t1.bindings@.len() == t2.bindings@.len(),
        forall|i: int|
            0 <= i < t1.bindings@.len() ==> #[trigger] t1.bindings@[i].name@
                == t2.bindings@[i].name@ && t1.bindings@[i].value@ == t2.bindings@[i].value@,
{
    assert forall|i: int| 0 <= i < t1.bindings@.len() implies #[trigger] t1.bindings@[i].name@
        == t2.bindings@[i].name@ && t1.bindings@[i].value@ == t2.bindings@[i].value@ by {
        if i == 0 {
            assert(t1.bindings@[0].name@ == t2.bindings@[0].name@);
        } else if i == 1 {
            assert(t1.bindings@[1].name@ == t2.bindings@[1].name@);
        } else {
            assert(t1.bindings@[2].name@ == t2.bindings@[2].name@);
        }
    }
}

} // verus!
