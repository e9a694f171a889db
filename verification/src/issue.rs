//! The structured diagnostic raised when an entry file misses its required
//! export. Building the record is pure; handing it to the host's sink is
//! the caller's side effect.

use vstd::prelude::*;
use vstd::string::*;

use crate::entry::{EntryKind, spec_function_name, spec_label};
use crate::strings::{file_name, spec_file_name};

verus! {

/// A run of the issue title, either plain text or code-formatted, so a
/// renderer can style the two differently.
#[derive(Debug)]
pub enum StyledText {
    Text(String),
    Code(String),
}

/// The characters of a title run, whichever style it has.
pub open spec fn spec_run_text(run: StyledText) -> Seq<char> {
    match run {
        StyledText::Text(t) => t@,
        StyledText::Code(t) => t@,
    }
}

/// Whether a title run is code-formatted.
pub open spec fn spec_run_is_code(run: StyledText) -> bool {
    run is Code
}

/// The pipeline phase an issue is tagged with; always the transform phase
/// for a missing-export issue.
#[derive(Clone, Copy, Debug, PartialEq, Eq, Structural)]
pub enum IssueStage {
    Transform,
}

/// The severity of an issue; a missing export is always an error.
#[derive(Clone, Copy, Debug, PartialEq, Eq, Structural)]
pub enum IssueSeverity {
    Error,
}

/// A user-facing diagnostic record: fixed stage and severity, the path of
/// the offending file, a styled title, and no description.
#[derive(Debug)]
pub struct Issue {
    pub stage: IssueStage,
    pub severity: IssueSeverity,
    pub file_path: String,
    pub title: Vec<StyledText>,
    pub description: Option<String>,
}

/// The seven runs of a missing-export title, in order.
pub open spec fn spec_title_texts(kind: EntryKind, path: Seq<char>) -> Seq<Seq<char>> {
    seq![
        "The "@,
        spec_label(kind),
        " file \""@,
        "./"@ + spec_file_name(path),
        "\" must export a function named "@,
        "`"@ + spec_function_name(kind) + "`"@,
        " or a default function."@,
    ]
}

/// The title runs that are code-formatted: the entry-kind label, the file
/// name, and the expected function name.
pub open spec fn spec_title_run_is_code(i: int) -> bool {
    i == 1 || i == 3 || i == 5
}

/// What a well-formed missing-export issue for `kind` and `path` holds:
/// transform stage, error severity, the file's own path, no description,
/// and exactly the seven title runs with their styles.
pub open spec fn spec_is_missing_export_issue(iss: Issue, kind: EntryKind, path: Seq<char>) -> bool {
    &&& iss.stage is Transform
    &&& iss.severity is Error
    &&& iss.file_path@ == path
    &&& iss.description is None
    &&& iss.title@.len() == 7
    &&& forall|i: int|
        0 <= i < 7 ==> spec_run_text(#[trigger] iss.title@[i]) == spec_title_texts(kind, path)[i]
    &&& forall|i: int|
        0 <= i < 7 ==> (spec_run_is_code(#[trigger] iss.title@[i]) <==> spec_title_run_is_code(i))
}

/// Build the one issue reported for an entry file whose export surface
/// fails the contract for its kind.
pub fn missing_export_issue(kind: EntryKind, file_path: &str) -> (r: Issue)
    ensures
        spec_is_missing_export_issue(r, kind, file_path@),
{
    let name: &str = file_name(file_path);
    let mut dot_name: String = String::from_str("./");
    dot_name.append(name);
    let mut ticked: String = String::from_str("`");
    ticked.append(kind.function_name());
    ticked.append("`");
    let mut title: Vec<StyledText> = Vec::new();
    title.push(StyledText::Text(String::from_str("The ")));
    title.push(StyledText::Code(String::from_str(kind.label())));
    title.push(StyledText::Text(String::from_str(" file \"")));
    title.push(StyledText::Code(dot_name));
    title.push(StyledText::Text(String::from_str("\" must export a function named ")));
    title.push(StyledText::Code(ticked));
    title.push(StyledText::Text(String::from_str(" or a default function.")));
    let r = Issue {
        stage: IssueStage::Transform,
        severity: IssueSeverity::Error,
        file_path: String::from_str(file_path),
        title,
        description: Option::None,
    };
    proof {
        let texts = spec_title_texts(kind, file_path@);
        assert(spec_run_text(r.title@[5]) == ("`"@ + spec_function_name(kind)) + "`"@);
        assert(("`"@ + spec_function_name(kind)) + "`"@ =~= "`"@ + spec_function_name(kind)
            + "`"@);
        assert forall|i: int| 0 <= i < 7 implies spec_run_text(#[trigger] r.title@[i])
            == texts[i] by {
            if i == 0 {
                assert(spec_run_text(r.title@[0]) == texts[0]);
            } else if i == 1 {
                assert(spec_run_text(r.title@[1]) == texts[1]);
            } else if i == 2 {
                assert(spec_run_text(r.title@[2]) == texts[2]);
            } else if i == 3 {
                assert(spec_run_text(r.title@[3]) == texts[3]);
            } else if i == 4 {
                assert(spec_run_text(r.title@[4]) == texts[4]);
            } else if i == 5 {
                assert(spec_run_text(r.title@[5]) == texts[5]);
            } else {
                assert(spec_run_text(r.title@[6]) == texts[6]);
            }
        }
        assert forall|i: int| 0 <= i < 7 implies (spec_run_is_code(#[trigger] r.title@[i])
            <==> spec_title_run_is_code(i)) by {
            if i == 0 {
                assert(!spec_run_is_code(r.title@[0]));
            } else if i == 1 {
                assert(spec_run_is_code(r.title@[1]));
            } else if i == 2 {
                assert(!spec_run_is_code(r.title@[2]));
            } else if i == 3 {
                assert(spec_run_is_code(r.title@[3]));
            } else if i == 4 {
                assert(!spec_run_is_code(r.title@[4]));
            } else if i == 5 {
                assert(spec_run_is_code(r.title@[5]));
            } else {
                assert(!spec_run_is_code(r.title@[6]));
            }
        }
    }
    r
}

/// The code run that names the expected function holds exactly that name
/// between backticks, so the title always mentions the function the entry
/// kind requires.
pub proof fn lemma_title_names_function(kind: EntryKind, path: Seq<char>)
    ensures
        spec_title_texts(kind, path)[5].len() == spec_function_name(kind).len() + 2,
        spec_title_texts(kind, path)[5].subrange(
            1,
            1 + spec_function_name(kind).len() as int,
        ) =~= spec_function_name(kind),
{
    reveal_strlit("`");
    let name = spec_function_name(kind);
    let run = spec_title_texts(kind, path)[5];
    assert(run == "`"@ + name + "`"@);
    assert(run.subrange(1, 1 + name.len() as int) =~= name);
}

} // verus!
