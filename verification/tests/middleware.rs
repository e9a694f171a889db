use middleware_entry::entry::EntryKind;
use middleware_entry::entry::{kind_of_path, kind_of_stem};
use middleware_entry::exports::{classify, export_verdict, has_export, ExportSurface};
use middleware_entry::files::middleware_files;
use middleware_entry::issue::{missing_export_issue, IssueSeverity, IssueStage, StyledText};
use middleware_entry::strings::{file_name, file_stem, last_index_of, str_eq};
use middleware_entry::synthesis::{get_middleware_module, MiddlewarePlan, UserModule};

fn owned(items: &[&str]) -> Vec<String> {
    items.iter().map(|s| String::from(*s)).collect()
}

fn run_text(run: &StyledText) -> &str {
    match run {
        StyledText::Text(t) => t.as_str(),
        StyledText::Code(t) => t.as_str(),
    }
}

fn title_string(title: &[StyledText]) -> String {
    let mut joined = String::new();
    for run in title {
        joined.push_str(run_text(run));
    }
    joined
}

#[test]
fn filenames_cross_product() {
    let files = middleware_files(&owned(&["ts", "js"]));
    assert_eq!(files.len(), 8);
    assert_eq!(
        files,
        owned(&[
            "middleware.ts",
            "middleware.js",
            "src/middleware.ts",
            "src/middleware.js",
            "proxy.ts",
            "proxy.js",
            "src/proxy.ts",
            "src/proxy.js",
        ])
    );
}

#[test]
fn filenames_single_extension() {
    let files = middleware_files(&owned(&["ts"]));
    assert_eq!(
        files,
        owned(&["middleware.ts", "src/middleware.ts", "proxy.ts", "src/proxy.ts"])
    );
}

#[test]
fn filenames_empty() {
    let files = middleware_files(&Vec::new());
    assert!(files.is_empty());
}

#[test]
fn filenames_keep_duplicates() {
    let files = middleware_files(&owned(&["js", "js"]));
    assert_eq!(files.len(), 8);
    assert_eq!(files[0], "middleware.js");
    assert_eq!(files[1], "middleware.js");
}

#[test]
fn entry_kind_exact_stem_match() {
    assert_eq!(kind_of_stem("middleware"), EntryKind::Middleware);
    assert_eq!(kind_of_stem("proxy"), EntryKind::Proxy);
    assert_eq!(kind_of_stem("proxy-old"), EntryKind::Middleware);
    assert_eq!(kind_of_stem("proxyx"), EntryKind::Middleware);
    assert_eq!(kind_of_stem(""), EntryKind::Middleware);
}

#[test]
fn entry_kind_from_path() {
    assert_eq!(kind_of_path("middleware.ts"), EntryKind::Middleware);
    assert_eq!(kind_of_path("src/proxy.ts"), EntryKind::Proxy);
    assert_eq!(kind_of_path("a/b/proxy.js"), EntryKind::Proxy);
    assert_eq!(kind_of_path("src/proxy-old.ts"), EntryKind::Middleware);
    assert_eq!(kind_of_path("proxy"), EntryKind::Proxy);
}

#[test]
fn path_helpers() {
    assert_eq!(file_name("a/b/c.txt"), "c.txt");
    assert_eq!(file_name("c.txt"), "c.txt");
    assert_eq!(file_name("a/b/"), "");
    assert_eq!(file_stem("a/b/c.txt"), "c");
    assert_eq!(file_stem("noext"), "noext");
    assert_eq!(file_stem("a/b/.env"), ".env");
    assert_eq!(file_stem("a.b.c"), "a.b");
    assert_eq!(file_stem("dir.v/file"), "file");
    assert!(str_eq("proxy", "proxy"));
    assert!(!str_eq("proxy", "proxy-old"));
    assert_eq!(last_index_of("a/b/c", '/'), Some(3));
    assert_eq!(last_index_of("abc", '/'), None);
}

#[test]
fn verdict_table_middleware() {
    let kind = EntryKind::Middleware;
    assert!(export_verdict(kind, &ExportSurface::Esm { names: owned(&["default"]) }));
    assert!(export_verdict(kind, &ExportSurface::Esm { names: owned(&["middleware"]) }));
    assert!(!export_verdict(kind, &ExportSurface::Esm { names: owned(&["handler"]) }));
    assert!(!export_verdict(kind, &ExportSurface::Esm { names: owned(&[]) }));
    assert!(export_verdict(kind, &ExportSurface::CommonJs));
    assert!(export_verdict(kind, &ExportSurface::Value));
    assert!(export_verdict(kind, &ExportSurface::DynamicNamespace));
    assert!(export_verdict(kind, &ExportSurface::NoExportInfo));
    assert!(export_verdict(kind, &ExportSurface::Unknown));
    assert!(!export_verdict(kind, &ExportSurface::EmptyCommonJs));
}

#[test]
fn verdict_table_proxy() {
    let kind = EntryKind::Proxy;
    assert!(export_verdict(kind, &ExportSurface::Esm { names: owned(&["proxy"]) }));
    assert!(!export_verdict(kind, &ExportSurface::Esm { names: owned(&["middleware"]) }));
    assert!(export_verdict(kind, &ExportSurface::Esm { names: owned(&["default"]) }));
    assert!(!export_verdict(kind, &ExportSurface::EmptyCommonJs));
}

#[test]
fn has_export_finds_names() {
    let names = owned(&["alpha", "default", "beta"]);
    assert!(has_export(&names, "default"));
    assert!(has_export(&names, "beta"));
    assert!(!has_export(&names, "middleware"));
    assert!(!has_export(&Vec::new(), "default"));
}

#[test]
fn classify_without_capability_is_satisfied() {
    let (kind, verdict) = classify("middleware.ts", None);
    assert_eq!(kind, EntryKind::Middleware);
    assert!(verdict);
    let (kind, verdict) = classify("proxy.ts", None);
    assert_eq!(kind, EntryKind::Proxy);
    assert!(verdict);
}

#[test]
fn classify_reads_stem_and_surface() {
    let empty = ExportSurface::EmptyCommonJs;
    let (kind, verdict) = classify("src/proxy.js", Some(&empty));
    assert_eq!(kind, EntryKind::Proxy);
    assert!(!verdict);
    let named = ExportSurface::Esm { names: owned(&["proxy"]) };
    let (kind, verdict) = classify("src/proxy.js", Some(&named));
    assert_eq!(kind, EntryKind::Proxy);
    assert!(verdict);
}

#[test]
fn middleware_default_export_scenario() {
    let files = middleware_files(&owned(&["ts"]));
    assert!(files.contains(&String::from("middleware.ts")));
    let user = UserModule {
        path: String::from("middleware.ts"),
        exports: Some(ExportSurface::Esm { names: owned(&["default"]) }),
    };
    let plan = get_middleware_module("/project", user);
    assert_eq!(plan.kind, EntryKind::Middleware);
    assert!(plan.verdict);
    assert!(plan.issue.is_none());
    assert_eq!(plan.template.file, "middleware.js");
    assert_eq!(plan.template.project_root, "/project");
    assert_eq!(plan.template.bindings.len(), 3);
    assert_eq!(plan.template.bindings[0].name, "VAR_USERLAND");
    assert_eq!(plan.template.bindings[0].value, "INNER_MIDDLEWARE_MODULE");
    assert_eq!(plan.template.bindings[1].name, "VAR_DEFINITION_PAGE");
    assert_eq!(plan.template.bindings[1].value, "/middleware");
    assert_eq!(plan.template.bindings[2].name, "VAR_MODULE_RELATIVE_PATH");
    assert_eq!(plan.template.bindings[2].value, "middleware.ts");
    assert_eq!(plan.inner_asset.key, "INNER_MIDDLEWARE_MODULE");
    assert_eq!(plan.inner_asset.module.path, "middleware.ts");
}

#[test]
fn proxy_empty_exports_scenario() {
    let files = middleware_files(&owned(&["js"]));
    assert!(files.contains(&String::from("proxy.js")));
    let user = UserModule {
        path: String::from("proxy.js"),
        exports: Some(ExportSurface::EmptyCommonJs),
    };
    let plan = get_middleware_module("/project", user);
    assert_eq!(plan.kind, EntryKind::Proxy);
    assert!(!plan.verdict);
    let issue = plan.issue.expect("one issue for the failed verdict");
    assert_eq!(issue.stage, IssueStage::Transform);
    assert_eq!(issue.severity, IssueSeverity::Error);
    assert_eq!(issue.file_path, "proxy.js");
    assert!(issue.description.is_none());
    assert_eq!(issue.title.len(), 7);
    assert!(matches!(&issue.title[1], StyledText::Code(label) if label == "Proxy"));
    assert!(matches!(&issue.title[3], StyledText::Code(f) if f == "./proxy.js"));
    assert!(matches!(&issue.title[5], StyledText::Code(f) if f == "`proxy`"));
    let text = title_string(&issue.title);
    assert_eq!(
        text,
        "The Proxy file \"./proxy.js\" must export a function named `proxy` or a default function."
    );
    assert!(text.contains("proxy"));
    assert_eq!(plan.template.bindings[1].value, "/proxy");
    assert_eq!(plan.template.file, "middleware.js");
}

#[test]
fn missing_export_issue_styles() {
    let issue = missing_export_issue(EntryKind::Middleware, "src/middleware.ts");
    assert_eq!(issue.title.len(), 7);
    for (i, run) in issue.title.iter().enumerate() {
        let is_code = matches!(run, StyledText::Code(_));
        assert_eq!(is_code, i == 1 || i == 3 || i == 5);
    }
    assert_eq!(issue.file_path, "src/middleware.ts");
    assert_eq!(
        title_string(&issue.title),
        "The Middleware file \"./middleware.ts\" must export a function named `middleware` \
         or a default function."
    );
}

#[test]
fn verdict_true_emits_no_issue() {
    let surfaces = [
        Some(ExportSurface::Esm { names: owned(&["middleware"]) }),
        Some(ExportSurface::CommonJs),
        Some(ExportSurface::Value),
        Some(ExportSurface::DynamicNamespace),
        Some(ExportSurface::NoExportInfo),
        Some(ExportSurface::Unknown),
        None,
    ];
    for exports in surfaces {
        let user = UserModule { path: String::from("middleware.ts"), exports };
        let plan = get_middleware_module("/project", user);
        assert!(plan.verdict);
        assert!(plan.issue.is_none());
    }
}

#[test]
fn synthesis_is_unconditional() {
    let passing = UserModule {
        path: String::from("middleware.ts"),
        exports: Some(ExportSurface::Esm { names: owned(&["default"]) }),
    };
    let failing = UserModule {
        path: String::from("middleware.ts"),
        exports: Some(ExportSurface::EmptyCommonJs),
    };
    let plan_pass: MiddlewarePlan = get_middleware_module("/project", passing);
    let plan_fail: MiddlewarePlan = get_middleware_module("/project", failing);
    assert!(plan_pass.verdict);
    assert!(!plan_fail.verdict);
    assert_eq!(plan_pass.template.file, plan_fail.template.file);
    assert_eq!(plan_pass.template.project_root, plan_fail.template.project_root);
    assert_eq!(plan_pass.template.bindings.len(), plan_fail.template.bindings.len());
    for (a, b) in plan_pass
        .template
        .bindings
        .iter()
        .zip(plan_fail.template.bindings.iter())
    {
        assert_eq!(a.name, b.name);
        assert_eq!(a.value, b.value);
    }
    assert_eq!(plan_fail.inner_asset.key, "INNER_MIDDLEWARE_MODULE");
    assert_eq!(plan_fail.inner_asset.module.path, "middleware.ts");
}
