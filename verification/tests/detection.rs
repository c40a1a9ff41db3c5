use linkd::cli::unlink_result;
use linkd::composer::resolve_vendor_target;
use linkd::cargo::detect_cargo;
use linkd::dart::detect_dart;
use linkd::dispatch::{build_allowlist_for_link, resolve_for_reconcile};
use linkd::dotnet::detect_dotnet;
use linkd::elixir::detect_elixir;
use linkd::fs::{EntryKind, FileText, FsEntry, FsView};
use linkd::go::detect_go;
use linkd::jvm::detect_jvm;
use linkd::model::{Ecosystem, IsolationMode, LinkEntry, LinkMode, LinkSyncStatus};
use linkd::monitor::{level_class, pid_text, LevelClass, MonitorState};
use linkd::python::detect_python;
use linkd::ruby::detect_ruby;
use linkd::swift::detect_swift;

fn dir(path: &str) -> FsEntry {
    FsEntry { path: path.to_string(), kind: EntryKind::Dir, text: FileText::Unread, canonical: None }
}

fn file(path: &str) -> FsEntry {
    FsEntry {
        path: path.to_string(),
        kind: EntryKind::File,
        text: FileText::Text(String::new()),
        canonical: None,
    }
}

fn view(entries: Vec<FsEntry>) -> FsView {
    FsView { entries }
}

fn link(eco: Ecosystem, name: &str, consumer: &str) -> LinkEntry {
    LinkEntry {
        id: String::new(),
        package_name: name.to_string(),
        source_path: "/w/lib".to_string(),
        consumer_root: consumer.to_string(),
        sync_target: String::new(),
        ecosystem: eco,
        link_mode: LinkMode::PackageManager,
        custom_target: None,
        isolation_mode: IsolationMode::ProjectLocal,
        strategy: "Copy".to_string(),
        last_sync_status: LinkSyncStatus::Pending,
        last_sync_at: None,
        file_count: 0,
    }
}

fn below(p: &str, root: &str) -> bool {
    p == root || p.starts_with(&format!("{}/", root))
}

#[test]
fn detectors_read_source_and_consumer_manifests() {
    let empty = view(vec![]);
    assert!(!detect_dart(&empty, "/s", "/c"));
    assert!(detect_dart(&view(vec![file("/s/pubspec.yaml")]), "/s", "/c"));
    assert!(detect_dart(&view(vec![dir("/c/.dart_tool")]), "/s", "/c"));
    assert!(!detect_dart(&view(vec![dir("/s/pubspec.yaml")]), "/s", "/c"));
    assert!(detect_dotnet(&view(vec![file("/c/App.csproj")]), "/s", "/c"));
    assert!(detect_dotnet(&view(vec![file("/s/Lib.fsproj")]), "/s", "/c"));
    assert!(!detect_dotnet(&view(vec![file("/s/sub/Lib.csproj")]), "/s", "/c"));
    assert!(detect_elixir(&view(vec![file("/c/mix.lock")]), "/s", "/c"));
    assert!(!detect_elixir(&view(vec![file("/s/mix.lock")]), "/s", "/c"));
    assert!(detect_ruby(&view(vec![file("/c/Gemfile")]), "/s", "/c"));
    assert!(!detect_ruby(&empty, "/s", "/c"));
    assert!(detect_swift(&view(vec![file("/s/Package.swift")]), "/s", "/c"));
    assert!(!detect_swift(&empty, "/s", "/c"));
    assert!(detect_go(&view(vec![file("/c/go.work")]), "/s", "/c"));
    assert!(!detect_go(&view(vec![file("/s/go.work")]), "/s", "/c"));
    assert!(detect_cargo(&view(vec![file("/c/Cargo.toml")]), "/s", "/c"));
    assert!(detect_jvm(&view(vec![file("/s/build.gradle.kts")]), "/s", "/c"));
    assert!(!detect_jvm(&empty, "/s", "/c"));
    assert!(detect_python(&view(vec![dir("/c/.venv")]), "/s", "/c"));
    assert!(!detect_python(&view(vec![dir("/s/.venv")]), "/s", "/c"));
}

#[test]
fn log_levels_and_daemon_label() {
    assert_eq!(level_class("ERR"), LevelClass::Error);
    assert_eq!(level_class("ERROR"), LevelClass::Error);
    assert_eq!(level_class("DONE"), LevelClass::Done);
    assert_eq!(level_class("SYNC"), LevelClass::Sync);
    assert_eq!(level_class("HINT"), LevelClass::Hint);
    assert_eq!(level_class("CMD"), LevelClass::Command);
    assert_eq!(level_class("INFO"), LevelClass::Plain);
    assert_eq!(level_class("err"), LevelClass::Plain);
    assert_eq!(pid_text(Some(4242)), "PID 4242");
    assert_eq!(pid_text(Some(0)), "PID 0");
    assert_eq!(pid_text(None), "Running");
}

#[test]
fn selection_starts_empty_and_follows_the_links() {
    let mut m = MonitorState::new(Some(7), 0);
    assert!(m.selected_link().is_none());
    m.replace_links(vec![link(Ecosystem::Cargo, "a", "/w/app"), link(Ecosystem::Go, "b", "/w/app")]);
    assert_eq!(m.selected_link().unwrap().package_name, "a");
}

#[test]
fn sync_targets_lie_inside_their_allowlists() {
    let fs = view(vec![
        dir("/w/app"),
        dir("/w/app/.venv"),
        dir("/w/app/.venv/lib"),
        dir("/w/app/.venv/lib/python3.12"),
        dir("/w/app/.venv/lib/python3.12/site-packages"),
    ]);
    let cases = vec![
        (Ecosystem::Npm, "@acme/ui"),
        (Ecosystem::Composer, "acme/lib"),
        (Ecosystem::Python, "my-pkg"),
        (Ecosystem::Go, "github.com/acme/lib"),
        (Ecosystem::Cargo, "acme"),
        (Ecosystem::Jvm, "com.acme:lib"),
        (Ecosystem::Dart, "acme"),
        (Ecosystem::Dotnet, "Acme.Lib"),
        (Ecosystem::Ruby, "acme"),
        (Ecosystem::Swift, "Acme"),
        (Ecosystem::Elixir, "acme"),
    ];
    for (eco, name) in cases {
        let l = link(eco, name, "/w/app");
        let t = resolve_for_reconcile(&fs, &l, &Vec::new()).unwrap();
        let a = build_allowlist_for_link(&l, &t);
        assert!(
            a.allowed_roots.iter().any(|r| below(&t.sync_target, r)),
            "{:?}: {} outside {:?}",
            eco,
            t.sync_target,
            a.allowed_roots
        );
    }
    let mut l = link(Ecosystem::Custom, "lib", "/w/app");
    l.custom_target = Some("/w/out/lib".to_string());
    let t = resolve_for_reconcile(&fs, &l, &Vec::new()).unwrap();
    let a = build_allowlist_for_link(&l, &t);
    assert_eq!(t.sync_target, "/w/out/lib");
    assert_eq!(a.allowed_roots, vec!["/w/out".to_string()]);
}

#[test]
fn composer_names_need_exactly_two_parts() {
    let t = resolve_vendor_target("/w/app", "acme/lib").unwrap();
    assert_eq!(t.sync_target, "/w/app/vendor/acme/lib");
    assert_eq!(t.logical_target, t.sync_target);
    for bad in ["acme", "a/b/c", ""] {
        match resolve_vendor_target("/w/app", bad) {
            Err(linkd::model::LinkdError::Other(m)) => {
                assert_eq!(m, format!("invalid composer package name: {bad}"))
            }
            other => panic!("unexpected {:?}", other),
        }
    }
}

#[test]
fn markers_follow_the_consumer_directories() {
    let none = view(vec![]);
    assert_eq!(linkd::go::completion_markers(&none, "/w/app"), vec!["/w/app/go.mod".to_string()]);
    assert_eq!(linkd::cargo::completion_markers(&none, "/w/app"), vec!["/w/app/Cargo.toml".to_string()]);
    assert_eq!(linkd::jvm::completion_markers(&none, "/w/app"), vec!["/w/app/pom.xml".to_string()]);
    let app = view(vec![dir("/w/app")]);
    assert_eq!(
        linkd::go::completion_markers(&app, "/w/app"),
        vec!["/w/app/go.sum".to_string(), "/w/app/go.work.sum".to_string(), "/w/app/go.work".to_string()]
    );
    assert_eq!(linkd::cargo::completion_markers(&app, "/w/app"), vec!["/w/app/Cargo.lock".to_string()]);
    assert_eq!(linkd::jvm::completion_markers(&app, "/w/app").len(), 5);
    let full = view(vec![dir("/w/app"), dir("/w/app/vendor"), dir("/w/app/.cargo")]);
    assert_eq!(linkd::go::completion_markers(&full, "/w/app").last().unwrap(), "/w/app/vendor/modules.txt");
    assert_eq!(
        linkd::cargo::completion_markers(&full, "/w/app"),
        vec![
            "/w/app/Cargo.lock".to_string(),
            "/w/app/.cargo/config.toml".to_string(),
            "/w/app/.cargo/config".to_string(),
        ]
    );
}

#[test]
fn python_names_fall_back_to_the_directory() {
    let fs = view(vec![dir("/w/my_pkg")]);
    assert_eq!(linkd::python::parse_package_name(&fs, "/w/my_pkg").unwrap(), "my_pkg");
    assert!(linkd::python::parse_package_name(&fs, "/").is_err());
}

#[test]
fn listings_name_each_file_once() {
    let fs = view(vec![file("/w/lib/b.py"), file("/w/lib/a.py"), file("/w/lib/pkg/c.py"), dir("/w/lib/pkg")]);
    let files = linkd::python::list_files(&fs, "/w/lib").unwrap();
    assert_eq!(files, vec!["a.py".to_string(), "b.py".to_string(), "pkg/c.py".to_string()]);
}

#[test]
fn reading_missing_or_directory_paths_fails_as_the_system_does() {
    let fs = view(vec![dir("/w/lib"), FsEntry { path: "/w/lib/big.json".to_string(), kind: EntryKind::File, text: FileText::Unread, canonical: None }]);
    assert_eq!(linkd::fs::read_text_exec(&fs, "/w/lib/package.json"), Err("No such file or directory (os error 2)".to_string()));
    assert_eq!(linkd::fs::read_text_exec(&fs, "/w/lib"), Err("Is a directory (os error 21)".to_string()));
    assert_eq!(linkd::fs::read_text_exec(&fs, "/w/lib/big.json"), Err("file was not read".to_string()));
}

#[test]
fn doctor_counts_each_problem() {
    let fs = view(vec![dir("/w/app"), file("/w/app/.pnp.cjs")]);
    let mut stale = link(Ecosystem::Npm, "ui", "/w/app");
    stale.source_path = "/w/gone".to_string();
    let links = vec![stale, link(Ecosystem::Cargo, "core", "/w/other")];
    let roots: Vec<String> = Vec::new();
    // Yarn PnP and a stale source for the first link, a stale source for the second.
    assert_eq!(linkd::cli::doctor_issue_count(false, &fs, &links, &roots, None, false, false), 3);
    assert_eq!(linkd::cli::doctor_issue_count(true, &fs, &links, &roots, Some(0o100644), true, false), 6);
    assert_eq!(linkd::cli::doctor_issue_count(false, &fs, &Vec::new(), &roots, Some(0o140600), true, true), 0);
}

#[test]
fn unlink_follows_the_daemon_else_the_registry() {
    assert_eq!(unlink_result("ui", Some(Ok(())), false), Ok("✓ Unlinked ui".to_string()));
    assert_eq!(
        unlink_result("ui", Some(Err(linkd::model::LinkdError::Other("refused".to_string()))), true),
        Err("refused".to_string())
    );
    assert_eq!(unlink_result("ui", None, true), Ok("✓ Unlinked ui".to_string()));
    assert_eq!(unlink_result("ui", None, false), Err("no link found for ui".to_string()));
}
