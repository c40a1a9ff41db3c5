use linkd::adapters::{CargoAdapter, CustomAdapter, EcosystemAdapter, NpmAdapter, PythonAdapter};
use linkd::dispatch::{
    build_allowlist_for_link, completion_markers_for_link, detect_ecosystem, ensure_isolation,
    list_files_for_link, post_sync_hint_for_link, resolve_for_reconcile, resolve_link,
};
use linkd::fs::{EntryKind, FileText, FsEntry, FsView};
use linkd::listing::{list_files_walkdir, ListRule};
use linkd::model::{Ecosystem, IsolationMode, LinkEntry, LinkMode, LinkSyncStatus, LinkdError};
use linkd::npm::{detect_package_manager, pm_label, PackageManager, PnpmStoreDetector};
use linkd::validate::validate_link_paths;
use linkd::{composer, npm, python};

fn dir(path: &str) -> FsEntry {
    FsEntry { path: path.to_string(), kind: EntryKind::Dir, text: FileText::Unread, canonical: None }
}

fn file(path: &str, text: &str) -> FsEntry {
    FsEntry {
        path: path.to_string(),
        kind: EntryKind::File,
        text: FileText::Text(text.to_string()),
        canonical: None,
    }
}

fn unread(path: &str) -> FsEntry {
    FsEntry { path: path.to_string(), kind: EntryKind::File, text: FileText::Unread, canonical: None }
}

fn view(entries: Vec<FsEntry>) -> FsView {
    FsView { entries }
}

fn link(eco: Ecosystem, mode: LinkMode, source: &str, consumer: &str, target: &str) -> LinkEntry {
    LinkEntry {
        id: String::new(),
        package_name: "pkg".to_string(),
        source_path: source.to_string(),
        consumer_root: consumer.to_string(),
        sync_target: target.to_string(),
        ecosystem: eco,
        link_mode: mode,
        custom_target: None,
        isolation_mode: IsolationMode::ProjectLocal,
        strategy: "Copy".to_string(),
        last_sync_status: LinkSyncStatus::Pending,
        last_sync_at: None,
        file_count: 0,
    }
}

#[test]
fn source_manifest_wins_over_consumer() {
    let fs = view(vec![file("/w/lib/go.mod", "module x\n"), file("/w/app/Cargo.toml", "")]);
    assert_eq!(detect_ecosystem(&fs, "/w/lib", "/w/app"), Ecosystem::Go);
    let fs = view(vec![file("/w/app/Cargo.toml", "")]);
    assert_eq!(detect_ecosystem(&fs, "/w/lib", "/w/app"), Ecosystem::Cargo);
    let fs = view(vec![file("/w/lib/composer.json", "{}"), file("/w/lib/package.json", "{}")]);
    assert_eq!(detect_ecosystem(&fs, "/w/lib", "/w/app"), Ecosystem::Npm);
    let fs = view(vec![]);
    assert_eq!(detect_ecosystem(&fs, "/w/lib", "/w/app"), Ecosystem::Npm);
}

#[test]
fn npm_link_resolves_into_node_modules() {
    let fs = view(vec![
        file("/w/lib/package.json", r#"{"name": "@acme/ui", "version": "1.0.0"}"#),
        dir("/w/app"),
        file("/w/app/pnpm-lock.yaml", ""),
    ]);
    let l = resolve_link(&fs, "/w/lib", "/w/app", None, None, &Vec::new()).unwrap();
    assert_eq!(l.package_name, "@acme/ui");
    assert_eq!(l.ecosystem, Ecosystem::Npm);
    assert_eq!(l.sync_target, "/w/app/node_modules/@acme/ui");
    assert_eq!(l.link_mode, LinkMode::PackageManager);
    assert_eq!(l.detected_pm, Some("pnpm".to_string()));
    assert_eq!(l.resolved.isolation_mode, IsolationMode::ProjectLocal);
}

#[test]
fn npm_entry_in_store_gets_a_shadow_copy() {
    let store = "/home/u/.local/share/pnpm/store";
    let fs = view(vec![
        dir(store),
        FsEntry {
            path: "/w/app/node_modules/pkg".to_string(),
            kind: EntryKind::Dir,
            text: FileText::Unread,
            canonical: Some("/home/u/.local/share/pnpm/store/v3/files/ab/pkg".to_string()),
        },
    ]);
    let roots = vec![store.to_string()];
    let t = PnpmStoreDetector::resolve(&fs, "/w/app", "pkg", roots.clone()).unwrap();
    assert_eq!(t.isolation_mode, IsolationMode::Shadow);
    assert_eq!(t.logical_target, "/w/app/node_modules/pkg");
    assert_eq!(t.sync_target, "/w/app/node_modules/.linkd-shadow/pkg");
    assert_eq!(t.forbidden_roots, roots);
    assert_eq!(
        npm::shadow_redirect(&t),
        Some(("/w/app/node_modules/pkg".to_string(), "/w/app/node_modules/.linkd-shadow/pkg".to_string()))
    );
    match PnpmStoreDetector::assert_never_writes_global_store(&fs, "/w/app/node_modules/pkg", &roots) {
        Err(LinkdError::PnpmGlobalStoreForbidden(p)) => assert_eq!(p, "/w/app/node_modules/pkg"),
        other => panic!("unexpected {:?}", other),
    }
    assert!(PnpmStoreDetector::assert_never_writes_global_store(&fs, &t.sync_target, &roots).is_ok());
}

#[test]
fn isolation_refuses_npm_targets_in_store() {
    let store = "/s";
    let fs = view(vec![dir(store)]);
    let roots = vec![store.to_string()];
    let bad = link(Ecosystem::Npm, LinkMode::PackageManager, "/w/lib", "/w/app", "/s/pkg");
    let t = linkd::model::project_local_target("/s/pkg".to_string());
    match ensure_isolation(&fs, &bad, &t, &roots) {
        Err(LinkdError::PnpmGlobalStoreForbidden(p)) => assert_eq!(p, "/s/pkg"),
        other => panic!("unexpected {:?}", other),
    }
    let go = link(Ecosystem::Go, LinkMode::PackageManager, "/w/lib", "/w/app", "/s/pkg");
    assert!(ensure_isolation(&fs, &go, &t, &roots).is_ok());
}

#[test]
fn store_paths_are_found_and_canonical() {
    let fs = view(vec![FsEntry {
        path: "/home/u/.local/share/pnpm/store".to_string(),
        kind: EntryKind::Dir,
        text: FileText::Unread,
        canonical: Some("/data/pnpm/store".to_string()),
    }]);
    let cands = PnpmStoreDetector::store_candidate_paths(Some("/opt/pnpm"), Some("/home/u"), Some("/x".to_string()));
    assert_eq!(
        cands,
        vec![
            "/opt/pnpm/store".to_string(),
            "/home/u/.local/share/pnpm/store".to_string(),
            "/home/u/AppData/Local/pnpm/store".to_string(),
            "/x".to_string(),
        ]
    );
    assert_eq!(PnpmStoreDetector::global_store_paths(&fs, &cands), vec!["/data/pnpm/store".to_string()]);
    assert_eq!(PnpmStoreDetector::store_path_from_output(true, "  /p/store\n"), Some("/p/store".to_string()));
    assert_eq!(PnpmStoreDetector::store_path_from_output(true, " \n"), None);
    assert_eq!(PnpmStoreDetector::store_path_from_output(false, "/p/store"), None);
}

#[test]
fn package_manager_detection_order() {
    let fs = view(vec![file("/a/yarn.lock", ""), file("/a/bun.lockb", "")]);
    assert_eq!(detect_package_manager(&fs, "/a"), PackageManager::Yarn);
    let fs = view(vec![file("/a/node_modules/.package-lock.json", "")]);
    assert_eq!(detect_package_manager(&fs, "/a"), PackageManager::Npm);
    assert_eq!(detect_package_manager(&view(vec![]), "/a"), PackageManager::Unknown);
    assert_eq!(pm_label(PackageManager::Unknown), "unknown");
    assert_eq!(pm_label(PackageManager::Bun), "bun");
}

#[test]
fn nested_link_is_refused_with_its_message() {
    let fs = view(vec![file("/w/lib/Cargo.toml", "[package]\nname = \"x\"\n")]);
    match resolve_link(&fs, "/w/lib", "/w/lib/app", Some(Ecosystem::Custom), Some("/w/lib/out"), &Vec::new()) {
        Err(LinkdError::Other(m)) => {
            assert_eq!(m, "source and target must not be nested (would cause watch loop)")
        },
        other => panic!("unexpected {:?}", other.map(|l| l.sync_target)),
    }
    match validate_link_paths("/w/a", "/w/a") {
        Err(LinkdError::Other(m)) => assert_eq!(m, "source and target must not be the same path"),
        other => panic!("unexpected {:?}", other),
    }
    assert!(validate_link_paths("/w/a", "/w/ab").is_ok());
    assert!(validate_link_paths("/w/a/", "/w/a/b").is_err());
}

#[test]
fn custom_link_needs_its_target() {
    let fs = view(vec![]);
    match resolve_link(&fs, "/w/lib", "/w/app", Some(Ecosystem::Custom), None, &Vec::new()) {
        Err(LinkdError::Other(m)) => assert_eq!(m, "custom target required"),
        other => panic!("unexpected {:?}", other.map(|l| l.sync_target)),
    }
    let l = resolve_link(&fs, "/w/lib", "/w/app", None, Some("/w/app/lib/shared"), &Vec::new()).unwrap();
    assert_eq!(l.ecosystem, Ecosystem::Custom);
    assert_eq!(l.link_mode, LinkMode::CustomPath);
    assert_eq!(l.package_name, "lib");
    assert_eq!(l.detected_pm, None);
}

#[test]
fn name_errors_carry_their_kind() {
    let fs = view(vec![]);
    match resolve_link(&fs, "/w/lib", "/w/app", Some(Ecosystem::Dart), None, &Vec::new()) {
        Err(LinkdError::PackageNotFound(m)) => assert_eq!(m, "pubspec.yaml not found"),
        other => panic!("unexpected {:?}", other.map(|l| l.sync_target)),
    }
    let fs = view(vec![file("/w/lib/package.json", "{ not json")]);
    match npm::parse_package_name(&fs, "/w/lib") {
        Err(LinkdError::NpmPackFailed(m)) => assert!(!m.is_empty()),
        other => panic!("unexpected {:?}", other),
    }
    let fs = view(vec![file("/w/lib/package.json", r#"{"version": "1"}"#)]);
    match npm::parse_package_name(&fs, "/w/lib") {
        Err(LinkdError::NpmPackFailed(m)) => assert_eq!(m, "package.json missing name"),
        other => panic!("unexpected {:?}", other),
    }
    let fs = view(vec![FsEntry {
        path: "/w/lib/composer.json".to_string(),
        kind: EntryKind::File,
        text: FileText::Failed("permission denied".to_string()),
        canonical: None,
    }]);
    match composer::parse_package_name(&fs, "/w/lib") {
        Err(LinkdError::Io { path, message }) => {
            assert_eq!(path, "/w/lib/composer.json");
            assert_eq!(message, "permission denied");
        },
        other => panic!("unexpected {:?}", other),
    }
    match composer::resolve_vendor_target("/w/app", "no-slash") {
        Err(LinkdError::Other(m)) => assert_eq!(m, "invalid composer package name: no-slash"),
        other => panic!("unexpected {:?}", other.map(|t| t.sync_target)),
    }
}

#[test]
fn json_names_come_from_the_name_member() {
    let fs = view(vec![file("/w/lib/composer.json", r#"{"name": "acme/php-lib", "type": "library"}"#)]);
    assert_eq!(composer::parse_package_name(&fs, "/w/lib").unwrap(), "acme/php-lib");
    let fs = view(vec![file("/w/lib/package.json", r#"{"name": "left-pad"}"#)]);
    assert_eq!(npm::parse_package_name(&fs, "/w/lib").unwrap(), "left-pad");
    let fs = view(vec![unread("/w/lib/package.json")]);
    match npm::parse_package_name(&fs, "/w/lib") {
        Err(LinkdError::Io { path, .. }) => assert_eq!(path, "/w/lib/package.json"),
        other => panic!("unexpected {:?}", other),
    }
}

#[test]
fn custom_markers_are_sorted_and_distinct() {
    let fs = view(vec![]);
    let l = link(Ecosystem::Custom, LinkMode::CustomPath, "/w/z", "/w/app", "/w/a");
    assert_eq!(completion_markers_for_link(&fs, &l), vec!["/w/a".to_string(), "/w/z".to_string()]);
    let l = link(Ecosystem::Custom, LinkMode::CustomPath, "/w/a/", "/w/app", "/w/a");
    assert_eq!(completion_markers_for_link(&fs, &l), vec!["/w/a/".to_string()]);
    let l = link(Ecosystem::Cargo, LinkMode::PackageManager, "/w/lib", "/w/app", "/w/app/vendor/x");
    assert_eq!(completion_markers_for_link(&fs, &l), vec!["/w/app/Cargo.toml".to_string()]);
    let fs = view(vec![dir("/w/app")]);
    assert_eq!(
        completion_markers_for_link(&fs, &l),
        vec!["/w/app/Cargo.lock".to_string()]
    );
}

#[test]
fn allowlists_follow_the_ecosystem() {
    let t = linkd::model::ResolvedSyncTarget {
        logical_target: "/w/out/lib".to_string(),
        sync_target: "/w/out/lib".to_string(),
        isolation_mode: IsolationMode::ProjectLocal,
        forbidden_roots: vec!["/s".to_string()],
    };
    let l = link(Ecosystem::Custom, LinkMode::CustomPath, "/w/lib", "/w/app", "/w/out/lib");
    let a = build_allowlist_for_link(&l, &t);
    assert_eq!(a.allowed_roots, vec!["/w/out".to_string()]);
    assert_eq!(a.forbidden_roots, vec!["/s".to_string()]);
    let l = link(Ecosystem::Python, LinkMode::PackageManager, "/w/lib", "/w/app", "/w/out/lib");
    let a = build_allowlist_for_link(&l, &t);
    assert_eq!(
        a.allowed_roots,
        vec!["/w/app/.venv".to_string(), "/w/app/venv".to_string(), "/w/app/env".to_string()]
    );
    let l = link(Ecosystem::Npm, LinkMode::PackageManager, "/w/lib", "/w/app", "/w/out/lib");
    let a = build_allowlist_for_link(&l, &t);
    assert_eq!(a.allowed_roots, vec!["/w/app".to_string()]);
    assert_eq!(a.forbidden_roots, vec!["/s".to_string()]);
    let l = link(Ecosystem::Cargo, LinkMode::PackageManager, "/w/lib", "/w/app", "/w/out/lib");
    let a = build_allowlist_for_link(&l, &t);
    assert_eq!(a.allowed_roots, vec!["/w/app/vendor".to_string(), "/w/app/.cargo".to_string()]);
}

#[test]
fn listings_are_sorted_and_filtered() {
    let fs = view(vec![
        file("/w/lib/src/b.rs", ""),
        file("/w/lib/README.md", ""),
        file("/w/lib/target/debug/x", ""),
        file("/w/lib/a.rs", ""),
        dir("/w/lib/src"),
        file("/w/other/c.rs", ""),
        file("/w/lib/.git/HEAD", ""),
    ]);
    let files = list_files_walkdir(&fs, "/w/lib").unwrap();
    assert_eq!(files, vec!["README.md".to_string(), "a.rs".to_string(), "src/b.rs".to_string()]);
    let fs = view(vec![
        file("/w/py/pkg/__init__.py", ""),
        file("/w/py/pkg/__pycache__/x.pyc", ""),
        file("/w/py/pkg/mod.pyc", ""),
        file("/w/py/dist/pkg.whl", ""),
        file("/w/py/pkg.egg-info/PKG-INFO", ""),
    ]);
    assert_eq!(python::list_files(&fs, "/w/py").unwrap(), vec!["pkg/__init__.py".to_string()]);
    let l = link(Ecosystem::Npm, LinkMode::PackageManager, "/w/lib", "/w/app", "/x");
    assert!(list_files_for_link(&fs, &l).is_none());
    let _ = ListRule::Elixir;
}

#[test]
fn hints_and_reconcile() {
    let fs = view(vec![dir("/w/app/vendor"), file("/w/lib/src/Foo.php", "<?php")]);
    let l = link(Ecosystem::Composer, LinkMode::PackageManager, "/w/lib", "/w/app", "/w/app/vendor/a/b");
    assert_eq!(
        post_sync_hint_for_link(&fs, &l),
        Some("New PHP classes may require: composer dump-autoload (in consumer project)".to_string())
    );
    let l2 = link(Ecosystem::Npm, LinkMode::PackageManager, "/w/lib", "/w/app", "/x");
    assert_eq!(post_sync_hint_for_link(&fs, &l2), None);
    let mut l3 = link(Ecosystem::Custom, LinkMode::CustomPath, "/w/lib", "/w/app", "/w/app/shared");
    l3.custom_target = Some("/w/app/shared".to_string());
    let t = resolve_for_reconcile(&fs, &l3, &Vec::new()).unwrap();
    assert_eq!(t.sync_target, "/w/app/shared");
}

#[test]
fn adapters_share_the_dispatch_contracts() {
    let fs = view(vec![file("/w/lib/Cargo.toml", "[package]\nname = \"my-crate\"\n")]);
    let a = CargoAdapter;
    assert_eq!(a.ecosystem(), Ecosystem::Cargo);
    assert!(a.detect(&fs, "/w/lib", "/w/app"));
    assert_eq!(a.package_name(&fs, "/w/lib").unwrap(), "my-crate");
    assert_eq!(a.write_guard_roots("/w/app"), vec!["/w/app/vendor".to_string()]);
    let c = CustomAdapter;
    assert!(!c.detect(&fs, "/w/lib", "/w/app"));
    assert_eq!(c.write_guard_roots("/w/app"), vec!["/w/app".to_string()]);
    assert!(c.completion_markers(&fs, "/w/app").is_empty());
    let n = NpmAdapter;
    assert!(n.write_guard_roots("/w/app").is_empty());
    let p = PythonAdapter;
    assert_eq!(p.write_guard_roots("/c").len(), 3);
}

#[test]
fn paths_are_compared_in_normal_form() {
    let nested = "source and target must not be nested (would cause watch loop)";
    let same = "source and target must not be the same path";
    for (s, t) in [("/w/foo", "/w/./foo/x"), ("/w//foo", "/w/foo/bar"), ("/w/foo/x/", "/w/foo/."), ("/w/foo", "/w/foo/./x//")] {
        match validate_link_paths(s, t) {
            Err(LinkdError::Other(m)) => assert_eq!(m, nested, "{s} {t}"),
            other => panic!("unexpected {:?} for {s} {t}", other),
        }
    }
    for (s, t) in [("/w/foo/", "/w/foo"), ("/w/./a", "/w/a"), ("/w//a/", "/w/a/.")] {
        match validate_link_paths(s, t) {
            Err(LinkdError::Other(m)) => assert_eq!(m, same, "{s} {t}"),
            other => panic!("unexpected {:?} for {s} {t}", other),
        }
    }
    assert!(validate_link_paths("/w/./foo", "/w/foobar").is_ok());
    assert!(validate_link_paths("/w/a/", "/w/b/").is_ok());
    let fs = view(vec![file("/w/lib/Cargo.toml", "[package]\nname = \"x\"\n")]);
    assert!(resolve_link(&fs, "/w/lib", "/w/app", Some(Ecosystem::Custom), Some("/w/./lib/out"), &Vec::new()).is_err());
}
