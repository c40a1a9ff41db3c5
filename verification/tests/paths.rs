use linkd::fs::{EntryKind, FileText, FsEntry, FsView};
use linkd::order::path_order_exec;
use linkd::paths::{file_name_exec, parent_exec, path_join, relative_exec, same_path_exec, starts_with_exec};
use linkd::{elixir, go, python};

fn file(path: &str, text: &str) -> FsEntry {
    FsEntry {
        path: path.to_string(),
        kind: EntryKind::File,
        text: FileText::Text(text.to_string()),
        canonical: None,
    }
}

#[test]
fn join_follows_path_join() {
    assert_eq!(path_join("/a", "b"), "/a/b");
    assert_eq!(path_join("/a/", "b"), "/a/b");
    assert_eq!(path_join("", "b"), "b");
    assert_eq!(path_join("/a", "/etc"), "/etc");
}

#[test]
fn paths_compare_by_components() {
    assert!(same_path_exec("/a//b/./c", "/a/b/c"));
    assert!(!same_path_exec("/a/b", "a/b"));
    assert!(starts_with_exec("/a/b/c", "/a/b"));
    assert!(!starts_with_exec("/a/bc", "/a/b"));
    assert_eq!(path_order_exec("/a/b", "/a/c"), -1);
    assert_eq!(path_order_exec("/a/b", "/a"), 1);
    assert_eq!(path_order_exec("a/b/", "a//b"), 0);
    assert_eq!(path_order_exec("a/..", "a/b"), -1);
    assert_eq!(path_order_exec("Z", "a"), -1);
}

#[test]
fn parents_and_file_names() {
    assert_eq!(parent_exec("/a/b"), Some("/a".to_string()));
    assert_eq!(parent_exec("/a"), Some("/".to_string()));
    assert_eq!(parent_exec("/"), None);
    assert_eq!(parent_exec(""), None);
    assert_eq!(parent_exec("a"), Some("".to_string()));
    assert_eq!(parent_exec("./a/"), Some(".".to_string()));
    assert_eq!(file_name_exec("/a/b.rs"), Some("b.rs".to_string()));
    assert_eq!(file_name_exec("/a/.."), None);
}

#[test]
fn relative_paths_rejoin() {
    let rel = relative_exec("/w/lib/src//x.rs", "/w/lib");
    assert_eq!(rel, "src/x.rs");
    assert!(same_path_exec(&path_join("/w/lib", &rel), "/w/lib/src/x.rs"));
    assert_eq!(relative_exec("/w/lib", "/w/lib"), "");
}

#[test]
fn go_module_paths_skip_empty_parts() {
    let t = go::resolve_go_target("/app", "//github.com//acme/x/").unwrap();
    assert_eq!(t.sync_target, "/app/vendor/github.com/acme/x");
}

#[test]
fn python_names_use_underscores() {
    assert_eq!(python::normalize_name("my-cool-pkg"), "my_cool_pkg");
    let fs = FsView { entries: vec![] };
    let t = python::resolve_python_target(&fs, "/app", "a-b").unwrap();
    assert_eq!(t.sync_target, "/app/.venv/lib/python3.11/site-packages/a_b");
}

#[test]
fn elixir_app_names_stop_at_the_first_non_word_character() {
    let fs = FsView {
        entries: vec![file("/p/mix.exs", "  def project do\n    [app: :café_ü9, version: \"1\"]\n")],
    };
    assert_eq!(elixir::parse_package_name(&fs, "/p").unwrap(), "café_ü9");
}
