use linkd::fs::{EntryKind, FileText, FsEntry, FsView};
use linkd::model::IsolationMode;
use linkd::npm::{resolve_node_modules_target, shadow_target_path, PnpmStoreDetector};
use linkd::validate::validate_link_paths;
use linkd::{cargo, composer, dart, dotnet, elixir, go, jvm, python, ruby, swift};

fn dir(path: &str) -> FsEntry {
    FsEntry { path: path.to_string(), kind: EntryKind::Dir, text: FileText::Unread, canonical: None }
}

fn file(path: &str, text: &str) -> FsEntry {
    FsEntry {
        path: path.to_string(),
        kind: EntryKind::File,
        text: FileText::Text(text.to_string()),
        canonical: None,
    }
}

fn linked(path: &str, canonical: &str) -> FsEntry {
    FsEntry {
        path: path.to_string(),
        kind: EntryKind::Dir,
        text: FileText::Unread,
        canonical: Some(canonical.to_string()),
    }
}

fn view(entries: Vec<FsEntry>) -> FsView {
    FsView { entries }
}

#[test]
fn resolves_cargo_vendor_path() {
    let consumer = "/tmp/t/app";
    let resolved = cargo::resolve_cargo_target(consumer, "my-crate").unwrap();
    assert_eq!(resolved.sync_target, "/tmp/t/app/vendor/my-crate");
}

#[test]
fn resolves_vendor_path() {
    let consumer = "/tmp/t/app";
    let resolved = composer::resolve_vendor_target(consumer, "acme/php-lib").unwrap();
    assert_eq!(resolved.sync_target, "/tmp/t/app/vendor/acme/php-lib");
}

#[test]
fn parses_pubspec_name() {
    let fs = view(vec![file(
        "/tmp/t/pubspec.yaml",
        "name: my_flutter_package\ndescription: A test package\nversion: 1.0.0\n",
    )]);
    let name = dart::parse_package_name(&fs, "/tmp/t").unwrap();
    assert_eq!(name, "my_flutter_package");
}

#[test]
fn parses_csproj_package_id() {
    let fs = view(vec![file(
        "/tmp/t/MyLib.csproj",
        r#"<Project Sdk="Microsoft.NET.Sdk">
  <PropertyGroup>
    <PackageId>Acme.Logging.Core</PackageId>
    <Version>1.0.0</Version>
  </PropertyGroup>
</Project>"#,
    )]);
    let name = dotnet::parse_package_name(&fs, "/tmp/t").unwrap();
    assert_eq!(name, "Acme.Logging.Core");
}

#[test]
fn falls_back_to_csproj_filename_stem() {
    let fs = view(vec![file(
        "/tmp/t/CommonUtils.csproj",
        r#"<Project Sdk="Microsoft.NET.Sdk">
  <PropertyGroup>
    <TargetFramework>net8.0</TargetFramework>
  </PropertyGroup>
</Project>"#,
    )]);
    let name = dotnet::parse_package_name(&fs, "/tmp/t").unwrap();
    assert_eq!(name, "CommonUtils");
}

#[test]
fn parses_mix_exs_atom_app() {
    let fs = view(vec![file(
        "/tmp/t/mix.exs",
        r#"defmodule MyElixirPkg.MixProject do
  use Mix.Project

  def project do
    [
      app: :phoenix_live_tools,
      version: "0.1.0",
      elixir: "~> 1.14",
      deps: deps()
    ]
  end
end"#,
    )]);
    let name = elixir::parse_package_name(&fs, "/tmp/t").unwrap();
    assert_eq!(name, "phoenix_live_tools");
}

#[test]
fn resolves_go_vendor_path() {
    let consumer = "/tmp/t/app";
    let resolved = go::resolve_go_target(consumer, "github.com/example/lib").unwrap();
    assert_eq!(resolved.sync_target, "/tmp/t/app/vendor/github.com/example/lib");
}

#[test]
fn resolves_jvm_libs_path() {
    let consumer = "/tmp/t/app";
    let resolved = jvm::resolve_jvm_target(consumer, "com.acme:java-lib").unwrap();
    assert_eq!(resolved.sync_target, "/tmp/t/app/libs/java-lib");
}

#[test]
fn project_local_target_allowed() {
    let consumer = "/tmp/t/app";
    let target = resolve_node_modules_target(consumer, "my-lib");
    let fs = view(vec![dir(consumer), dir("/tmp/t/app/node_modules"), dir(&target)]);
    let roots: Vec<String> = Vec::new();

    let resolved = PnpmStoreDetector::resolve(&fs, consumer, "my-lib", roots.clone()).unwrap();
    assert_eq!(resolved.isolation_mode, IsolationMode::ProjectLocal);
    assert!(PnpmStoreDetector::assert_never_writes_global_store(&fs, &resolved.sync_target, &roots).is_ok());
}

#[test]
fn global_store_triggers_shadow() {
    let store = "/tmp/t/pnpm-store";
    let consumer = "/tmp/t/app";
    let nm = "/tmp/t/app/node_modules/pkg";
    let pkg_in_store = "/tmp/t/pnpm-store/v3/files/00/pkg";
    let fs = view(vec![
        dir(store),
        dir(consumer),
        dir("/tmp/t/app/node_modules"),
        dir(pkg_in_store),
        file("/tmp/t/pnpm-store/v3/files/00/pkg/index.js", "1"),
        linked(nm, pkg_in_store),
    ]);

    let shadow = shadow_target_path(consumer, "pkg");
    let roots = vec![store.to_string()];
    assert!(PnpmStoreDetector::is_global_store_path_with(&fs, pkg_in_store, &roots));
    assert_ne!(shadow, pkg_in_store);
}

#[test]
fn resolves_site_packages() {
    let consumer = "/tmp/t/app";
    let site = "/tmp/t/app/.venv/Lib/site-packages";
    let fs = view(vec![
        dir(consumer),
        dir("/tmp/t/app/.venv"),
        dir("/tmp/t/app/.venv/Lib"),
        dir(site),
    ]);
    let resolved = python::resolve_python_target(&fs, consumer, "my-package").unwrap();
    assert_eq!(resolved.sync_target, "/tmp/t/app/.venv/Lib/site-packages/my_package");
}

#[test]
fn parses_gemspec_name() {
    let fs = view(vec![file(
        "/tmp/t/my_gem.gemspec",
        r#"Gem::Specification.new do |spec|
  spec.name = "acme-ruby-logger"
  spec.version = "1.0.0"
end"#,
    )]);
    let name = ruby::parse_package_name(&fs, "/tmp/t").unwrap();
    assert_eq!(name, "acme-ruby-logger");
}

#[test]
fn parses_package_swift_name() {
    let fs = view(vec![file(
        "/tmp/t/Package.swift",
        r#"// swift-tools-version: 5.9
import PackageDescription

let package = Package(
    name: "SwiftUiKit",
    platforms: [.macOS(.v13), .iOS(.v16)],
    products: []
)"#,
    )]);
    let name = swift::parse_package_name(&fs, "/tmp/t").unwrap();
    assert_eq!(name, "SwiftUiKit");
}

#[test]
fn rejects_nested_paths() {
    let parent = "/tmp/t/parent";
    let child = "/tmp/t/parent/child";

    assert!(validate_link_paths(parent, child).is_err());
    assert!(validate_link_paths(child, parent).is_err());
}

#[test]
fn allows_sibling_paths() {
    let a = "/tmp/t/a";
    let b = "/tmp/t/b";

    assert!(validate_link_paths(a, b).is_ok());
}
