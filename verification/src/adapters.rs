//! One adapter per ecosystem: the operations that a sync needs, behind a
//! common trait.

use vstd::prelude::*;
use crate::dispatch::{
    completion_markers_for, hint_of, list_rule, markers_of, name_read_panics, name_result,
    package_name_for, post_sync_hint_for, resolve_target_for, target_result,
};
use crate::fs::{str_views, FsView};
use crate::listing::{strictly_sorted_paths, list_files_with, sorted_paths, walked, ListRule};
use crate::manifest::opt_str;
use crate::model::{res_str, res_target, Ecosystem, LinkdResult, ResolvedSyncTarget};
use crate::paths::{join, path_join};
use crate::{cargo, go, jvm, python};

verus! {

/// Whether an adapter of ecosystem `e` recognises a link from `s` into `c`.
pub open spec fn detect_of(e: Ecosystem, fs: FsView, s: Seq<char>, c: Seq<char>) -> bool {
    match e {
        Ecosystem::Npm => fs.is_file(join(s, "package.json"@)),
        Ecosystem::Composer => fs.is_file(join(s, "composer.json"@)),
        Ecosystem::Python => python::python_detected(fs, s, c),
        Ecosystem::Go => fs.is_file(join(s, "go.mod"@)) || fs.is_file(join(c, "go.mod"@)) || fs.is_file(
            join(c, "go.work"@),
        ),
        Ecosystem::Cargo => fs.is_file(join(s, "Cargo.toml"@)) || fs.is_file(join(c, "Cargo.toml"@)),
        Ecosystem::Jvm => jvm::jvm_markers(s, fs) || jvm::jvm_markers(c, fs),
        _ => false,
    }
}

/// The roots that the write guard of ecosystem `e` watches in consumer `c`.
pub open spec fn guard_roots(e: Ecosystem, c: Seq<char>) -> Seq<Seq<char>> {
    match e {
        Ecosystem::Custom => seq![c],
        Ecosystem::Composer => seq![join(c, "vendor"@)],
        Ecosystem::Python => seq![join(c, ".venv"@), join(c, "venv"@), join(c, "env"@)],
        Ecosystem::Go => seq![join(c, "vendor"@)],
        Ecosystem::Cargo => seq![join(c, "vendor"@)],
        Ecosystem::Jvm => seq![join(c, "libs"@)],
        _ => seq![],
    }
}

/// Per-ecosystem sync operations.
pub trait EcosystemAdapter {
    /// The ecosystem that the adapter serves.
    spec fn kind(&self) -> Ecosystem;

    fn ecosystem(&self) -> (r: Ecosystem)
        ensures
            r == self.kind(),
    ;

    fn detect(&self, fs: &FsView, source: &str, consumer: &str) -> (r: bool)
        ensures
            r == detect_of(self.kind(), *fs, source@, consumer@),
    ;

    fn package_name(&self, fs: &FsView, source: &str) -> (r: LinkdResult<String>)
        requires
            !name_read_panics(self.kind(), *fs, source@),
        ensures
            res_str(r) == name_result(self.kind(), *fs, source@),
    ;

    fn resolve_target(
        &self,
        fs: &FsView,
        consumer: &str,
        package_name: &str,
        custom_target: Option<&str>,
        global_roots: &Vec<String>,
    ) -> (r: LinkdResult<ResolvedSyncTarget>)
        ensures
            res_target(r) == target_result(
                self.kind(),
                *fs,
                consumer@,
                package_name@,
                match custom_target { Some(t) => Some(t@), None => None },
                str_views(global_roots@),
            ),
    ;

    fn completion_markers(&self, fs: &FsView, consumer: &str) -> (r: Vec<String>)
        ensures
            str_views(r@) == markers_of(self.kind(), *fs, consumer@),
    ;

    /// The files of `source` that a sync copies, sorted; `None` for the
    /// ecosystems whose files are not listed from a walk here (see
    /// `list_rule`).
    fn list_files(&self, fs: &FsView, source: &str) -> (r: Option<Vec<String>>)
        ensures
            r matches Some(v) ==> (fs.distinct_paths() && source@.len() > 0 ==> strictly_sorted_paths(str_views(v@))),
            match list_rule(self.kind()) {
                Some(rule) => r matches Some(v) && sorted_paths(str_views(v@)) && str_views(
                    v@,
                ).to_multiset() == walked(*fs, source@, rule, fs.len()).to_multiset(),
                None => r is None,
            },
    ;

    fn write_guard_roots(&self, consumer: &str) -> (r: Vec<String>)
        ensures
            str_views(r@) == guard_roots(self.kind(), consumer@),
    ;

    fn post_sync_hint(&self, fs: &FsView, source: &str, consumer: &str) -> (r: Option<String>)
        ensures
            opt_str(r) == hint_of(self.kind(), *fs, source@, consumer@),
    ;
}

fn list_for(eco: Ecosystem, fs: &FsView, source: &str) -> (r: Option<Vec<String>>)
    ensures
        r matches Some(v) ==> (fs.distinct_paths() && source@.len() > 0 ==> strictly_sorted_paths(str_views(v@))),
        match list_rule(eco) {
            Some(rule) => r matches Some(v) && sorted_paths(str_views(v@)) && str_views(
                v@,
            ).to_multiset() == walked(*fs, source@, rule, fs.len()).to_multiset(),
            None => r is None,
        },
{
    let rule = match eco {
        Ecosystem::Custom => ListRule::Custom,
        Ecosystem::Composer => ListRule::Composer,
        Ecosystem::Python => ListRule::Python,
        Ecosystem::Elixir => ListRule::Elixir,
        _ => {
            return None;
        },
    };
    Some(list_files_with(fs, source, rule))
}

fn guard_roots_for(eco: Ecosystem, consumer: &str) -> (r: Vec<String>)
    ensures
        str_views(r@) == guard_roots(eco, consumer@),
{
    let mut v: Vec<String> = Vec::new();
    match eco {
        Ecosystem::Custom => {
            v.push(consumer.to_owned());
        },
        Ecosystem::Composer | Ecosystem::Go | Ecosystem::Cargo => {
            v.push(path_join(consumer, "vendor"));
        },
        Ecosystem::Python => {
            v.push(path_join(consumer, ".venv"));
            v.push(path_join(consumer, "venv"));
            v.push(path_join(consumer, "env"));
        },
        Ecosystem::Jvm => {
            v.push(path_join(consumer, "libs"));
        },
        _ => {},
    }
    assert(str_views(v@) =~= guard_roots(eco, consumer@));
    v
}

fn detect_for(eco: Ecosystem, fs: &FsView, source: &str, consumer: &str) -> (r: bool)
    ensures
        r == detect_of(eco, *fs, source@, consumer@),
{
    match eco {
        Ecosystem::Npm => fs.is_file_exec(path_join(source, "package.json").as_str()),
        Ecosystem::Composer => fs.is_file_exec(path_join(source, "composer.json").as_str()),
        Ecosystem::Python => python::detect_python(fs, source, consumer),
        Ecosystem::Go => go::detect_go(fs, source, consumer),
        Ecosystem::Cargo => cargo::detect_cargo(fs, source, consumer),
        Ecosystem::Jvm => jvm::detect_jvm(fs, source, consumer),
        _ => false,
    }
}

/// Links into a directory that the user chose.
pub struct CustomAdapter;

/// npm, pnpm, yarn and bun packages.
pub struct NpmAdapter;

/// PHP packages of Composer.
pub struct ComposerAdapter;

/// Python packages.
pub struct PythonAdapter;

/// Go modules.
pub struct GoAdapter;

/// Rust crates.
pub struct CargoAdapter;

/// Maven and Gradle packages.
pub struct JvmAdapter;

impl EcosystemAdapter for CustomAdapter {
    open spec fn kind(&self) -> Ecosystem {
        Ecosystem::Custom
    }

    fn ecosystem(&self) -> (r: Ecosystem) {
        Ecosystem::Custom
    }

    fn detect(&self, fs: &FsView, source: &str, consumer: &str) -> (r: bool) {
        detect_for(Ecosystem::Custom, fs, source, consumer)
    }

    fn package_name(&self, fs: &FsView, source: &str) -> (r: LinkdResult<String>) {
        package_name_for(Ecosystem::Custom, fs, source)
    }

    fn resolve_target(
        &self,
        fs: &FsView,
        consumer: &str,
        package_name: &str,
        custom_target: Option<&str>,
        global_roots: &Vec<String>,
    ) -> (r: LinkdResult<ResolvedSyncTarget>) {
        resolve_target_for(Ecosystem::Custom, fs, consumer, package_name, custom_target, global_roots)
    }

    fn completion_markers(&self, fs: &FsView, consumer: &str) -> (r: Vec<String>) {
        completion_markers_for(Ecosystem::Custom, fs, consumer)
    }

    fn list_files(&self, fs: &FsView, source: &str) -> (r: Option<Vec<String>>) {
        list_for(Ecosystem::Custom, fs, source)
    }

    fn write_guard_roots(&self, consumer: &str) -> (r: Vec<String>) {
        guard_roots_for(Ecosystem::Custom, consumer)
    }

    fn post_sync_hint(&self, fs: &FsView, source: &str, consumer: &str) -> (r: Option<String>) {
        post_sync_hint_for(Ecosystem::Custom, fs, source, consumer)
    }
}

impl EcosystemAdapter for NpmAdapter {
    open spec fn kind(&self) -> Ecosystem {
        Ecosystem::Npm
    }

    fn ecosystem(&self) -> (r: Ecosystem) {
        Ecosystem::Npm
    }

    fn detect(&self, fs: &FsView, source: &str, consumer: &str) -> (r: bool) {
        detect_for(Ecosystem::Npm, fs, source, consumer)
    }

    fn package_name(&self, fs: &FsView, source: &str) -> (r: LinkdResult<String>) {
        package_name_for(Ecosystem::Npm, fs, source)
    }

    fn resolve_target(
        &self,
        fs: &FsView,
        consumer: &str,
        package_name: &str,
        custom_target: Option<&str>,
        global_roots: &Vec<String>,
    ) -> (r: LinkdResult<ResolvedSyncTarget>) {
        resolve_target_for(Ecosystem::Npm, fs, consumer, package_name, custom_target, global_roots)
    }

    fn completion_markers(&self, fs: &FsView, consumer: &str) -> (r: Vec<String>) {
        completion_markers_for(Ecosystem::Npm, fs, consumer)
    }

    fn list_files(&self, fs: &FsView, source: &str) -> (r: Option<Vec<String>>) {
        list_for(Ecosystem::Npm, fs, source)
    }

    fn write_guard_roots(&self, consumer: &str) -> (r: Vec<String>) {
        guard_roots_for(Ecosystem::Npm, consumer)
    }

    fn post_sync_hint(&self, fs: &FsView, source: &str, consumer: &str) -> (r: Option<String>) {
        post_sync_hint_for(Ecosystem::Npm, fs, source, consumer)
    }
}

impl EcosystemAdapter for ComposerAdapter {
    open spec fn kind(&self) -> Ecosystem {
        Ecosystem::Composer
    }

    fn ecosystem(&self) -> (r: Ecosystem) {
        Ecosystem::Composer
    }

    fn detect(&self, fs: &FsView, source: &str, consumer: &str) -> (r: bool) {
        detect_for(Ecosystem::Composer, fs, source, consumer)
    }

    fn package_name(&self, fs: &FsView, source: &str) -> (r: LinkdResult<String>) {
        package_name_for(Ecosystem::Composer, fs, source)
    }

    fn resolve_target(
        &self,
        fs: &FsView,
        consumer: &str,
        package_name: &str,
        custom_target: Option<&str>,
        global_roots: &Vec<String>,
    ) -> (r: LinkdResult<ResolvedSyncTarget>) {
        resolve_target_for(Ecosystem::Composer, fs, consumer, package_name, custom_target, global_roots)
    }

    fn completion_markers(&self, fs: &FsView, consumer: &str) -> (r: Vec<String>) {
        completion_markers_for(Ecosystem::Composer, fs, consumer)
    }

    fn list_files(&self, fs: &FsView, source: &str) -> (r: Option<Vec<String>>) {
        list_for(Ecosystem::Composer, fs, source)
    }

    fn write_guard_roots(&self, consumer: &str) -> (r: Vec<String>) {
        guard_roots_for(Ecosystem::Composer, consumer)
    }

    fn post_sync_hint(&self, fs: &FsView, source: &str, consumer: &str) -> (r: Option<String>) {
        post_sync_hint_for(Ecosystem::Composer, fs, source, consumer)
    }
}

impl EcosystemAdapter for PythonAdapter {
    open spec fn kind(&self) -> Ecosystem {
        Ecosystem::Python
    }

    fn ecosystem(&self) -> (r: Ecosystem) {
        Ecosystem::Python
    }

    fn detect(&self, fs: &FsView, source: &str, consumer: &str) -> (r: bool) {
        detect_for(Ecosystem::Python, fs, source, consumer)
    }

    fn package_name(&self, fs: &FsView, source: &str) -> (r: LinkdResult<String>) {
        package_name_for(Ecosystem::Python, fs, source)
    }

    fn resolve_target(
        &self,
        fs: &FsView,
        consumer: &str,
        package_name: &str,
        custom_target: Option<&str>,
        global_roots: &Vec<String>,
    ) -> (r: LinkdResult<ResolvedSyncTarget>) {
        resolve_target_for(Ecosystem::Python, fs, consumer, package_name, custom_target, global_roots)
    }

    fn completion_markers(&self, fs: &FsView, consumer: &str) -> (r: Vec<String>) {
        completion_markers_for(Ecosystem::Python, fs, consumer)
    }

    fn list_files(&self, fs: &FsView, source: &str) -> (r: Option<Vec<String>>) {
        list_for(Ecosystem::Python, fs, source)
    }

    fn write_guard_roots(&self, consumer: &str) -> (r: Vec<String>) {
        guard_roots_for(Ecosystem::Python, consumer)
    }

    fn post_sync_hint(&self, fs: &FsView, source: &str, consumer: &str) -> (r: Option<String>) {
        post_sync_hint_for(Ecosystem::Python, fs, source, consumer)
    }
}

impl EcosystemAdapter for GoAdapter {
    open spec fn kind(&self) -> Ecosystem {
        Ecosystem::Go
    }

    fn ecosystem(&self) -> (r: Ecosystem) {
        Ecosystem::Go
    }

    fn detect(&self, fs: &FsView, source: &str, consumer: &str) -> (r: bool) {
        detect_for(Ecosystem::Go, fs, source, consumer)
    }

    fn package_name(&self, fs: &FsView, source: &str) -> (r: LinkdResult<String>) {
        package_name_for(Ecosystem::Go, fs, source)
    }

    fn resolve_target(
        &self,
        fs: &FsView,
        consumer: &str,
        package_name: &str,
        custom_target: Option<&str>,
        global_roots: &Vec<String>,
    ) -> (r: LinkdResult<ResolvedSyncTarget>) {
        resolve_target_for(Ecosystem::Go, fs, consumer, package_name, custom_target, global_roots)
    }

    fn completion_markers(&self, fs: &FsView, consumer: &str) -> (r: Vec<String>) {
        completion_markers_for(Ecosystem::Go, fs, consumer)
    }

    fn list_files(&self, fs: &FsView, source: &str) -> (r: Option<Vec<String>>) {
        list_for(Ecosystem::Go, fs, source)
    }

    fn write_guard_roots(&self, consumer: &str) -> (r: Vec<String>) {
        guard_roots_for(Ecosystem::Go, consumer)
    }

    fn post_sync_hint(&self, fs: &FsView, source: &str, consumer: &str) -> (r: Option<String>) {
        post_sync_hint_for(Ecosystem::Go, fs, source, consumer)
    }
}

impl EcosystemAdapter for CargoAdapter {
    open spec fn kind(&self) -> Ecosystem {
        Ecosystem::Cargo
    }

    fn ecosystem(&self) -> (r: Ecosystem) {
        Ecosystem::Cargo
    }

    fn detect(&self, fs: &FsView, source: &str, consumer: &str) -> (r: bool) {
        detect_for(Ecosystem::Cargo, fs, source, consumer)
    }

    fn package_name(&self, fs: &FsView, source: &str) -> (r: LinkdResult<String>) {
        package_name_for(Ecosystem::Cargo, fs, source)
    }

    fn resolve_target(
        &self,
        fs: &FsView,
        consumer: &str,
        package_name: &str,
        custom_target: Option<&str>,
        global_roots: &Vec<String>,
    ) -> (r: LinkdResult<ResolvedSyncTarget>) {
        resolve_target_for(Ecosystem::Cargo, fs, consumer, package_name, custom_target, global_roots)
    }

    fn completion_markers(&self, fs: &FsView, consumer: &str) -> (r: Vec<String>) {
        completion_markers_for(Ecosystem::Cargo, fs, consumer)
    }

    fn list_files(&self, fs: &FsView, source: &str) -> (r: Option<Vec<String>>) {
        list_for(Ecosystem::Cargo, fs, source)
    }

    fn write_guard_roots(&self, consumer: &str) -> (r: Vec<String>) {
        guard_roots_for(Ecosystem::Cargo, consumer)
    }

    fn post_sync_hint(&self, fs: &FsView, source: &str, consumer: &str) -> (r: Option<String>) {
        post_sync_hint_for(Ecosystem::Cargo, fs, source, consumer)
    }
}

impl EcosystemAdapter for JvmAdapter {
    open spec fn kind(&self) -> Ecosystem {
        Ecosystem::Jvm
    }

    fn ecosystem(&self) -> (r: Ecosystem) {
        Ecosystem::Jvm
    }

    fn detect(&self, fs: &FsView, source: &str, consumer: &str) -> (r: bool) {
        detect_for(Ecosystem::Jvm, fs, source, consumer)
    }

    fn package_name(&self, fs: &FsView, source: &str) -> (r: LinkdResult<String>) {
        package_name_for(Ecosystem::Jvm, fs, source)
    }

    fn resolve_target(
        &self,
        fs: &FsView,
        consumer: &str,
        package_name: &str,
        custom_target: Option<&str>,
        global_roots: &Vec<String>,
    ) -> (r: LinkdResult<ResolvedSyncTarget>) {
        resolve_target_for(Ecosystem::Jvm, fs, consumer, package_name, custom_target, global_roots)
    }

    fn completion_markers(&self, fs: &FsView, consumer: &str) -> (r: Vec<String>) {
        completion_markers_for(Ecosystem::Jvm, fs, consumer)
    }

    fn list_files(&self, fs: &FsView, source: &str) -> (r: Option<Vec<String>>) {
        list_for(Ecosystem::Jvm, fs, source)
    }

    fn write_guard_roots(&self, consumer: &str) -> (r: Vec<String>) {
        guard_roots_for(Ecosystem::Jvm, consumer)
    }

    fn post_sync_hint(&self, fs: &FsView, source: &str, consumer: &str) -> (r: Option<String>) {
        post_sync_hint_for(Ecosystem::Jvm, fs, source, consumer)
    }
}

} // verus!
