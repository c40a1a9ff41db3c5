//! Link resolution across ecosystems: which ecosystem a link belongs to,
//! what its package is called, where it is written, and where a sync of it
//! may write.

use vstd::prelude::*;
use crate::allowlist::{joined_all, AllowlistView, WriteAllowlist};
use crate::fs::{str_views, FsView};
use crate::listing::{strictly_sorted_paths, list_files_with, sorted_paths, walked, ListRule};
use crate::manifest::opt_str;
use crate::model::{
    local_view, project_local_target, res_str, res_target, some_or_other, Ecosystem, ErrView,
    LinkEntry, LinkMode, LinkdError, LinkdResult, ResolvedSyncTarget, TargetView,
};
use crate::npm::{detected_pm, in_store, npm_target, pm_label, pm_name, shadow_target, PnpmStoreDetector};
use crate::order::{path_order, path_order_exec};
use crate::paths::{
    file_name, file_name_exec, join, lemma_below_parent, lemma_below_trans, lemma_join_below, parent,
    parent_exec, path_starts_with,
};
use crate::text::{find, lemma_find_some, occurs_at, starts_with_char};
use crate::validate::{link_paths_check, res_unit, validate_link_paths};
use crate::{cargo, composer, dart, dotnet, elixir, go, jvm, npm, python, ruby, swift};

verus! {

/// The ecosystem that the manifests of the source, else those of the
/// consumer, point to; npm when none does.
pub open spec fn detected_ecosystem(fs: FsView, s: Seq<char>, c: Seq<char>) -> Ecosystem {
    if fs.is_file(join(s, "pyproject.toml"@)) || fs.is_file(join(s, "setup.py"@)) || fs.is_file(
        join(s, "setup.cfg"@),
    ) {
        Ecosystem::Python
    } else if fs.is_file(join(s, "go.mod"@)) {
        Ecosystem::Go
    } else if fs.is_file(join(s, "Cargo.toml"@)) {
        Ecosystem::Cargo
    } else if fs.is_file(join(s, "pom.xml"@)) || fs.is_file(join(s, "build.gradle"@))
        || fs.is_file(join(s, "build.gradle.kts"@)) {
        Ecosystem::Jvm
    } else if fs.is_file(join(s, "composer.json"@)) && !fs.is_file(join(s, "package.json"@)) {
        Ecosystem::Composer
    } else if fs.is_file(join(s, "package.json"@)) {
        Ecosystem::Npm
    } else if fs.has_path(join(c, ".venv"@)) || fs.has_path(join(c, "venv"@)) || fs.is_file(
        join(c, "Pipfile"@),
    ) {
        Ecosystem::Python
    } else if fs.is_file(join(c, "go.mod"@)) || fs.is_file(join(c, "go.work"@)) {
        Ecosystem::Go
    } else if fs.is_file(join(c, "Cargo.toml"@)) {
        Ecosystem::Cargo
    } else if fs.is_file(join(c, "pom.xml"@)) || fs.is_file(join(c, "build.gradle"@)) {
        Ecosystem::Jvm
    } else if fs.is_file(join(c, "composer.json"@)) && !fs.is_file(join(c, "package.json"@)) {
        Ecosystem::Composer
    } else {
        Ecosystem::Npm
    }
}

/// The ecosystem of a link from `source` into `consumer`, judged by their
/// manifest files: the source's first, then the consumer's.
pub fn detect_ecosystem(fs: &FsView, source: &str, consumer: &str) -> (r: Ecosystem)
    ensures
        r == detected_ecosystem(*fs, source@, consumer@),
{
    let is_file = |name: &str| -> (b: bool)
        ensures
            b == fs.is_file(join(source@, name@)),
        { fs.is_file_exec(crate::paths::path_join(source, name).as_str()) };
    let c_file = |name: &str| -> (b: bool)
        ensures
            b == fs.is_file(join(consumer@, name@)),
        { fs.is_file_exec(crate::paths::path_join(consumer, name).as_str()) };
    let c_exists = |name: &str| -> (b: bool)
        ensures
            b == fs.has_path(join(consumer@, name@)),
        { fs.exists_exec(crate::paths::path_join(consumer, name).as_str()) };
    if is_file("pyproject.toml") || is_file("setup.py") || is_file("setup.cfg") {
        return Ecosystem::Python;
    }
    if is_file("go.mod") {
        return Ecosystem::Go;
    }
    if is_file("Cargo.toml") {
        return Ecosystem::Cargo;
    }
    if is_file("pom.xml") || is_file("build.gradle") || is_file("build.gradle.kts") {
        return Ecosystem::Jvm;
    }
    if is_file("composer.json") && !is_file("package.json") {
        return Ecosystem::Composer;
    }
    if is_file("package.json") {
        return Ecosystem::Npm;
    }
    if c_exists(".venv") || c_exists("venv") || c_file("Pipfile") {
        return Ecosystem::Python;
    }
    if c_file("go.mod") || c_file("go.work") {
        return Ecosystem::Go;
    }
    if c_file("Cargo.toml") {
        return Ecosystem::Cargo;
    }
    if c_file("pom.xml") || c_file("build.gradle") {
        return Ecosystem::Jvm;
    }
    if c_file("composer.json") && !c_file("package.json") {
        return Ecosystem::Composer;
    }
    Ecosystem::Npm
}

/// The package name of a custom link: the name of the source directory.
pub open spec fn custom_name(source: Seq<char>) -> Result<Seq<char>, ErrView> {
    some_or_other(file_name(source), "invalid source path"@)
}

/// What reading the package name of `source` as a package of ecosystem `e`
/// gives.
pub open spec fn name_result(e: Ecosystem, fs: FsView, source: Seq<char>) -> Result<Seq<char>, ErrView> {
    match e {
        Ecosystem::Npm => npm::name_result(fs, source),
        Ecosystem::Composer => composer::name_result(fs, source),
        Ecosystem::Python => python::name_result(fs, source),
        Ecosystem::Go => go::name_result(fs, source),
        Ecosystem::Cargo => cargo::name_result(fs, source),
        Ecosystem::Jvm => jvm::name_result(fs, source),
        Ecosystem::Dart => dart::name_result(fs, source),
        Ecosystem::Dotnet => dotnet::name_result(fs, source),
        Ecosystem::Ruby => ruby::name_result(fs, source),
        Ecosystem::Swift => swift::name_result(fs, source),
        Ecosystem::Elixir => elixir::name_result(fs, source),
        Ecosystem::Custom => custom_name(source),
    }
}

/// Whether reading the package name would hit the one manifest form that
/// cannot be read (see `dotnet_read_panics`).
pub open spec fn name_read_panics(e: Ecosystem, fs: FsView, source: Seq<char>) -> bool {
    e == Ecosystem::Dotnet && dotnet::dotnet_read_panics(fs, source)
}

/// Whether reading the package name of `source` as a package of
/// ecosystem `eco` would panic (see `name_read_panics`).
pub fn name_read_would_panic(eco: Ecosystem, fs: &FsView, source: &str) -> (r: bool)
    ensures
        r == name_read_panics(eco, *fs, source@),
{
    match eco {
        Ecosystem::Dotnet => dotnet::dotnet_read_would_panic(fs, source),
        _ => false,
    }
}

/// The package name of `source` as a package of ecosystem `eco`.
pub fn package_name_for(eco: Ecosystem, fs: &FsView, source: &str) -> (r: LinkdResult<String>)
    requires
        !name_read_panics(eco, *fs, source@),
    ensures
        res_str(r) == name_result(eco, *fs, source@),
{
    match eco {
        Ecosystem::Npm => npm::parse_package_name(fs, source),
        Ecosystem::Composer => composer::parse_package_name(fs, source),
        Ecosystem::Python => python::parse_package_name(fs, source),
        Ecosystem::Go => go::parse_module_name(fs, source),
        Ecosystem::Cargo => cargo::parse_crate_name(fs, source),
        Ecosystem::Jvm => jvm::parse_jvm_package_name(fs, source),
        Ecosystem::Dart => dart::parse_package_name(fs, source),
        Ecosystem::Dotnet => dotnet::parse_package_name(fs, source),
        Ecosystem::Ruby => ruby::parse_package_name(fs, source),
        Ecosystem::Swift => swift::parse_package_name(fs, source),
        Ecosystem::Elixir => elixir::parse_package_name(fs, source),
        Ecosystem::Custom => match file_name_exec(source) {
            Some(n) => Ok(n),
            None => Err(LinkdError::Other("invalid source path".to_owned())),
        },
    }
}

/// The sync target of a custom link: the chosen target, in place.
pub open spec fn custom_target_result(custom: Option<Seq<char>>) -> Result<TargetView, ErrView> {
    match custom {
        Some(t) => Ok(local_view(t)),
        None => Err(ErrView::Other("custom target required"@)),
    }
}

/// Where package `name` of ecosystem `e` is written in `consumer`; `custom`
/// is the target chosen by the user, `roots` the pnpm store roots.
pub open spec fn target_result(
    e: Ecosystem,
    fs: FsView,
    c: Seq<char>,
    name: Seq<char>,
    custom: Option<Seq<char>>,
    roots: Seq<Seq<char>>,
) -> Result<TargetView, ErrView> {
    match e {
        Ecosystem::Npm => Ok(npm_target(fs, c, name, roots)),
        Ecosystem::Composer => composer::target_result(c, name),
        Ecosystem::Python => Ok(
            local_view(
                join(
                    match python::find_site(fs, c) {
                        Some(s) => s,
                        None => python::default_site(c),
                    },
                    python::import_name(name),
                ),
            ),
        ),
        Ecosystem::Go => Ok(local_view(go::join_parts(join(c, "vendor"@), name))),
        Ecosystem::Cargo => Ok(local_view(join(join(c, "vendor"@), name))),
        Ecosystem::Jvm => Ok(local_view(join(join(c, "libs"@), jvm::artifact_of(name)))),
        Ecosystem::Dart => Ok(local_view(join(join(join(c, ".dart_tool"@), "packages"@), name))),
        Ecosystem::Dotnet => Ok(local_view(join(join(c, "packages"@), name))),
        Ecosystem::Ruby => Ok(
            local_view(join(join(join(join(c, "vendor"@), "bundle"@), "gems"@), name)),
        ),
        Ecosystem::Swift => Ok(local_view(join(join(join(c, ".build"@), "checkouts"@), name))),
        Ecosystem::Elixir => Ok(local_view(join(join(c, "deps"@), name))),
        Ecosystem::Custom => custom_target_result(custom),
    }
}

/// Copies a vector of strings.
fn copy_strings(v: &Vec<String>) -> (r: Vec<String>)
    ensures
        str_views(r@) == str_views(v@),
{
    let mut r: Vec<String> = Vec::new();
    let mut i: usize = 0;
    while i < v.len()
        invariant
            i <= v.len(),
            str_views(r@) == str_views(v@).subrange(0, i as int),
        decreases v.len() - i,
    {
        let ghost prev = r@;
        r.push(v[i].clone());
        assert(str_views(r@) =~= str_views(prev).push(v@[i as int]@));
        i = i + 1;
        assert(str_views(r@) =~= str_views(v@).subrange(0, i as int));
    }
    assert(str_views(v@).subrange(0, v.len() as int) =~= str_views(v@));
    r
}

fn custom_target_for(custom_target: Option<&str>) -> (r: LinkdResult<ResolvedSyncTarget>)
    ensures
        res_target(r) == custom_target_result(
            match custom_target { Some(t) => Some(t@), None => None },
        ),
{
    match custom_target {
        Some(t) => Ok(project_local_target(t.to_owned())),
        None => Err(LinkdError::Other("custom target required".to_owned())),
    }
}

/// The sync target of package `package_name` of ecosystem `eco` in
/// `consumer`.
pub fn resolve_target_for(
    eco: Ecosystem,
    fs: &FsView,
    consumer: &str,
    package_name: &str,
    custom_target: Option<&str>,
    global_roots: &Vec<String>,
) -> (r: LinkdResult<ResolvedSyncTarget>)
    ensures
        res_target(r) == target_result(
            eco,
            *fs,
            consumer@,
            package_name@,
            match custom_target { Some(t) => Some(t@), None => None },
            str_views(global_roots@),
        ),
{
    match eco {
        Ecosystem::Npm => PnpmStoreDetector::resolve(fs, consumer, package_name, copy_strings(global_roots)),
        Ecosystem::Composer => composer::resolve_vendor_target(consumer, package_name),
        Ecosystem::Python => python::resolve_python_target(fs, consumer, package_name),
        Ecosystem::Go => go::resolve_go_target(consumer, package_name),
        Ecosystem::Cargo => cargo::resolve_cargo_target(consumer, package_name),
        Ecosystem::Jvm => jvm::resolve_jvm_target(consumer, package_name),
        Ecosystem::Dart => dart::resolve_dart_target(consumer, package_name),
        Ecosystem::Dotnet => dotnet::resolve_dotnet_target(consumer, package_name),
        Ecosystem::Ruby => ruby::resolve_ruby_target(consumer, package_name),
        Ecosystem::Swift => swift::resolve_swift_target(consumer, package_name),
        Ecosystem::Elixir => elixir::resolve_elixir_target(consumer, package_name),
        Ecosystem::Custom => custom_target_for(custom_target),
    }
}

/// A link resolved from a source and a consumer.
#[derive(Debug)]
pub struct ResolvedLink {
    pub package_name: String,
    pub sync_target: String,
    pub resolved: ResolvedSyncTarget,
    pub ecosystem: Ecosystem,
    pub link_mode: LinkMode,
    /// The package manager of the consumer, where the ecosystem has one.
    pub detected_pm: Option<String>,
}

/// A resolved link as a value of the specification.
pub struct LinkView {
    pub package_name: Seq<char>,
    pub sync_target: Seq<char>,
    pub resolved: TargetView,
    pub ecosystem: Ecosystem,
    pub link_mode: LinkMode,
    pub detected_pm: Option<Seq<char>>,
}

impl View for ResolvedLink {
    type V = LinkView;

    open spec fn view(&self) -> LinkView {
        LinkView {
            package_name: self.package_name@,
            sync_target: self.sync_target@,
            resolved: self.resolved@,
            ecosystem: self.ecosystem,
            link_mode: self.link_mode,
            detected_pm: opt_str(self.detected_pm),
        }
    }
}

/// A link result as a value of the specification.
pub open spec fn res_link(r: LinkdResult<ResolvedLink>) -> Result<LinkView, ErrView> {
    match r {
        Ok(l) => Ok(l@),
        Err(e) => Err(e@),
    }
}

/// The ecosystem a link is resolved as: custom when a target was chosen,
/// else the one asked for, else the detected one.
pub open spec fn chosen_ecosystem(
    fs: FsView,
    s: Seq<char>,
    c: Seq<char>,
    eco: Option<Ecosystem>,
    custom: Option<Seq<char>>,
) -> Ecosystem {
    if custom is Some {
        Ecosystem::Custom
    } else {
        match eco {
            Some(e) => e,
            None => detected_ecosystem(fs, s, c),
        }
    }
}

/// The ecosystem that `resolve_link` resolves a link as.
pub fn choose_ecosystem(
    fs: &FsView,
    source: &str,
    consumer: &str,
    ecosystem: Option<Ecosystem>,
    custom_target: Option<&str>,
) -> (r: Ecosystem)
    ensures
        r == chosen_ecosystem(
            *fs,
            source@,
            consumer@,
            ecosystem,
            match custom_target { Some(t) => Some(t@), None => None },
        ),
{
    if custom_target.is_some() {
        Ecosystem::Custom
    } else {
        match ecosystem {
            Some(e) => e,
            None => detect_ecosystem(fs, source, consumer),
        }
    }
}

/// The package manager reported for a link of ecosystem `e`.
pub open spec fn pm_of(e: Ecosystem, fs: FsView, c: Seq<char>) -> Option<Seq<char>> {
    match e {
        Ecosystem::Npm => Some(pm_name(detected_pm(fs, c))),
        Ecosystem::Composer => Some("composer"@),
        Ecosystem::Python => Some("uv/pip"@),
        Ecosystem::Go => Some("go"@),
        Ecosystem::Cargo => Some("cargo"@),
        Ecosystem::Jvm => Some("maven/gradle"@),
        _ => None,
    }
}

/// What resolving a link from `s` into `c` gives: the package name, then
/// its sync target, then the check that source and target are apart.
pub open spec fn link_result(
    fs: FsView,
    s: Seq<char>,
    c: Seq<char>,
    eco: Option<Ecosystem>,
    custom: Option<Seq<char>>,
    roots: Seq<Seq<char>>,
) -> Result<LinkView, ErrView> {
    let e = chosen_ecosystem(fs, s, c, eco, custom);
    match name_result(e, fs, s) {
        Err(x) => Err(x),
        Ok(n) => match target_result(e, fs, c, n, custom, roots) {
            Err(x) => Err(x),
            Ok(t) => match link_paths_check(s, t.sync) {
                Err(x) => Err(x),
                Ok(_) => Ok(
                    LinkView {
                        package_name: n,
                        sync_target: t.sync,
                        resolved: t,
                        ecosystem: e,
                        link_mode: if custom is Some {
                            LinkMode::CustomPath
                        } else {
                            LinkMode::PackageManager
                        },
                        detected_pm: pm_of(e, fs, c),
                    },
                ),
            },
        },
    }
}

fn detected_pm_for(eco: Ecosystem, fs: &FsView, consumer: &str) -> (r: Option<String>)
    ensures
        opt_str(r) == pm_of(eco, *fs, consumer@),
{
    match eco {
        Ecosystem::Npm => Some(pm_label(npm::detect_package_manager(fs, consumer)).to_owned()),
        Ecosystem::Composer => Some("composer".to_owned()),
        Ecosystem::Python => Some("uv/pip".to_owned()),
        Ecosystem::Go => Some("go".to_owned()),
        Ecosystem::Cargo => Some("cargo".to_owned()),
        Ecosystem::Jvm => Some("maven/gradle".to_owned()),
        _ => None,
    }
}

/// Resolves a link from `source` into `consumer`: its ecosystem (custom when
/// `custom_target` is given, else `ecosystem`, else detected), its package
/// name, its sync target, and the check that source and target are neither
/// the same nor nested. `global_roots` are the pnpm store roots.
pub fn resolve_link(
    fs: &FsView,
    source: &str,
    consumer: &str,
    ecosystem: Option<Ecosystem>,
    custom_target: Option<&str>,
    global_roots: &Vec<String>,
) -> (r: LinkdResult<ResolvedLink>)
    requires
        !name_read_panics(
            chosen_ecosystem(
                *fs,
                source@,
                consumer@,
                ecosystem,
                match custom_target { Some(t) => Some(t@), None => None },
            ),
            *fs,
            source@,
        ),
    ensures
        res_link(r) == link_result(
            *fs,
            source@,
            consumer@,
            ecosystem,
            match custom_target { Some(t) => Some(t@), None => None },
            str_views(global_roots@),
        ),
{
    let eco = if custom_target.is_some() {
        Ecosystem::Custom
    } else {
        match ecosystem {
            Some(e) => e,
            None => detect_ecosystem(fs, source, consumer),
        }
    };
    let package_name = match package_name_for(eco, fs, source) {
        Ok(n) => n,
        Err(e) => return Err(e),
    };
    let resolved = match resolve_target_for(
        eco,
        fs,
        consumer,
        package_name.as_str(),
        custom_target,
        global_roots,
    ) {
        Ok(t) => t,
        Err(e) => return Err(e),
    };
    match validate_link_paths(source, resolved.sync_target.as_str()) {
        Ok(_) => {},
        Err(e) => return Err(e),
    }
    let link_mode = if custom_target.is_some() {
        LinkMode::CustomPath
    } else {
        LinkMode::PackageManager
    };
    let detected_pm = detected_pm_for(eco, fs, consumer);
    let sync_target = resolved.sync_target.clone();
    Ok(ResolvedLink { package_name, sync_target, resolved, ecosystem: eco, link_mode, detected_pm })
}

/// The completion markers of a consumer for ecosystem `e`.
pub open spec fn markers_of(e: Ecosystem, fs: FsView, c: Seq<char>) -> Seq<Seq<char>> {
    match e {
        Ecosystem::Npm => npm::pm_markers(fs, c, detected_pm(fs, c)),
        Ecosystem::Composer => composer::markers(fs, c),
        Ecosystem::Python => python::markers(fs, c),
        Ecosystem::Go => go::markers(fs, c),
        Ecosystem::Cargo => cargo::markers(fs, c),
        Ecosystem::Jvm => jvm::markers(fs, c),
        Ecosystem::Dart => dart::markers(fs, c),
        Ecosystem::Dotnet => dotnet::markers(fs, c),
        Ecosystem::Ruby => ruby::markers(fs, c),
        Ecosystem::Swift => swift::markers(fs, c),
        Ecosystem::Elixir => elixir::markers(fs, c),
        Ecosystem::Custom => seq![],
    }
}

/// The files whose change shows that the package manager of ecosystem
/// `eco` finished in `consumer`.
pub fn completion_markers_for(eco: Ecosystem, fs: &FsView, consumer: &str) -> (r: Vec<String>)
    ensures
        str_views(r@) == markers_of(eco, *fs, consumer@),
{
    match eco {
        Ecosystem::Npm => npm::completion_markers(fs, consumer, npm::detect_package_manager(fs, consumer)),
        Ecosystem::Composer => composer::completion_markers(fs, consumer),
        Ecosystem::Python => python::completion_markers(fs, consumer),
        Ecosystem::Go => go::completion_markers(fs, consumer),
        Ecosystem::Cargo => cargo::completion_markers(fs, consumer),
        Ecosystem::Jvm => jvm::completion_markers(fs, consumer),
        Ecosystem::Dart => dart::completion_markers(fs, consumer),
        Ecosystem::Dotnet => dotnet::completion_markers(fs, consumer),
        Ecosystem::Ruby => ruby::completion_markers(fs, consumer),
        Ecosystem::Swift => swift::completion_markers(fs, consumer),
        Ecosystem::Elixir => elixir::completion_markers(fs, consumer),
        Ecosystem::Custom => {
            let v: Vec<String> = Vec::new();
            assert(str_views(v@) =~= Seq::<Seq<char>>::empty());
            v
        },
    }
}

/// The source and target of a custom link, sorted as paths, a path named
/// twice kept once.
pub open spec fn custom_markers(a: Seq<char>, b: Seq<char>) -> Seq<Seq<char>> {
    if path_order(a, b) == 0 {
        seq![a]
    } else if path_order(a, b) < 0 {
        seq![a, b]
    } else {
        seq![b, a]
    }
}

/// The completion markers of a link: for a custom link, its source and
/// target; else those of its ecosystem in its consumer.
pub open spec fn link_markers(fs: FsView, link: LinkEntry) -> Seq<Seq<char>> {
    match link.link_mode {
        LinkMode::CustomPath => custom_markers(link.source_path@, link.sync_target@),
        LinkMode::PackageManager => markers_of(link.ecosystem, fs, link.consumer_root@),
    }
}

/// The files whose change shows that the consumer of `link` finished an
/// install, sorted and without repeats for a custom link.
pub fn completion_markers_for_link(fs: &FsView, link: &LinkEntry) -> (r: Vec<String>)
    ensures
        str_views(r@) == link_markers(*fs, *link),
{
    match link.link_mode {
        LinkMode::CustomPath => {
            let a = link.source_path.clone();
            let b = link.sync_target.clone();
            let o = path_order_exec(a.as_str(), b.as_str());
            let mut v: Vec<String> = Vec::new();
            if o == 0 {
                v.push(a);
            } else if o < 0 {
                v.push(a);
                v.push(b);
            } else {
                v.push(b);
                v.push(a);
            }
            assert(str_views(v@) =~= custom_markers(link.source_path@, link.sync_target@));
            v
        },
        LinkMode::PackageManager => completion_markers_for(link.ecosystem, fs, link.consumer_root.as_str()),
    }
}

/// The hint shown after a sync of ecosystem `e` from `s` into `c`.
pub open spec fn hint_of(e: Ecosystem, fs: FsView, s: Seq<char>, c: Seq<char>) -> Option<Seq<char>> {
    match e {
        Ecosystem::Npm => None,
        Ecosystem::Composer => composer::composer_hint(fs, s, c),
        Ecosystem::Python => python::hint(fs, s),
        Ecosystem::Go => go::hint(fs, s),
        Ecosystem::Cargo => cargo::hint(fs, s),
        Ecosystem::Jvm => jvm::hint(fs, s),
        Ecosystem::Dart => Some(dart::DART_HINT@),
        Ecosystem::Dotnet => Some(dotnet::DOTNET_HINT@),
        Ecosystem::Ruby => Some(ruby::RUBY_HINT@),
        Ecosystem::Swift => Some(swift::SWIFT_HINT@),
        Ecosystem::Elixir => Some(elixir::ELIXIR_HINT@),
        Ecosystem::Custom => None,
    }
}

/// The hint to show after a sync of ecosystem `eco` from `source` into
/// `consumer`, if any.
pub fn post_sync_hint_for(eco: Ecosystem, fs: &FsView, source: &str, consumer: &str) -> (r: Option<String>)
    ensures
        opt_str(r) == hint_of(eco, *fs, source@, consumer@),
{
    match eco {
        Ecosystem::Npm => None,
        Ecosystem::Composer => composer::autoload_hint(fs, source, consumer),
        Ecosystem::Python => python::post_sync_hint(fs, source, consumer),
        Ecosystem::Go => go::post_sync_hint(fs, source, consumer),
        Ecosystem::Cargo => cargo::post_sync_hint(fs, source, consumer),
        Ecosystem::Jvm => jvm::post_sync_hint(fs, source, consumer),
        Ecosystem::Dart => dart::post_sync_hint(source, consumer),
        Ecosystem::Dotnet => dotnet::post_sync_hint(source, consumer),
        Ecosystem::Ruby => ruby::post_sync_hint(source, consumer),
        Ecosystem::Swift => swift::post_sync_hint(source, consumer),
        Ecosystem::Elixir => elixir::post_sync_hint(source, consumer),
        Ecosystem::Custom => None,
    }
}

/// The hint to show after a sync of `link`, if any.
pub fn post_sync_hint_for_link(fs: &FsView, link: &LinkEntry) -> (r: Option<String>)
    ensures
        opt_str(r) == hint_of(link.ecosystem, *fs, link.source_path@, link.consumer_root@),
{
    post_sync_hint_for(link.ecosystem, fs, link.source_path.as_str(), link.consumer_root.as_str())
}

/// The rule by which the files of a package of ecosystem `e` are listed
/// from a walk of its source; none where they are listed otherwise (npm
/// packages list their files with `npm pack`).
pub open spec fn list_rule(e: Ecosystem) -> Option<ListRule> {
    match e {
        Ecosystem::Custom => Some(ListRule::Custom),
        Ecosystem::Composer => Some(ListRule::Composer),
        Ecosystem::Python => Some(ListRule::Python),
        Ecosystem::Elixir => Some(ListRule::Elixir),
        _ => None,
    }
}

/// The files of the source of `link` that a sync copies, relative to the
/// source and sorted, where its ecosystem lists them from a walk.
pub fn list_files_for_link(fs: &FsView, link: &LinkEntry) -> (r: Option<Vec<String>>)
    ensures
        r matches Some(v) ==> (fs.distinct_paths() && link.source_path@.len() > 0 ==> strictly_sorted_paths(str_views(v@))),
        match list_rule(link.ecosystem) {
            Some(rule) => r matches Some(v) && sorted_paths(str_views(v@)) && str_views(
                v@,
            ).to_multiset() == walked(*fs, link.source_path@, rule, fs.len()).to_multiset(),
            None => r is None,
        },
{
    let rule = match link.ecosystem {
        Ecosystem::Custom => ListRule::Custom,
        Ecosystem::Composer => ListRule::Composer,
        Ecosystem::Python => ListRule::Python,
        Ecosystem::Elixir => ListRule::Elixir,
        _ => {
            return None;
        },
    };
    Some(list_files_with(fs, link.source_path.as_str(), rule))
}

/// The sync target of a registered link, resolved again.
pub fn resolve_for_reconcile(fs: &FsView, link: &LinkEntry, global_roots: &Vec<String>) -> (r: LinkdResult<ResolvedSyncTarget>)
    ensures
        res_target(r) == target_result(
            link.ecosystem,
            *fs,
            link.consumer_root@,
            link.package_name@,
            opt_str(link.custom_target),
            str_views(global_roots@),
        ),
{
    let custom: Option<&str> = match &link.custom_target {
        Some(t) => Some(t.as_str()),
        None => None,
    };
    resolve_target_for(
        link.ecosystem,
        fs,
        link.consumer_root.as_str(),
        link.package_name.as_str(),
        custom,
        global_roots,
    )
}

/// The directories of the consumer in which a sync of ecosystem `e` may
/// write; `None` where it may write anywhere in the consumer (npm) or where
/// the roots come from the target (custom links). Composer, Python, Go,
/// Cargo and JVM use the directories of their package managers. Dart,
/// .NET, Ruby, Swift and Elixir have no rule of their own in the link
/// daemon; each gets the consumer directory that its resolver writes into
/// (`.dart_tool`, `packages`, `vendor`, `.build`, `deps`), so that
/// `lemma_sync_target_allowed` holds for every ecosystem.
pub open spec fn sync_subdirs(e: Ecosystem) -> Option<Seq<Seq<char>>> {
    match e {
        Ecosystem::Composer => Some(seq!["vendor"@]),
        Ecosystem::Python => Some(seq![".venv"@, "venv"@, "env"@]),
        Ecosystem::Go => Some(seq!["vendor"@]),
        Ecosystem::Cargo => Some(seq!["vendor"@, ".cargo"@]),
        Ecosystem::Jvm => Some(seq!["libs"@]),
        Ecosystem::Dart => Some(seq![".dart_tool"@]),
        Ecosystem::Dotnet => Some(seq!["packages"@]),
        Ecosystem::Ruby => Some(seq!["vendor"@]),
        Ecosystem::Swift => Some(seq![".build"@]),
        Ecosystem::Elixir => Some(seq!["deps"@]),
        Ecosystem::Npm => None,
        Ecosystem::Custom => None,
    }
}

/// Where a sync of `link` to the target `t` may write.
pub open spec fn allowlist_of(link: LinkEntry, t: TargetView) -> AllowlistView {
    let c = link.consumer_root@;
    match link.ecosystem {
        Ecosystem::Npm => AllowlistView { allowed: seq![c], forbidden: t.forbidden },
        Ecosystem::Custom => AllowlistView {
            allowed: seq![
                match parent(t.sync) {
                    Some(p) => p,
                    None => c,
                },
            ],
            forbidden: t.forbidden,
        },
        _ => AllowlistView { allowed: joined_all(c, sync_subdirs(link.ecosystem)->Some_0), forbidden: t.forbidden },
    }
}

fn subdirs_for(eco: Ecosystem) -> (r: Vec<String>)
    requires
        sync_subdirs(eco) is Some,
    ensures
        str_views(r@) == sync_subdirs(eco)->Some_0,
{
    let mut v: Vec<String> = Vec::new();
    match eco {
        Ecosystem::Composer | Ecosystem::Go | Ecosystem::Ruby => {
            v.push("vendor".to_owned());
        },
        Ecosystem::Python => {
            v.push(".venv".to_owned());
            v.push("venv".to_owned());
            v.push("env".to_owned());
        },
        Ecosystem::Cargo => {
            v.push("vendor".to_owned());
            v.push(".cargo".to_owned());
        },
        Ecosystem::Jvm => {
            v.push("libs".to_owned());
        },
        Ecosystem::Dart => {
            v.push(".dart_tool".to_owned());
        },
        Ecosystem::Dotnet => {
            v.push("packages".to_owned());
        },
        Ecosystem::Swift => {
            v.push(".build".to_owned());
        },
        _ => {
            v.push("deps".to_owned());
        },
    }
    assert(str_views(v@) =~= sync_subdirs(eco)->Some_0);
    v
}

/// Where a sync of `link` into its resolved target may write: the whole
/// consumer for npm; the directory that holds the target for a custom link
/// (the consumer when the target has none); else the directories of the
/// consumer that its package manager fills. The target's forbidden roots
/// stay forbidden.
pub fn build_allowlist_for_link(link: &LinkEntry, resolved: &ResolvedSyncTarget) -> (r: WriteAllowlist)
    ensures
        r@ == allowlist_of(*link, resolved@),
{
    let forbidden = copy_strings(&resolved.forbidden_roots);
    match link.ecosystem {
        Ecosystem::Npm => PnpmStoreDetector::build_allowlist(link.consumer_root.as_str(), forbidden),
        Ecosystem::Custom => {
            let allowed = match parent_exec(resolved.sync_target.as_str()) {
                Some(p) => p,
                None => link.consumer_root.clone(),
            };
            let mut roots: Vec<String> = Vec::new();
            roots.push(allowed);
            let r = WriteAllowlist::from_allowed_roots(roots, forbidden);
            assert(r@.allowed =~= allowlist_of(*link, resolved@).allowed);
            r
        },
        _ => {
            let subdirs = subdirs_for(link.ecosystem);
            WriteAllowlist::from_consumer_subdirs(link.consumer_root.as_str(), &subdirs, forbidden)
        },
    }
}

/// Refuses an npm link whose sync target lies in the pnpm global store;
/// every other link passes.
pub fn ensure_isolation(fs: &FsView, link: &LinkEntry, resolved: &ResolvedSyncTarget, global_roots: &Vec<String>) -> (r: LinkdResult<()>)
    ensures
        res_unit(r) == if link.ecosystem == Ecosystem::Npm && in_store(
            *fs,
            resolved.sync_target@,
            str_views(global_roots@),
        ) {
            Err::<(), ErrView>(ErrView::PnpmGlobalStoreForbidden(resolved.sync_target@))
        } else {
            Ok(())
        },
{
    if link.ecosystem == Ecosystem::Npm {
        PnpmStoreDetector::assert_never_writes_global_store(fs, resolved.sync_target.as_str(), global_roots)
    } else {
        Ok(())
    }
}

/// A resolved link never has a source and a sync target that are the same
/// path or nested in one another, and its target is the one resolved.
pub proof fn lemma_resolved_link_apart(
    fs: FsView,
    s: Seq<char>,
    c: Seq<char>,
    eco: Option<Ecosystem>,
    custom: Option<Seq<char>>,
    roots: Seq<Seq<char>>,
)
    ensures
        link_result(fs, s, c, eco, custom, roots) matches Ok(l) ==> {
            &&& link_paths_check(s, l.sync_target) == Ok::<(), ErrView>(())
            &&& l.resolved.sync == l.sync_target
            &&& l.ecosystem == chosen_ecosystem(fs, s, c, eco, custom)
        },
{
}

/// Outside npm and custom links, a package is written where its package
/// manager expects it, in the consumer, with no forbidden roots.
pub proof fn lemma_project_local_ecosystems(
    e: Ecosystem,
    fs: FsView,
    c: Seq<char>,
    name: Seq<char>,
    custom: Option<Seq<char>>,
    roots: Seq<Seq<char>>,
)
    requires
        e != Ecosystem::Npm,
        e != Ecosystem::Custom,
    ensures
        target_result(e, fs, c, name, custom, roots) matches Ok(t) ==> {
            &&& t.sync == t.logical
            &&& t.mode == crate::model::IsolationMode::ProjectLocal
            &&& t.forbidden.len() == 0
        },
{
}

/// Whatever the ecosystem, a sync may never write in the roots that its
/// target forbids.
pub proof fn lemma_allowlist_keeps_forbidden(link: LinkEntry, t: TargetView)
    ensures
        allowlist_of(link, t).forbidden == t.forbidden,
{
}

/// An npm link forbids its syncs exactly the pnpm store roots.
pub proof fn lemma_npm_store_forbidden(fs: FsView, link: LinkEntry, custom: Option<Seq<char>>, roots: Seq<Seq<char>>)
    requires
        link.ecosystem == Ecosystem::Npm,
    ensures
        target_result(Ecosystem::Npm, fs, link.consumer_root@, link.package_name@, custom, roots) matches Ok(t)
            && allowlist_of(link, t).forbidden == roots,
{
}

/// Every link into a package manager's place has a completion marker to
/// watch.
pub proof fn lemma_markers_nonempty(e: Ecosystem, fs: FsView, c: Seq<char>)
    requires
        e != Ecosystem::Custom,
    ensures
        markers_of(e, fs, c).len() > 0,
{
}

/// The markers of a custom link are sorted, hold no path twice, and name
/// both its source and its target.
pub proof fn lemma_custom_markers(a: Seq<char>, b: Seq<char>)
    ensures
        forall|i: int, j: int|
            0 <= i < j < custom_markers(a, b).len() ==> path_order(
                #[trigger] custom_markers(a, b)[i],
                #[trigger] custom_markers(a, b)[j],
            ) < 0,
        exists|i: int| 0 <= i < custom_markers(a, b).len() && crate::paths::same_path(#[trigger] custom_markers(a, b)[i], a),
        exists|i: int| 0 <= i < custom_markers(a, b).len() && crate::paths::same_path(#[trigger] custom_markers(a, b)[i], b),
{
    crate::order::lemma_path_le(a, b, b);
    let m = custom_markers(a, b);
    if path_order(a, b) == 0 {
        assert(crate::paths::same_path(m[0], a));
        assert(crate::paths::same_path(m[0], b));
    } else if path_order(a, b) < 0 {
        assert(crate::paths::same_path(m[0], a));
        assert(crate::paths::same_path(m[1], b));
    } else {
        assert(crate::paths::same_path(m[1], a));
        assert(crate::paths::same_path(m[0], b));
    }
}

/// Whether the parts of package `name` that ecosystem `e` joins below its
/// directory stay there: none of them begins with `/`, which `join` would
/// take as a root of its own.
pub open spec fn name_stays_inside(e: Ecosystem, name: Seq<char>) -> bool {
    match e {
        Ecosystem::Go | Ecosystem::Composer | Ecosystem::Custom => true,
        Ecosystem::Jvm => !starts_with_char(jvm::artifact_of(name), '/'),
        Ecosystem::Npm => !starts_with_char(name, '/') && match find(name, seq!['/']) {
            Some(k) => starts_with_char(name, '@') ==> !starts_with_char(
                name.subrange(k + 1, name.len() as int),
                '/',
            ),
            None => true,
        },
        _ => !starts_with_char(name, '/'),
    }
}

/// Whether `p` lies below one of `roots`.
pub open spec fn below_one_of(p: Seq<char>, roots: Seq<Seq<char>>) -> bool {
    exists|i: int| 0 <= i < roots.len() && path_starts_with(p, #[trigger] roots[i])
}

proof fn lemma_join2_below(b: Seq<char>, s1: Seq<char>, s2: Seq<char>)
    requires
        !starts_with_char(s1, '/'),
        !starts_with_char(s2, '/'),
    ensures
        path_starts_with(join(join(b, s1), s2), b),
{
    lemma_join_below(b, s1);
    lemma_join_below(join(b, s1), s2);
    lemma_below_trans(join(join(b, s1), s2), join(b, s1), b);
}

proof fn lemma_join3_below(b: Seq<char>, s1: Seq<char>, s2: Seq<char>, s3: Seq<char>)
    requires
        !starts_with_char(s1, '/'),
        !starts_with_char(s2, '/'),
        !starts_with_char(s3, '/'),
    ensures
        path_starts_with(join(join(join(b, s1), s2), s3), b),
{
    lemma_join2_below(b, s1, s2);
    lemma_join_below(join(join(b, s1), s2), s3);
    lemma_below_trans(join(join(join(b, s1), s2), s3), join(join(b, s1), s2), b);
}

proof fn lemma_first_slash(name: Seq<char>)
    ensures
        find(name, seq!['/']) matches Some(k) ==> 0 <= k < name.len() && name[k] == '/'
            && !starts_with_char(name.subrange(0, k), '/'),
        find(name, seq!['/']) is None ==> !starts_with_char(name, '/'),
{
    lemma_find_some(name, seq!['/']);
    match find(name, seq!['/']) {
        Some(k) => {
            assert(name.subrange(k, k + 1)[0] == name[k]);
            if k > 0 && name[0] == '/' {
                assert(name.subrange(0, 1) =~= seq!['/']);
                assert(occurs_at(name, seq!['/'], 0));
            }
        },
        None => {
            if name.len() > 0 && name[0] == '/' {
                assert(name.subrange(0, 1) =~= seq!['/']);
                assert(occurs_at(name, seq!['/'], 0));
            }
        },
    }
}

/// A sync only writes where it is allowed: the sync target of every
/// ecosystem lies below one of the roots of its allowlist, for every
/// package name whose parts stay below their directory, and for every
/// custom target that has a parent directory.
pub proof fn lemma_sync_target_allowed(fs: FsView, link: LinkEntry, custom: Option<Seq<char>>, roots: Seq<Seq<char>>)
    requires
        name_stays_inside(link.ecosystem, link.package_name@),
        link.ecosystem == Ecosystem::Custom ==> (custom matches Some(t) ==> parent(t) is Some),
    ensures
        target_result(link.ecosystem, fs, link.consumer_root@, link.package_name@, custom, roots) matches Ok(t)
            ==> below_one_of(t.sync, allowlist_of(link, t).allowed),
{
    reveal_strlit("vendor");
    reveal_strlit("libs");
    reveal_strlit(".dart_tool");
    reveal_strlit("packages");
    reveal_strlit("bundle");
    reveal_strlit("gems");
    reveal_strlit(".build");
    reveal_strlit("checkouts");
    reveal_strlit("deps");
    reveal_strlit("node_modules");
    reveal_strlit(".linkd-shadow");
    let c = link.consumer_root@;
    let name = link.package_name@;
    let e = link.ecosystem;
    match target_result(e, fs, c, name, custom, roots) {
        Ok(t) => {
            let allowed = allowlist_of(link, t).allowed;
            match e {
                Ecosystem::Npm => {
                    let nm = join(c, "node_modules"@);
                    lemma_join_below(c, "node_modules"@);
                    lemma_join2_below(c, "node_modules"@, ".linkd-shadow"@);
                    lemma_join_below(join(nm, ".linkd-shadow"@), name);
                    lemma_below_trans(shadow_target(c, name), join(nm, ".linkd-shadow"@), c);
                    lemma_first_slash(name);
                    match find(name, seq!['/']) {
                        Some(k) => {
                            if starts_with_char(name, '@') {
                                let scope = name.subrange(0, k);
                                let rest = name.subrange(k + 1, name.len() as int);
                                lemma_join2_below(nm, scope, rest);
                                lemma_below_trans(join(join(nm, scope), rest), nm, c);
                            } else {
                                lemma_join_below(nm, name);
                                lemma_below_trans(join(nm, name), nm, c);
                            }
                        },
                        None => {
                            lemma_join_below(nm, name);
                            lemma_below_trans(join(nm, name), nm, c);
                        },
                    }
                    assert(path_starts_with(t.sync, allowed[0]));
                },
                Ecosystem::Composer => {
                    let (v, p) = composer::vendor_parts(name)->Some_0;
                    lemma_first_slash(name);
                    let k = find(name, seq!['/'])->Some_0;
                    lemma_first_slash(name.subrange(k + 1, name.len() as int));
                    lemma_join2_below(join(c, "vendor"@), v, p);
                    assert(allowed[0] == join(c, "vendor"@));
                    assert(path_starts_with(t.sync, allowed[0]));
                },
                Ecosystem::Python => {
                    python::lemma_site_in_venv(fs, c);
                    let site = match python::find_site(fs, c) {
                        Some(s) => s,
                        None => python::default_site(c),
                    };
                    assert(!starts_with_char(python::import_name(name), '/'));
                    lemma_join_below(site, python::import_name(name));
                    assert(allowed[0] == join(c, ".venv"@));
                    assert(allowed[1] == join(c, "venv"@));
                    assert(allowed[2] == join(c, "env"@));
                    if path_starts_with(site, join(c, ".venv"@)) {
                        lemma_below_trans(t.sync, site, allowed[0]);
                        assert(path_starts_with(t.sync, allowed[0]));
                    } else if path_starts_with(site, join(c, "venv"@)) {
                        lemma_below_trans(t.sync, site, allowed[1]);
                        assert(path_starts_with(t.sync, allowed[1]));
                    } else {
                        lemma_below_trans(t.sync, site, allowed[2]);
                        assert(path_starts_with(t.sync, allowed[2]));
                    }
                },
                Ecosystem::Go => {
                    go::lemma_join_parts_below(join(c, "vendor"@), name);
                    assert(path_starts_with(t.sync, allowed[0]));
                },
                Ecosystem::Cargo => {
                    lemma_join_below(join(c, "vendor"@), name);
                    assert(path_starts_with(t.sync, allowed[0]));
                },
                Ecosystem::Jvm => {
                    lemma_join_below(join(c, "libs"@), jvm::artifact_of(name));
                    assert(path_starts_with(t.sync, allowed[0]));
                },
                Ecosystem::Dart => {
                    lemma_join2_below(join(c, ".dart_tool"@), "packages"@, name);
                    assert(path_starts_with(t.sync, allowed[0]));
                },
                Ecosystem::Dotnet => {
                    lemma_join_below(join(c, "packages"@), name);
                    assert(path_starts_with(t.sync, allowed[0]));
                },
                Ecosystem::Ruby => {
                    lemma_join3_below(join(c, "vendor"@), "bundle"@, "gems"@, name);
                    assert(path_starts_with(t.sync, allowed[0]));
                },
                Ecosystem::Swift => {
                    lemma_join2_below(join(c, ".build"@), "checkouts"@, name);
                    assert(path_starts_with(t.sync, allowed[0]));
                },
                Ecosystem::Elixir => {
                    lemma_join_below(join(c, "deps"@), name);
                    assert(path_starts_with(t.sync, allowed[0]));
                },
                Ecosystem::Custom => {
                    lemma_below_parent(t.sync);
                    assert(path_starts_with(t.sync, allowed[0]));
                },
            }
        },
        Err(_) => {},
    }
}

/// A source with a Maven or Gradle build file (`pom.xml`, `build.gradle` or
/// the Kotlin `build.gradle.kts`) and no Python, Go or Cargo manifest is
/// detected as a JVM package, whatever the consumer holds.
pub proof fn lemma_source_build_file_is_jvm(fs: FsView, s: Seq<char>, c: Seq<char>)
    requires
        !fs.is_file(join(s, "pyproject.toml"@)),
        !fs.is_file(join(s, "setup.py"@)),
        !fs.is_file(join(s, "setup.cfg"@)),
        !fs.is_file(join(s, "go.mod"@)),
        !fs.is_file(join(s, "Cargo.toml"@)),
        fs.is_file(join(s, "pom.xml"@)) || fs.is_file(join(s, "build.gradle"@)) || fs.is_file(
            join(s, "build.gradle.kts"@),
        ),
    ensures
        detected_ecosystem(fs, s, c) == Ecosystem::Jvm,
{
}

/// Whether `dir` holds a file named `name`.
pub open spec fn holds_file(fs: FsView, dir: Seq<char>, name: Seq<char>) -> bool {
    fs.is_file(join(dir, name))
}

/// The order of detection: the source's manifests decide first (Python,
/// then Go, Cargo, a JVM build, Composer without `package.json`, npm);
/// only a source with none of them leaves it to the consumer (a virtual
/// environment or `Pipfile`, then Go, Cargo, Maven or Gradle, Composer);
/// npm is what remains.
pub proof fn lemma_detection_order(fs: FsView, s: Seq<char>, c: Seq<char>)
    ensures
        holds_file(fs, s, "pyproject.toml"@) || holds_file(fs, s, "setup.py"@) || holds_file(fs, s, "setup.cfg"@)
            ==> detected_ecosystem(fs, s, c) == Ecosystem::Python,
        ({
            let no_py = !holds_file(fs, s, "pyproject.toml"@) && !holds_file(fs, s, "setup.py"@) && !holds_file(
                fs,
                s,
                "setup.cfg"@,
            );
            let no_go = !holds_file(fs, s, "go.mod"@);
            let no_cargo = !holds_file(fs, s, "Cargo.toml"@);
            let no_jvm = !holds_file(fs, s, "pom.xml"@) && !holds_file(fs, s, "build.gradle"@) && !holds_file(
                fs,
                s,
                "build.gradle.kts"@,
            );
            let no_php = !(holds_file(fs, s, "composer.json"@) && !holds_file(fs, s, "package.json"@));
            let no_npm = !holds_file(fs, s, "package.json"@);
            let c_py = fs.has_path(join(c, ".venv"@)) || fs.has_path(join(c, "venv"@)) || holds_file(fs, c, "Pipfile"@);
            let c_go = holds_file(fs, c, "go.mod"@) || holds_file(fs, c, "go.work"@);
            let c_cargo = holds_file(fs, c, "Cargo.toml"@);
            let c_jvm = holds_file(fs, c, "pom.xml"@) || holds_file(fs, c, "build.gradle"@);
            let c_php = holds_file(fs, c, "composer.json"@) && !holds_file(fs, c, "package.json"@);
            let src_none = no_py && no_go && no_cargo && no_jvm && no_php && no_npm;
            &&& no_py && !no_go ==> detected_ecosystem(fs, s, c) == Ecosystem::Go
            &&& no_py && no_go && !no_cargo ==> detected_ecosystem(fs, s, c) == Ecosystem::Cargo
            &&& no_py && no_go && no_cargo && !no_jvm ==> detected_ecosystem(fs, s, c) == Ecosystem::Jvm
            &&& no_py && no_go && no_cargo && no_jvm && !no_php ==> detected_ecosystem(fs, s, c) == Ecosystem::Composer
            &&& no_py && no_go && no_cargo && no_jvm && no_php && !no_npm ==> detected_ecosystem(fs, s, c)
                == Ecosystem::Npm
            &&& src_none && c_py ==> detected_ecosystem(fs, s, c) == Ecosystem::Python
            &&& src_none && !c_py && c_go ==> detected_ecosystem(fs, s, c) == Ecosystem::Go
            &&& src_none && !c_py && !c_go && c_cargo ==> detected_ecosystem(fs, s, c) == Ecosystem::Cargo
            &&& src_none && !c_py && !c_go && !c_cargo && c_jvm ==> detected_ecosystem(fs, s, c) == Ecosystem::Jvm
            &&& src_none && !c_py && !c_go && !c_cargo && !c_jvm && c_php ==> detected_ecosystem(fs, s, c)
                == Ecosystem::Composer
            &&& src_none && !c_py && !c_go && !c_cargo && !c_jvm && !c_php ==> detected_ecosystem(fs, s, c)
                == Ecosystem::Npm
        }),
{
}

} // verus!

