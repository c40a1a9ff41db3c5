//! Dart and Flutter packages: synced into `.dart_tool/packages/`.

use vstd::prelude::*;
use crate::fs::{markers_with_fallback, read_text, read_text_exec, retain_with_parent, str_views, FsView};
use crate::manifest::{opt_str, read_name, read_name_safe, LineRule, Rule};
use crate::model::{
    project_local, project_local_target, res_str, some_or_not_found, name_or_not_found_exec, ErrView, LinkdError,
    LinkdResult, ResolvedSyncTarget,
};
use crate::paths::{components, join, path_join};

verus! {

/// Hint shown after a Dart package was synced.
pub const DART_HINT: &'static str = "Flutter/Dart package synced into .dart_tool/packages";

/// Files whose change shows that `pub get` finished in the consumer.
pub open spec fn marker_candidates(consumer: Seq<char>) -> Seq<Seq<char>> {
    seq![
        join(consumer, "pubspec.lock"@),
        join(join(consumer, ".dart_tool"@), "package_config.json"@),
        join(consumer, ".packages"@),
    ]
}

/// The completion markers of `consumer`: the candidates whose directory
/// exists, or the fallback when none does.
pub open spec fn markers(fs: FsView, consumer: Seq<char>) -> Seq<Seq<char>> {
    markers_with_fallback(fs, marker_candidates(consumer), join(consumer, "pubspec.lock"@))
}

/// The markers whose directory exists, else `pubspec.lock`.
pub fn completion_markers(fs: &FsView, consumer_root: &str) -> (r: Vec<String>)
    ensures
        str_views(r@) == markers(*fs, consumer_root@),
{
    let tool = path_join(consumer_root, ".dart_tool");
    let mut cands: Vec<String> = Vec::new();
    cands.push(path_join(consumer_root, "pubspec.lock"));
    cands.push(path_join(tool.as_str(), "package_config.json"));
    cands.push(path_join(consumer_root, ".packages"));
    assert(str_views(cands@) =~= marker_candidates(consumer_root@));
    retain_with_parent(fs, cands, path_join(consumer_root, "pubspec.lock"))
}

/// The hint after every Dart sync.
pub fn post_sync_hint(source: &str, consumer: &str) -> (r: Option<String>)
    ensures
        opt_str(r) == Some(DART_HINT@),
{
    Some(DART_HINT.to_owned())
}

/// What reading the package name of `source` gives.
pub open spec fn name_result(fs: FsView, source: Seq<char>) -> Result<Seq<char>, ErrView> {
    let p = join(source, "pubspec.yaml"@);
    if !fs.is_file(p) {
        Err(ErrView::PackageNotFound("pubspec.yaml not found"@))
    } else {
        match read_text(fs, p) {
            Err(m) => Err(ErrView::Io(p, m)),
            Ok(t) => some_or_not_found(
                read_name(t, LineRule::Pubspec),
                "name field in pubspec.yaml"@,
            ),
        }
    }
}

/// The package name: the `name:` line of `pubspec.yaml`.
pub fn parse_package_name(fs: &FsView, source: &str) -> (r: LinkdResult<String>)
    ensures
        res_str(r) == name_result(*fs, source@),
{
    let p = path_join(source, "pubspec.yaml");
    if !fs.is_file_exec(p.as_str()) {
        return Err(LinkdError::PackageNotFound("pubspec.yaml not found".to_owned()));
    }
    match read_text_exec(fs, p.as_str()) {
        Err(m) => Err(LinkdError::Io { path: p, message: m }),
        Ok(t) => {
            let name = read_name_safe(t.as_str(), &Rule::Pubspec);
            name_or_not_found_exec(name, "name field in pubspec.yaml")
        },
    }
}

/// `consumer_root/.dart_tool/packages/<package_name>`.
pub fn resolve_dart_target(consumer_root: &str, package_name: &str) -> (r: LinkdResult<ResolvedSyncTarget>)
    ensures
        r matches Ok(t) && project_local(
            join(join(join(consumer_root@, ".dart_tool"@), "packages"@), package_name@),
            t,
        ),
{
    let a = path_join(consumer_root, ".dart_tool");
    let b = path_join(a.as_str(), "packages");
    Ok(project_local_target(path_join(b.as_str(), package_name)))
}

/// A `pubspec.yaml` in the source or consumer, or a consumer `.dart_tool`.
pub fn detect_dart(fs: &FsView, source: &str, consumer: &str) -> (r: bool)
    ensures
        r == (fs.is_file(join(source@, "pubspec.yaml"@)) || fs.is_file(
            join(consumer@, "pubspec.yaml"@),
        ) || fs.has_path(join(consumer@, ".dart_tool"@))),
{
    fs.is_file_exec(path_join(source, "pubspec.yaml").as_str()) || fs.is_file_exec(
        path_join(consumer, "pubspec.yaml").as_str(),
    ) || fs.exists_exec(path_join(consumer, ".dart_tool").as_str())
}

/// The completion markers of a Dart consumer: with the consumer and the
/// directories of all candidates present, `pubspec.lock`, `.dart_tool/package_config.json` and `.packages`, in this order; without the
/// consumer, `pubspec.lock` alone. This holds of every view that, as a file
/// system does, holds the directory of each of its entries, for a consumer
/// path with at least one component.
pub proof fn lemma_dart_markers(fs: FsView, c: Seq<char>)
    requires
        fs.parents_present(),
        components(c).len() > 0,
    ensures
        fs.has_path(c) && fs.has_path(join(c, ".dart_tool"@)) ==> markers(fs, c) == seq![
            join(c, "pubspec.lock"@),
            join(join(c, ".dart_tool"@), "package_config.json"@),
            join(c, ".packages"@),
        ],
        !fs.has_path(c) ==> markers(fs, c) == seq![join(c, "pubspec.lock"@)],
{
    reveal_strlit("pubspec.lock");
    assert(crate::paths::plain_name("pubspec.lock"@)) by {
        reveal_with_fuel(crate::paths::slash_free, 13);
        crate::paths::lemma_plain_name("pubspec.lock"@);
    }
    reveal_strlit(".dart_tool");
    assert(crate::paths::plain_name(".dart_tool"@)) by {
        reveal_with_fuel(crate::paths::slash_free, 11);
        crate::paths::lemma_plain_name(".dart_tool"@);
    }
    reveal_strlit("package_config.json");
    assert(crate::paths::plain_name("package_config.json"@)) by {
        reveal_with_fuel(crate::paths::slash_free, 20);
        crate::paths::lemma_plain_name("package_config.json"@);
    }
    reveal_strlit(".packages");
    assert(crate::paths::plain_name(".packages"@)) by {
        reveal_with_fuel(crate::paths::slash_free, 10);
        crate::paths::lemma_plain_name(".packages"@);
    }
    if fs.has_path(join(c, ".dart_tool"@)) {
        crate::fs::lemma_parent_present(fs, c, ".dart_tool"@);
    }
    crate::fs::lemma_parent_of_join(fs, c, "pubspec.lock"@);
    crate::fs::lemma_parent_of_join(fs, join(c, ".dart_tool"@), "package_config.json"@);
    crate::fs::lemma_parent_of_join(fs, c, ".packages"@);
    let cands = marker_candidates(c);
    assert(cands[0] == join(c, "pubspec.lock"@));
    assert(cands[1] == join(join(c, ".dart_tool"@), "package_config.json"@));
    assert(cands[2] == join(c, ".packages"@));
    if fs.has_path(c) && fs.has_path(join(c, ".dart_tool"@)) {
        crate::fs::lemma_keep_all(fs, cands);
    }
    if !fs.has_path(c) {
        crate::fs::lemma_keep_none(fs, cands);
    }
}

/// A Dart package is named by the `name:` line of its `pubspec.yaml`; a
/// package without a `pubspec.yaml`, or without such a line, is refused.
pub proof fn lemma_pubspec_name(fs: FsView, s: Seq<char>)
    ensures
        fs.is_file(join(s, "pubspec.yaml"@)) ==> (read_text(fs, join(s, "pubspec.yaml"@)) matches Ok(t) ==> (
        read_name(t, LineRule::Pubspec) matches Some(n) ==> name_result(fs, s) == Ok::<Seq<char>, ErrView>(n))),
        fs.is_file(join(s, "pubspec.yaml"@)) ==> (read_text(fs, join(s, "pubspec.yaml"@)) matches Ok(t) ==> (
        read_name(t, LineRule::Pubspec) is None ==> name_result(fs, s) == Err::<Seq<char>, ErrView>(
            ErrView::PackageNotFound("name field in pubspec.yaml"@),
        ))),
        !fs.is_file(join(s, "pubspec.yaml"@)) ==> name_result(fs, s) == Err::<Seq<char>, ErrView>(
            ErrView::PackageNotFound("pubspec.yaml not found"@),
        ),
{
}

} // verus!
