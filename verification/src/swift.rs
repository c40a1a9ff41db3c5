//! Swift packages: synced into `.build/checkouts/`.

use vstd::prelude::*;
use crate::fs::{markers_with_fallback, read_text, read_text_exec, retain_with_parent, str_views, FsView};
use crate::manifest::{opt_str, read_name, read_name_safe, LineRule, Rule};
use crate::model::{
    project_local, project_local_target, res_str, some_or_not_found, name_or_not_found_exec, ErrView, LinkdError,
    LinkdResult, ResolvedSyncTarget,
};
use crate::paths::{components, file_name, file_name_exec, join, path_join};

verus! {

/// Hint shown after a Swift package was synced.
pub const SWIFT_HINT: &'static str = "Swift package synced into .build/checkouts. Run 'swift build' to compile.";

/// Files whose change shows that SwiftPM finished resolving in the consumer.
pub open spec fn marker_candidates(consumer: Seq<char>) -> Seq<Seq<char>> {
    seq![join(consumer, "Package.resolved"@), join(join(consumer, ".build"@), "workspace-state.json"@)]
}

/// The completion markers of `consumer`: the candidates whose directory
/// exists, or the fallback when none does.
pub open spec fn markers(fs: FsView, consumer: Seq<char>) -> Seq<Seq<char>> {
    markers_with_fallback(fs, marker_candidates(consumer), join(consumer, "Package.resolved"@))
}

/// The markers whose directory exists, else `Package.resolved`.
pub fn completion_markers(fs: &FsView, consumer_root: &str) -> (r: Vec<String>)
    ensures
        str_views(r@) == markers(*fs, consumer_root@),
{
    let build = path_join(consumer_root, ".build");
    let mut cands: Vec<String> = Vec::new();
    cands.push(path_join(consumer_root, "Package.resolved"));
    cands.push(path_join(build.as_str(), "workspace-state.json"));
    assert(str_views(cands@) =~= marker_candidates(consumer_root@));
    retain_with_parent(fs, cands, path_join(consumer_root, "Package.resolved"))
}

/// The hint after every Swift sync.
pub fn post_sync_hint(source: &str, consumer: &str) -> (r: Option<String>)
    ensures
        opt_str(r) == Some(SWIFT_HINT@),
{
    Some(SWIFT_HINT.to_owned())
}

/// What reading the package name of `source` gives.
pub open spec fn name_result(fs: FsView, source: Seq<char>) -> Result<Seq<char>, ErrView> {
    let p = join(source, "Package.swift"@);
    if !fs.is_file(p) {
        Err(ErrView::PackageNotFound("Package.swift not found"@))
    } else {
        match read_text(fs, p) {
            Err(m) => Err(ErrView::Io(p, m)),
            Ok(t) => some_or_not_found(
                match read_name(t, LineRule::SwiftName) {
                    Some(n) => Some(n),
                    None => file_name(source),
                },
                "Swift package name in Package.swift"@,
            ),
        }
    }
}

/// The package name: the first quoted `name:` in `Package.swift`, else the
/// name of the source directory.
pub fn parse_package_name(fs: &FsView, source: &str) -> (r: LinkdResult<String>)
    ensures
        res_str(r) == name_result(*fs, source@),
{
    let p = path_join(source, "Package.swift");
    if !fs.is_file_exec(p.as_str()) {
        return Err(LinkdError::PackageNotFound("Package.swift not found".to_owned()));
    }
    match read_text_exec(fs, p.as_str()) {
        Err(m) => Err(LinkdError::Io { path: p, message: m }),
        Ok(t) => {
            let name = match read_name_safe(t.as_str(), &Rule::SwiftName) {
                Some(n) => Some(n),
                None => file_name_exec(source),
            };
            name_or_not_found_exec(name, "Swift package name in Package.swift")
        },
    }
}

/// `consumer_root/.build/checkouts/<package_name>`.
pub fn resolve_swift_target(consumer_root: &str, package_name: &str) -> (r: LinkdResult<ResolvedSyncTarget>)
    ensures
        r matches Ok(t) && project_local(
            join(join(join(consumer_root@, ".build"@), "checkouts"@), package_name@),
            t,
        ),
{
    let a = path_join(consumer_root, ".build");
    let b = path_join(a.as_str(), "checkouts");
    Ok(project_local_target(path_join(b.as_str(), package_name)))
}

/// A `Package.swift` in the source or consumer, a consumer
/// `Package.resolved`, or a consumer `.build`.
pub fn detect_swift(fs: &FsView, source: &str, consumer: &str) -> (r: bool)
    ensures
        r == (fs.is_file(join(source@, "Package.swift"@)) || fs.is_file(
            join(consumer@, "Package.swift"@),
        ) || fs.is_file(join(consumer@, "Package.resolved"@)) || fs.has_path(
            join(consumer@, ".build"@),
        )),
{
    fs.is_file_exec(path_join(source, "Package.swift").as_str()) || fs.is_file_exec(
        path_join(consumer, "Package.swift").as_str(),
    ) || fs.is_file_exec(path_join(consumer, "Package.resolved").as_str()) || fs.exists_exec(
        path_join(consumer, ".build").as_str(),
    )
}

/// The completion markers of a Swift consumer: with the consumer and the
/// directories of all candidates present, `Package.resolved` and `.build/workspace-state.json`, in this order; without the
/// consumer, `Package.resolved` alone. This holds of every view that, as a file
/// system does, holds the directory of each of its entries, for a consumer
/// path with at least one component.
pub proof fn lemma_swift_markers(fs: FsView, c: Seq<char>)
    requires
        fs.parents_present(),
        components(c).len() > 0,
    ensures
        fs.has_path(c) && fs.has_path(join(c, ".build"@)) ==> markers(fs, c) == seq![
            join(c, "Package.resolved"@),
            join(join(c, ".build"@), "workspace-state.json"@),
        ],
        !fs.has_path(c) ==> markers(fs, c) == seq![join(c, "Package.resolved"@)],
{
    reveal_strlit("Package.resolved");
    assert(crate::paths::plain_name("Package.resolved"@)) by {
        reveal_with_fuel(crate::paths::slash_free, 17);
        crate::paths::lemma_plain_name("Package.resolved"@);
    }
    reveal_strlit(".build");
    assert(crate::paths::plain_name(".build"@)) by {
        reveal_with_fuel(crate::paths::slash_free, 7);
        crate::paths::lemma_plain_name(".build"@);
    }
    reveal_strlit("workspace-state.json");
    assert(crate::paths::plain_name("workspace-state.json"@)) by {
        reveal_with_fuel(crate::paths::slash_free, 21);
        crate::paths::lemma_plain_name("workspace-state.json"@);
    }
    if fs.has_path(join(c, ".build"@)) {
        crate::fs::lemma_parent_present(fs, c, ".build"@);
    }
    crate::fs::lemma_parent_of_join(fs, c, "Package.resolved"@);
    crate::fs::lemma_parent_of_join(fs, join(c, ".build"@), "workspace-state.json"@);
    let cands = marker_candidates(c);
    assert(cands[0] == join(c, "Package.resolved"@));
    assert(cands[1] == join(join(c, ".build"@), "workspace-state.json"@));
    if fs.has_path(c) && fs.has_path(join(c, ".build"@)) {
        crate::fs::lemma_keep_all(fs, cands);
    }
    if !fs.has_path(c) {
        crate::fs::lemma_keep_none(fs, cands);
    }
}

/// The package is named from its `Package.swift` (`LineRule::SwiftName`), else by
/// the name of its directory; a package without `Package.swift` is refused.
pub proof fn lemma_swift_manifest_name(fs: FsView, s: Seq<char>)
    ensures
        fs.is_file(join(s, "Package.swift"@)) ==> (read_text(fs, join(s, "Package.swift"@)) matches Ok(t) ==> (read_name(
            t,
            LineRule::SwiftName,
        ) matches Some(n) ==> name_result(fs, s) == Ok::<Seq<char>, ErrView>(n))),
        fs.is_file(join(s, "Package.swift"@)) ==> (read_text(fs, join(s, "Package.swift"@)) matches Ok(t) ==> (read_name(
            t,
            LineRule::SwiftName,
        ) is None ==> (file_name(s) matches Some(d) ==> name_result(fs, s) == Ok::<Seq<char>, ErrView>(d)))),
        !fs.is_file(join(s, "Package.swift"@)) ==> name_result(fs, s) == Err::<Seq<char>, ErrView>(
            ErrView::PackageNotFound("Package.swift not found"@),
        ),
{
}

} // verus!
