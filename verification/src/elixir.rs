//! Elixir dependencies: synced into `deps/`.

use vstd::prelude::*;
use crate::listing::{strictly_sorted_paths, list_files_with, sorted_paths, walked, ListRule};
use crate::fs::{markers_with_fallback, read_text, read_text_exec, retain_with_parent, str_views, FsView};
use crate::manifest::{opt_str, read_name, read_name_safe, LineRule, Rule};
use crate::model::{
    project_local, project_local_target, res_str, some_or_not_found, name_or_not_found_exec, ErrView, LinkdError,
    LinkdResult, ResolvedSyncTarget,
};
use crate::paths::{components, file_name, file_name_exec, join, path_join};

verus! {

/// Hint shown after an Elixir dependency was synced.
pub const ELIXIR_HINT: &'static str = "Elixir dependency synced into deps/ folder. Run 'mix compile' to compile.";

/// Files whose change shows that `mix deps.get` finished in the consumer.
pub open spec fn marker_candidates(consumer: Seq<char>) -> Seq<Seq<char>> {
    seq![join(consumer, "mix.lock"@), join(consumer, "_build"@)]
}

/// The completion markers of `consumer`: the candidates whose directory
/// exists, or the fallback when none does.
pub open spec fn markers(fs: FsView, consumer: Seq<char>) -> Seq<Seq<char>> {
    markers_with_fallback(fs, marker_candidates(consumer), join(consumer, "mix.lock"@))
}

/// The markers whose directory exists, else `mix.lock`.
pub fn completion_markers(fs: &FsView, consumer_root: &str) -> (r: Vec<String>)
    ensures
        str_views(r@) == markers(*fs, consumer_root@),
{
    let mut cands: Vec<String> = Vec::new();
    cands.push(path_join(consumer_root, "mix.lock"));
    cands.push(path_join(consumer_root, "_build"));
    assert(str_views(cands@) =~= marker_candidates(consumer_root@));
    retain_with_parent(fs, cands, path_join(consumer_root, "mix.lock"))
}

/// The hint after every Elixir sync.
pub fn post_sync_hint(source: &str, consumer: &str) -> (r: Option<String>)
    ensures
        opt_str(r) == Some(ELIXIR_HINT@),
{
    Some(ELIXIR_HINT.to_owned())
}

/// What reading the package name of `source` gives.
pub open spec fn name_result(fs: FsView, source: Seq<char>) -> Result<Seq<char>, ErrView> {
    let p = join(source, "mix.exs"@);
    if !fs.is_file(p) {
        Err(ErrView::PackageNotFound("mix.exs not found"@))
    } else {
        match read_text(fs, p) {
            Err(m) => Err(ErrView::Io(p, m)),
            Ok(t) => some_or_not_found(
                match read_name(t, LineRule::MixApp) {
                    Some(n) => Some(n),
                    None => file_name(source),
                },
                "Elixir app name in mix.exs"@,
            ),
        }
    }
}

/// The app name: `app: :name` or `app: "name"` in `mix.exs`, else the name of
/// the source directory.
pub fn parse_package_name(fs: &FsView, source: &str) -> (r: LinkdResult<String>)
    ensures
        res_str(r) == name_result(*fs, source@),
{
    let p = path_join(source, "mix.exs");
    if !fs.is_file_exec(p.as_str()) {
        return Err(LinkdError::PackageNotFound("mix.exs not found".to_owned()));
    }
    match read_text_exec(fs, p.as_str()) {
        Err(m) => Err(LinkdError::Io { path: p, message: m }),
        Ok(t) => {
            let name = match read_name_safe(t.as_str(), &Rule::MixApp) {
                Some(n) => Some(n),
                None => file_name_exec(source),
            };
            name_or_not_found_exec(name, "Elixir app name in mix.exs")
        },
    }
}

/// `consumer_root/deps/<package_name>`.
pub fn resolve_elixir_target(consumer_root: &str, package_name: &str) -> (r: LinkdResult<ResolvedSyncTarget>)
    ensures
        r matches Ok(t) && project_local(join(join(consumer_root@, "deps"@), package_name@), t),
{
    let a = path_join(consumer_root, "deps");
    Ok(project_local_target(path_join(a.as_str(), package_name)))
}

/// A `mix.exs` in the source or consumer, or a consumer `mix.lock`.
pub fn detect_elixir(fs: &FsView, source: &str, consumer: &str) -> (r: bool)
    ensures
        r == (fs.is_file(join(source@, "mix.exs"@)) || fs.is_file(join(consumer@, "mix.exs"@))
            || fs.is_file(join(consumer@, "mix.lock"@))),
{
    fs.is_file_exec(path_join(source, "mix.exs").as_str()) || fs.is_file_exec(
        path_join(consumer, "mix.exs").as_str(),
    ) || fs.is_file_exec(path_join(consumer, "mix.lock").as_str())
}

/// The files of an Elixir package that are synced (see `ListRule::Elixir`).
pub fn list_files(fs: &FsView, source: &str) -> (r: LinkdResult<Vec<String>>)
    ensures
        r matches Ok(v) ==> (fs.distinct_paths() && source@.len() > 0 ==> strictly_sorted_paths(str_views(v@))),
        r matches Ok(v) && sorted_paths(str_views(v@)) && str_views(v@).to_multiset() == walked(
            *fs,
            source@,
            ListRule::Elixir,
            fs.len(),
        ).to_multiset(),
{
    Ok(list_files_with(fs, source, ListRule::Elixir))
}

/// The completion markers of a Elixir consumer: with the consumer and the
/// directories of all candidates present, `mix.lock` and `_build`, in this order; without the
/// consumer, `mix.lock` alone. This holds of every view that, as a file
/// system does, holds the directory of each of its entries, for a consumer
/// path with at least one component.
pub proof fn lemma_elixir_markers(fs: FsView, c: Seq<char>)
    requires
        fs.parents_present(),
        components(c).len() > 0,
    ensures
        fs.has_path(c) ==> markers(fs, c) == seq![
            join(c, "mix.lock"@),
            join(c, "_build"@),
        ],
        !fs.has_path(c) ==> markers(fs, c) == seq![join(c, "mix.lock"@)],
{
    reveal_strlit("mix.lock");
    assert(crate::paths::plain_name("mix.lock"@)) by {
        reveal_with_fuel(crate::paths::slash_free, 9);
        crate::paths::lemma_plain_name("mix.lock"@);
    }
    reveal_strlit("_build");
    assert(crate::paths::plain_name("_build"@)) by {
        reveal_with_fuel(crate::paths::slash_free, 7);
        crate::paths::lemma_plain_name("_build"@);
    }
    crate::fs::lemma_parent_of_join(fs, c, "mix.lock"@);
    crate::fs::lemma_parent_of_join(fs, c, "_build"@);
    let cands = marker_candidates(c);
    assert(cands[0] == join(c, "mix.lock"@));
    assert(cands[1] == join(c, "_build"@));
    if fs.has_path(c) {
        crate::fs::lemma_keep_all(fs, cands);
    }
    if !fs.has_path(c) {
        crate::fs::lemma_keep_none(fs, cands);
    }
}

/// The package is named from its `mix.exs` (`LineRule::MixApp`), else by
/// the name of its directory; a package without `mix.exs` is refused.
pub proof fn lemma_elixir_manifest_name(fs: FsView, s: Seq<char>)
    ensures
        fs.is_file(join(s, "mix.exs"@)) ==> (read_text(fs, join(s, "mix.exs"@)) matches Ok(t) ==> (read_name(
            t,
            LineRule::MixApp,
        ) matches Some(n) ==> name_result(fs, s) == Ok::<Seq<char>, ErrView>(n))),
        fs.is_file(join(s, "mix.exs"@)) ==> (read_text(fs, join(s, "mix.exs"@)) matches Ok(t) ==> (read_name(
            t,
            LineRule::MixApp,
        ) is None ==> (file_name(s) matches Some(d) ==> name_result(fs, s) == Ok::<Seq<char>, ErrView>(d)))),
        !fs.is_file(join(s, "mix.exs"@)) ==> name_result(fs, s) == Err::<Seq<char>, ErrView>(
            ErrView::PackageNotFound("mix.exs not found"@),
        ),
{
}

} // verus!
