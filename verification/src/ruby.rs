//! Ruby gems: synced into `vendor/bundle/gems/`.

use vstd::prelude::*;
use crate::fs::{markers_with_fallback, read_text, read_text_exec, retain_with_parent, str_views, FsView};
use crate::manifest::{opt_str, read_name, read_name_safe, LineRule, Rule};
use crate::model::{
    project_local, project_local_target, res_str, some_or_not_found, name_or_not_found_exec, ErrView,
    LinkdResult, ResolvedSyncTarget,
};
use crate::paths::{components, file_name, file_name_exec, join, path_join, stem_exec, stem_of};
use crate::text::{from_chars, lit, to_chars, views};

verus! {

/// Hint shown after a gem was synced.
pub const RUBY_HINT: &'static str = "Ruby gem synced into vendor/bundle/gems. Available to bundler.";

/// Files whose change shows that Bundler finished in the consumer.
pub open spec fn marker_candidates(consumer: Seq<char>) -> Seq<Seq<char>> {
    seq![join(consumer, "Gemfile.lock"@), join(join(consumer, ".bundle"@), "config"@)]
}

/// The completion markers of `consumer`: the candidates whose directory
/// exists, or the fallback when none does.
pub open spec fn markers(fs: FsView, consumer: Seq<char>) -> Seq<Seq<char>> {
    markers_with_fallback(fs, marker_candidates(consumer), join(consumer, "Gemfile.lock"@))
}

/// The markers whose directory exists, else `Gemfile.lock`.
pub fn completion_markers(fs: &FsView, consumer_root: &str) -> (r: Vec<String>)
    ensures
        str_views(r@) == markers(*fs, consumer_root@),
{
    let bundle = path_join(consumer_root, ".bundle");
    let mut cands: Vec<String> = Vec::new();
    cands.push(path_join(consumer_root, "Gemfile.lock"));
    cands.push(path_join(bundle.as_str(), "config"));
    assert(str_views(cands@) =~= marker_candidates(consumer_root@));
    retain_with_parent(fs, cands, path_join(consumer_root, "Gemfile.lock"))
}

/// The hint after every Ruby sync.
pub fn post_sync_hint(source: &str, consumer: &str) -> (r: Option<String>)
    ensures
        opt_str(r) == Some(RUBY_HINT@),
{
    Some(RUBY_HINT.to_owned())
}

/// The extension of gem specifications.
pub open spec fn gemspec_exts() -> Seq<Seq<char>> {
    seq!["gemspec"@]
}

/// The gem name: from the first `.gemspec` of the source (its `.name =`,
/// else its file stem), else the name of the source directory.
pub open spec fn gem_name(fs: FsView, source: Seq<char>) -> Option<Seq<char>> {
    match fs.first_child_with_ext(source, gemspec_exts()) {
        Some(i) => {
            let n = match read_text(fs, fs.path_at(i)) {
                Ok(t) => read_name(t, LineRule::Gemspec),
                Err(_) => None,
            };
            match n {
                Some(x) => Some(x),
                None => Some(stem_of(fs.name_at(i))),
            }
        },
        None => file_name(source),
    }
}

/// What reading the gem name of `source` gives.
pub open spec fn name_result(fs: FsView, source: Seq<char>) -> Result<Seq<char>, ErrView> {
    some_or_not_found(gem_name(fs, source), "Ruby gem (.gemspec)"@)
}

/// The gem name of the package at `source`.
pub fn parse_package_name(fs: &FsView, source: &str) -> (r: LinkdResult<String>)
    ensures
        res_str(r) == name_result(*fs, source@),
{
    let mut exts: Vec<Vec<char>> = Vec::new();
    exts.push(lit("gemspec"));
    assert(views(exts@) =~= gemspec_exts());
    let name = match fs.first_child_with_ext_exec(source, &exts) {
        Some((i, fname)) => {
            let n = match read_text_exec(fs, fs.entries[i].path.as_str()) {
                Ok(t) => read_name_safe(t.as_str(), &Rule::Gemspec),
                Err(_) => None,
            };
            match n {
                Some(x) => Some(x),
                None => Some(from_chars(&stem_exec(&to_chars(fname.as_str())))),
            }
        },
        None => file_name_exec(source),
    };
    name_or_not_found_exec(name, "Ruby gem (.gemspec)")
}

/// `consumer_root/vendor/bundle/gems/<package_name>`.
pub fn resolve_ruby_target(consumer_root: &str, package_name: &str) -> (r: LinkdResult<ResolvedSyncTarget>)
    ensures
        r matches Ok(t) && project_local(
            join(join(join(join(consumer_root@, "vendor"@), "bundle"@), "gems"@), package_name@),
            t,
        ),
{
    let a = path_join(consumer_root, "vendor");
    let b = path_join(a.as_str(), "bundle");
    let c = path_join(b.as_str(), "gems");
    Ok(project_local_target(path_join(c.as_str(), package_name)))
}

/// A `Gemfile` or `Rakefile` in `dir`, or a `.gemspec` among its entries.
pub open spec fn ruby_manifest(fs: FsView, dir: Seq<char>) -> bool {
    ||| fs.is_file(join(dir, "Gemfile"@))
    ||| fs.is_file(join(dir, "Rakefile"@))
    ||| fs.first_child_with_ext(dir, gemspec_exts()) is Some
}

/// Whether `dir` holds a Ruby manifest.
pub fn has_ruby_manifest(fs: &FsView, dir: &str) -> (r: bool)
    ensures
        r == ruby_manifest(*fs, dir@),
{
    if fs.is_file_exec(path_join(dir, "Gemfile").as_str()) || fs.is_file_exec(
        path_join(dir, "Rakefile").as_str(),
    ) {
        return true;
    }
    let mut exts: Vec<Vec<char>> = Vec::new();
    exts.push(lit("gemspec"));
    assert(views(exts@) =~= gemspec_exts());
    fs.first_child_with_ext_exec(dir, &exts).is_some()
}

/// A Ruby manifest in the source or in the consumer.
pub fn detect_ruby(fs: &FsView, source: &str, consumer: &str) -> (r: bool)
    ensures
        r == (ruby_manifest(*fs, source@) || ruby_manifest(*fs, consumer@)),
{
    has_ruby_manifest(fs, source) || has_ruby_manifest(fs, consumer)
}

/// The completion markers of a Ruby consumer: with the consumer and the
/// directories of all candidates present, `Gemfile.lock` and `.bundle/config`, in this order; without the
/// consumer, `Gemfile.lock` alone. This holds of every view that, as a file
/// system does, holds the directory of each of its entries, for a consumer
/// path with at least one component.
pub proof fn lemma_ruby_markers(fs: FsView, c: Seq<char>)
    requires
        fs.parents_present(),
        components(c).len() > 0,
    ensures
        fs.has_path(c) && fs.has_path(join(c, ".bundle"@)) ==> markers(fs, c) == seq![
            join(c, "Gemfile.lock"@),
            join(join(c, ".bundle"@), "config"@),
        ],
        !fs.has_path(c) ==> markers(fs, c) == seq![join(c, "Gemfile.lock"@)],
{
    reveal_strlit("Gemfile.lock");
    assert(crate::paths::plain_name("Gemfile.lock"@)) by {
        reveal_with_fuel(crate::paths::slash_free, 13);
        crate::paths::lemma_plain_name("Gemfile.lock"@);
    }
    reveal_strlit(".bundle");
    assert(crate::paths::plain_name(".bundle"@)) by {
        reveal_with_fuel(crate::paths::slash_free, 8);
        crate::paths::lemma_plain_name(".bundle"@);
    }
    reveal_strlit("config");
    assert(crate::paths::plain_name("config"@)) by {
        reveal_with_fuel(crate::paths::slash_free, 7);
        crate::paths::lemma_plain_name("config"@);
    }
    if fs.has_path(join(c, ".bundle"@)) {
        crate::fs::lemma_parent_present(fs, c, ".bundle"@);
    }
    crate::fs::lemma_parent_of_join(fs, c, "Gemfile.lock"@);
    crate::fs::lemma_parent_of_join(fs, join(c, ".bundle"@), "config"@);
    let cands = marker_candidates(c);
    assert(cands[0] == join(c, "Gemfile.lock"@));
    assert(cands[1] == join(join(c, ".bundle"@), "config"@));
    if fs.has_path(c) && fs.has_path(join(c, ".bundle"@)) {
        crate::fs::lemma_keep_all(fs, cands);
    }
    if !fs.has_path(c) {
        crate::fs::lemma_keep_none(fs, cands);
    }
}

} // verus!
